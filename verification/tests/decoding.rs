use image_analysis::engine::decode;
use image_analysis::engine::load_image_from_uint8_array;
use image_analysis::types::AnalysisError;

fn png_bytes(width: u32, height: u32, pixels: &[(u8, u8, u8)]) -> Vec<u8> {
    assert_eq!(pixels.len(), (width * height) as usize);
    let mut raw: Vec<u8> = Vec::new();
    for &(r, g, b) in pixels {
        raw.push(r);
        raw.push(g);
        raw.push(b);
    }
    let img = image::RgbImage::from_raw(width, height, raw).expect("raw buffer matches size");
    let mut bytes: Vec<u8> = Vec::new();
    img.write_to(&mut std::io::Cursor::new(&mut bytes), image::ImageFormat::Png)
        .expect("png encoding succeeds");
    bytes
}

fn varied_pixels(n: usize) -> Vec<(u8, u8, u8)> {
    (0..n)
        .map(|i| {
            let v = (i * 17 % 256) as u8;
            ((255 - v), v, (i * 31 % 256) as u8)
        })
        .collect()
}

#[test]
fn decode_reports_width_height_and_sample_count() {
    let pixels = varied_pixels(12);
    let bytes = png_bytes(4, 3, &pixels);
    let buf = decode(&bytes).expect("a valid png decodes");
    assert_eq!(buf.width, 4);
    assert_eq!(buf.height, 3);
    assert_eq!(buf.data.len(), 4 * 3 * 3);
    for (i, &(r, g, b)) in pixels.iter().enumerate() {
        assert_eq!(buf.data[3 * i], r);
        assert_eq!(buf.data[3 * i + 1], g);
        assert_eq!(buf.data[3 * i + 2], b);
    }
}

#[test]
fn decode_rejects_malformed_bytes() {
    let bytes: Vec<u8> = vec![1, 2, 3, 4, 5, 6, 7, 8];
    match decode(&bytes) {
        Err(AnalysisError::Decode) => {}
        other => panic!("expected a decode failure, got {:?}", other.is_ok()),
    }
}

#[test]
fn load_image_rejects_malformed_bytes() {
    let bytes: Vec<u8> = vec![137, 80, 78, 71, 0, 0, 0, 0];
    assert_eq!(load_image_from_uint8_array(&bytes), Err(AnalysisError::Decode));
}

#[test]
fn load_image_rejects_images_smaller_than_default_cluster_count() {
    // 2 x 2 = 4 pixels, fewer than the 10 clusters of the reference settings
    let bytes = png_bytes(2, 2, &varied_pixels(4));
    assert_eq!(load_image_from_uint8_array(&bytes), Err(AnalysisError::InvalidParameter));
}

#[test]
fn load_image_returns_ranked_palette() {
    let pixels = varied_pixels(64);
    let bytes = png_bytes(8, 8, &pixels);
    let res = load_image_from_uint8_array(&bytes).expect("a valid png of 64 pixels");
    assert!(!res.is_empty());
    assert!(res.len() <= 10);
    let total: usize = res.iter().map(|e| e.count).sum();
    assert_eq!(total, 64);
    for w in res.windows(2) {
        assert!(w[0].count >= w[1].count);
        if w[0].count == w[1].count {
            assert!(w[0].index < w[1].index);
        }
    }
}

#[test]
fn load_image_is_deterministic() {
    let bytes = png_bytes(8, 8, &varied_pixels(64));
    let first = load_image_from_uint8_array(&bytes).expect("a valid png of 64 pixels");
    let second = load_image_from_uint8_array(&bytes).expect("a valid png of 64 pixels");
    assert_eq!(first, second);
}
