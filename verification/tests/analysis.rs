use image_analysis::engine::analyze;
use image_analysis::types::AnalysisError;
use image_analysis::types::Config;
use image_analysis::types::PixelBuffer;
use image_analysis::types::RgbTuple;

fn buffer_from_pixels(width: u32, height: u32, pixels: &[(u8, u8, u8)]) -> PixelBuffer {
    assert_eq!(pixels.len(), (width * height) as usize);
    let mut data: Vec<u8> = Vec::new();
    for &(r, g, b) in pixels {
        data.push(r);
        data.push(g);
        data.push(b);
    }
    PixelBuffer { width, height, data }
}

fn uniform_buffer(width: u32, height: u32, color: (u8, u8, u8)) -> PixelBuffer {
    let pixels: Vec<(u8, u8, u8)> = vec![color; (width * height) as usize];
    buffer_from_pixels(width, height, &pixels)
}

fn channel_close(a: u8, b: u8, tolerance: u8) -> bool {
    a.abs_diff(b) <= tolerance
}

#[test]
fn four_distinct_pixels_give_four_unit_clusters() {
    let inputs = [(255u8, 0u8, 0u8), (0, 255, 0), (0, 0, 255), (255, 255, 255)];
    let buf = buffer_from_pixels(2, 2, &inputs);
    let cfg = Config {
        cluster_count: 4,
        trial_count: 1,
        max_iterations: 20,
        convergence_threshold: 10,
        base_seed: 314,
    };
    let res = analyze(&buf, &cfg).expect("four pixels admit four clusters");
    assert_eq!(res.len(), 4);
    for entry in &res {
        assert_eq!(entry.count, 1);
    }
    // equal shares: the tie-break orders entries by ascending centroid index
    for w in res.windows(2) {
        assert!(w[0].index < w[1].index);
    }
    // each input color comes back exactly once
    for &(r, g, b) in &inputs {
        let hits = res
            .iter()
            .filter(|e| e.color == RgbTuple { r, g, b })
            .count();
        assert_eq!(hits, 1);
    }
}

#[test]
fn uniform_image_gives_single_full_cluster() {
    let buf = uniform_buffer(3, 3, (40, 120, 200));
    let cfg = Config {
        cluster_count: 3,
        trial_count: 2,
        max_iterations: 20,
        convergence_threshold: 10,
        base_seed: 314,
    };
    let res = analyze(&buf, &cfg).expect("parameters are valid");
    assert_eq!(res.len(), 1);
    assert_eq!(res[0].count, 9);
}

#[test]
fn cluster_count_above_pixel_count_is_invalid() {
    let buf = uniform_buffer(2, 2, (9, 9, 9));
    let cfg = Config {
        cluster_count: 5,
        trial_count: 1,
        max_iterations: 20,
        convergence_threshold: 10,
        base_seed: 314,
    };
    assert_eq!(analyze(&buf, &cfg), Err(AnalysisError::InvalidParameter));
}

#[test]
fn zero_settings_are_invalid() {
    let buf = uniform_buffer(2, 2, (9, 9, 9));
    let base = Config {
        cluster_count: 2,
        trial_count: 2,
        max_iterations: 2,
        convergence_threshold: 10,
        base_seed: 314,
    };
    let no_clusters = Config { cluster_count: 0, ..base };
    let no_trials = Config { trial_count: 0, ..base };
    let no_iterations = Config { max_iterations: 0, ..base };
    assert_eq!(analyze(&buf, &no_clusters), Err(AnalysisError::InvalidParameter));
    assert_eq!(analyze(&buf, &no_trials), Err(AnalysisError::InvalidParameter));
    assert_eq!(analyze(&buf, &no_iterations), Err(AnalysisError::InvalidParameter));
    assert!(analyze(&buf, &base).is_ok());
}

#[test]
fn analysis_is_deterministic() {
    let pixels = [
        (255u8, 0u8, 0u8),
        (250, 10, 10),
        (0, 0, 255),
        (10, 10, 250),
        (0, 255, 0),
        (255, 255, 255),
    ];
    let buf = buffer_from_pixels(3, 2, &pixels);
    let cfg = Config {
        cluster_count: 3,
        trial_count: 3,
        max_iterations: 20,
        convergence_threshold: 10,
        base_seed: 314,
    };
    let first = analyze(&buf, &cfg).expect("parameters are valid");
    let second = analyze(&buf, &cfg).expect("parameters are valid");
    assert_eq!(first, second);
}

#[test]
fn shares_cover_image_and_order_is_non_increasing() {
    let mut pixels: Vec<(u8, u8, u8)> = Vec::new();
    for _ in 0..6 {
        pixels.push((255, 0, 0));
    }
    for _ in 0..2 {
        pixels.push((0, 0, 255));
    }
    pixels.push((0, 255, 0));
    let buf = buffer_from_pixels(3, 3, &pixels);
    let cfg = Config {
        cluster_count: 3,
        trial_count: 3,
        max_iterations: 20,
        convergence_threshold: 10,
        base_seed: 314,
    };
    let res = analyze(&buf, &cfg).expect("parameters are valid");
    let total: usize = res.iter().map(|e| e.count).sum();
    assert_eq!(total, 9);
    let shares: Vec<f64> = res.iter().map(|e| e.count as f64 / 9.0).collect();
    let sum: f64 = shares.iter().sum();
    assert!((sum - 1.0).abs() < 1e-9);
    for s in &shares {
        assert!(*s > 0.0 && *s <= 1.0);
    }
    for w in res.windows(2) {
        assert!(w[0].count >= w[1].count);
        if w[0].count == w[1].count {
            assert!(w[0].index < w[1].index);
        }
    }
}

#[test]
fn primary_colors_round_trip_within_tolerance() {
    let cases = [(255u8, 0u8, 0u8), (255, 255, 255), (128, 128, 128)];
    for &(r, g, b) in &cases {
        let buf = uniform_buffer(2, 2, (r, g, b));
        let cfg = Config {
            cluster_count: 1,
            trial_count: 1,
            max_iterations: 20,
            convergence_threshold: 10,
            base_seed: 314,
        };
        let res = analyze(&buf, &cfg).expect("parameters are valid");
        assert_eq!(res.len(), 1);
        assert_eq!(res[0].count, 4);
        assert!(channel_close(res[0].color.r, r, 2));
        assert!(channel_close(res[0].color.g, g, 2));
        assert!(channel_close(res[0].color.b, b, 2));
    }
}

#[test]
fn default_config_matches_reference_settings() {
    let cfg = Config::default();
    assert_eq!(cfg.cluster_count, 10);
    assert_eq!(cfg.trial_count, 3);
    assert_eq!(cfg.max_iterations, 20);
    assert_eq!(cfg.convergence_threshold, 10);
    assert_eq!(cfg.base_seed, 314);
}

#[test]
fn add_sums_its_arguments() {
    assert_eq!(image_analysis::add(2, 3), 5);
    assert_eq!(image_analysis::add(-7, 7), 0);
}
