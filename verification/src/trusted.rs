use vstd::prelude::*;

use palette::FromColor;
use palette::IntoColor;

use crate::types::RgbTuple;

verus! {

/// What one clustering trial produced: the per-sample assignment (for every
/// sample, the index of its nearest centroid), the centroids encoded back to
/// 8-bit RGB, and the trial's score reduced to an ordering key (a lower key
/// means a lower score).
pub struct TrialOutcome {
    pub assignment: Vec<u8>,
    pub centroids: Vec<RgbTuple>,
    pub score_key: u32,
}

/// The colors of a centroid sequence as plain channel triplets.
pub open spec fn rgb_seq(s: Seq<RgbTuple>) -> Seq<(u8, u8, u8)> {
    s.map(|i: int, c: RgbTuple| (c.r, c.g, c.b))
}

/// Every pixel of the row-major RGB byte string is the same color.
pub open spec fn uniform_pixels(pixels: Seq<u8>) -> bool {
    forall|i: int| 0 <= i < pixels.len() ==> #[trigger] pixels[i] == pixels[i % 3]
}

/// What decoding a byte string yields: `None` where the bytes are not a
/// recognized image, otherwise the image's width, height and row-major RGB
/// bytes, three per pixel.
pub uninterp spec fn decoded_image(bytes: Seq<u8>) -> Option<(u32, u32, Seq<u8>)>;

/// What one seeded clustering trial over row-major RGB bytes yields: the
/// per-sample assignment, the centroid colors as 8-bit channel triplets, and
/// the score ordering key.
pub uninterp spec fn clustering_trial(
    pixels: Seq<u8>,
    k: int,
    max_iter: int,
    convergence: int,
    seed: int,
) -> (Seq<u8>, Seq<(u8, u8, u8)>, u32);

/// Relies on image::load_from_memory and image::DynamicImage::to_rgb8.
/// Decoding is a pure function of the bytes, with no other input; on success
/// the RGB buffer holds exactly width * height pixels of three bytes each,
/// in row-major order.
#[verifier::external_body]
pub(crate) fn decode_rgb(bytes: &Vec<u8>) -> (r: Option<(u32, u32, Vec<u8>)>)
    ensures
        r is Some <==> decoded_image(bytes@) is Some,
        r matches Some(t) ==> {
            &&& decoded_image(bytes@) == Some((t.0, t.1, t.2@))
            &&& t.2@.len() == 3 * ((t.0 as int) * (t.1 as int))
        },
{
    match image::load_from_memory(bytes) {
        Ok(img) => {
            let rgb = img.to_rgb8();
            Some((rgb.width(), rgb.height(), rgb.into_raw()))
        },
        Err(_) => None,
    }
}

/// Relies on palette's sRGB-to-Lab conversion (from_component_slice,
/// into_format, into_color), kmeans_colors::get_kmeans, and palette's
/// Lab-to-sRGB conversion (Srgb::from_color, into_format): one seeded
/// clustering trial is a pure function of the RGB bytes and the parameters,
/// seeded through a fixed ChaCha generator. get_kmeans returns between 1 and
/// k centroids (its k-means++ seeding stops early once every sample already
/// coincides with a centroid, so a uniform buffer gets exactly one
/// centroid), one assignment index per sample, each below the centroid
/// count, and a non-negative score whose IEEE bit pattern orders as the
/// score does.
#[verifier::external_body]
pub(crate) fn run_trial(
    pixels: &Vec<u8>,
    k: usize,
    max_iter: usize,
    convergence: u32,
    seed: u64,
) -> (t: TrialOutcome)
    requires
        pixels@.len() % 3 == 0,
        1 <= k,
        k <= pixels@.len() / 3,
        k <= 256,
        1 <= max_iter,
    ensures
        t.assignment@.len() == pixels@.len() / 3,
        1 <= t.centroids@.len() <= k,
        uniform_pixels(pixels@) ==> t.centroids@.len() == 1,
        forall|i: int|
            0 <= i < t.assignment@.len() ==> (t.assignment@[i] as int) < t.centroids@.len(),
        (t.assignment@, rgb_seq(t.centroids@), t.score_key) == clustering_trial(
            pixels@,
            k as int,
            max_iter as int,
            convergence as int,
            seed as int,
        ),
{
    let lab: Vec<palette::Lab> = palette::cast::from_component_slice::<palette::Srgb<u8>>(pixels)
        .iter()
        .map(|x| x.into_format().into_color())
        .collect();
    let r = kmeans_colors::get_kmeans(k, max_iter, convergence as _, false, &lab, seed);
    let centroids: Vec<RgbTuple> = r.centroids
        .iter()
        .map(|c| {
            let s: palette::Srgb<u8> = palette::Srgb::from_color(*c).into_format();
            RgbTuple { r: s.red, g: s.green, b: s.blue }
        })
        .collect();
    TrialOutcome { assignment: r.indices, centroids, score_key: r.score.to_bits() }
}

} // verus!
