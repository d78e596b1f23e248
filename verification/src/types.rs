use vstd::prelude::*;

verus! {

/// One 8-bit RGB color triplet.
#[derive(Clone, Copy, PartialEq, Eq, Structural, Debug)]
pub struct RgbTuple {
    pub r: u8,
    pub g: u8,
    pub b: u8,
}

/// A decoded raster image: width, height, and the row-major RGB bytes,
/// three bytes per pixel.
pub struct PixelBuffer {
    pub width: u32,
    pub height: u32,
    pub data: Vec<u8>,
}

impl PixelBuffer {
    /// The buffer holds exactly three bytes for each of its width * height pixels.
    pub open spec fn wf(&self) -> bool {
        self.data@.len() == 3 * self.sample_count()
    }

    /// The number of pixels in the image.
    pub open spec fn sample_count(&self) -> int {
        (self.width as int) * (self.height as int)
    }
}

/// One entry of the ranked palette: the index the cluster had among the
/// centroids, its color, and the number of samples assigned to it. The
/// cluster's share of the image is `count` divided by the sample count.
#[derive(Clone, Copy, PartialEq, Eq, Structural, Debug)]
pub struct RankedColor {
    pub index: usize,
    pub color: RgbTuple,
    pub count: usize,
}

/// Settings for the clustering pipeline.
#[derive(Clone, Copy, PartialEq, Eq, Structural, Debug)]
pub struct Config {
    /// Desired number of clusters (K).
    pub cluster_count: usize,
    /// Number of independent seeded trials to run.
    pub trial_count: usize,
    /// Iteration cap for each trial.
    pub max_iterations: usize,
    /// Convergence threshold below which a trial stops early, in whole units.
    pub convergence_threshold: u32,
    /// Base seed; trial i runs with seed base_seed + i.
    pub base_seed: u64,
}

/// The reference settings: 10 clusters, 3 trials, 20 iterations,
/// a convergence threshold of 10, and base seed 314.
pub open spec fn default_config() -> Config {
    Config {
        cluster_count: 10,
        trial_count: 3,
        max_iterations: 20,
        convergence_threshold: 10,
        base_seed: 314,
    }
}

impl Default for Config {
    fn default() -> (c: Config)
        ensures
            c == default_config(),
    {
        Config {
            cluster_count: 10,
            trial_count: 3,
            max_iterations: 20,
            convergence_threshold: 10,
            base_seed: 314,
        }
    }
}

/// Why an analysis returned no palette.
#[derive(Clone, Copy, PartialEq, Eq, Structural, Debug)]
pub enum AnalysisError {
    /// The input bytes are not a valid image in any recognized container format.
    Decode,
    /// The cluster count, trial count or iteration cap is zero, or more
    /// clusters were requested than there are pixels.
    InvalidParameter,
}

} // verus!
