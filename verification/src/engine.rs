use vstd::prelude::*;

use crate::counting::count_assignments;
use crate::counting::count_of;
use crate::counting::lemma_count_le_len;
use crate::counting::lemma_sum_counts_total;
use crate::counting::sum_counts;
use crate::rank::lemma_sum_usize_counts;
use crate::rank::precedes;
use crate::rank::rank_clusters;
use crate::rank::sum_rc;
use crate::trusted::clustering_trial;
use crate::trusted::decode_rgb;
use crate::trusted::decoded_image;
use crate::trusted::rgb_seq;
use crate::trusted::run_trial;
use crate::trusted::uniform_pixels;
use crate::types::AnalysisError;
use crate::types::Config;
use crate::types::PixelBuffer;
use crate::types::RankedColor;
use crate::types::default_config;

verus! {

/// The seed of trial `i` under configuration `cfg`.
pub open spec fn trial_seed(cfg: Config, i: int) -> int {
    cfg.base_seed + i
}

/// The outcome of trial `i` over `pixels`: assignment, centroid colors, score key.
pub open spec fn trial_of(pixels: Seq<u8>, cfg: Config, i: int) -> (Seq<u8>, Seq<(u8, u8, u8)>, u32) {
    clustering_trial(
        pixels,
        cfg.cluster_count as int,
        cfg.max_iterations as int,
        cfg.convergence_threshold as int,
        trial_seed(cfg, i),
    )
}

/// The score ordering key of trial `i`.
pub open spec fn trial_key(pixels: Seq<u8>, cfg: Config, i: int) -> u32 {
    trial_of(pixels, cfg, i).2
}

/// Trial `b` wins the selection: no trial has a lower key, and every earlier
/// trial has a strictly higher key.
pub open spec fn is_best_trial(pixels: Seq<u8>, cfg: Config, b: int) -> bool {
    &&& 0 <= b < cfg.trial_count
    &&& forall|i: int|
        0 <= i < cfg.trial_count ==> trial_key(pixels, cfg, b) <= trial_key(pixels, cfg, i)
    &&& forall|i: int| 0 <= i < b ==> trial_key(pixels, cfg, b) < trial_key(pixels, cfg, i)
}

/// `r` is the ranked palette of trial `b` over `pixels`: its entries are
/// exactly the non-empty clusters of that trial, each holding the cluster's
/// centroid color and its sample count, sorted by non-increasing count with
/// ties broken by ascending centroid index; the entry counts cover every
/// sample of the trial.
pub open spec fn ranked_palette_of(
    pixels: Seq<u8>,
    cfg: Config,
    b: int,
    r: Seq<RankedColor>,
) -> bool {
    let t = trial_of(pixels, cfg, b);
    &&& 1 <= t.1.len() <= cfg.cluster_count
    &&& forall|i: int, j: int| 0 <= i < j < r.len() ==> precedes(r[i], r[j])
    &&& forall|j: int|
        0 <= j < r.len() ==> {
            &&& (r[j].index as int) < t.1.len()
            &&& r[j].count == count_of(t.0, r[j].index as int)
            &&& r[j].count > 0
            &&& (r[j].color.r, r[j].color.g, r[j].color.b) == t.1[r[j].index as int]
        }
    &&& forall|c: int|
        0 <= c < t.1.len() && count_of(t.0, c) > 0 ==> exists|j: int|
            0 <= j < r.len() && r[j].index as int == c
    &&& sum_rc(r) == t.0.len()
}

/// A successful analysis of `pixels` under `cfg` returns the ranked palette
/// of the winning trial.
pub open spec fn analysis_spec(pixels: Seq<u8>, cfg: Config, r: Seq<RankedColor>) -> bool {
    exists|b: int| is_best_trial(pixels, cfg, b) && ranked_palette_of(pixels, cfg, b, r)
}

/// The parameters reject an image of `n` pixels: a zero setting, or more
/// clusters requested than there are pixels.
pub open spec fn params_invalid(cfg: Config, n: int) -> bool {
    ||| cfg.cluster_count == 0
    ||| cfg.trial_count == 0
    ||| cfg.max_iterations == 0
    ||| cfg.cluster_count > n
}

/// Decode compressed image bytes into a pixel buffer.
pub fn decode(bytes: &Vec<u8>) -> (res: Result<PixelBuffer, AnalysisError>)
    ensures
        res is Ok <==> decoded_image(bytes@) is Some,
        res matches Ok(p) ==> p.wf() && decoded_image(bytes@) == Some((p.width, p.height, p.data@)),
        res matches Err(e) ==> e == AnalysisError::Decode,
{
    match decode_rgb(bytes) {
        Some((w, h, data)) => Ok(PixelBuffer { width: w, height: h, data }),
        None => Err(AnalysisError::Decode),
    }
}

/// Extract the ranked dominant-color palette of a decoded image.
///
/// Runs `cfg.trial_count` independently seeded clustering trials over the
/// image's pixels, keeps the trial with the lowest score (ties go to the
/// earliest trial), and returns that trial's non-empty clusters, most
/// dominant first.
pub fn analyze(buf: &PixelBuffer, cfg: &Config) -> (res: Result<Vec<RankedColor>, AnalysisError>)
    requires
        buf.wf(),
        // the clustering stores assignment indices in one byte each
        cfg.cluster_count <= 256,
        // every trial seed base_seed + i must fit in 64 bits
        cfg.base_seed + cfg.trial_count - 1 <= u64::MAX,
    ensures
        res is Err <==> params_invalid(*cfg, buf.sample_count()),
        res matches Err(e) ==> e == AnalysisError::InvalidParameter,
        res matches Ok(r) ==> {
            &&& analysis_spec(buf.data@, *cfg, r@)
            &&& sum_rc(r@) == buf.sample_count()
            &&& forall|j: int| 0 <= j < r@.len() ==> r@[j].count <= buf.sample_count()
        },
        // a single-color image yields exactly one cluster, holding every sample
        res matches Ok(r) ==> (uniform_pixels(buf.data@) ==> r@.len() == 1 && r@[0].count
            == buf.sample_count()),
{
    let n = buf.data.len() / 3;
    proof {
        assert(buf.data@.len() == 3 * buf.sample_count());
        assert(buf.data@.len() / 3 == buf.sample_count()) by (nonlinear_arith)
            requires
                buf.data@.len() == 3 * buf.sample_count(),
        ;
        assert(buf.data@.len() % 3 == 0) by (nonlinear_arith)
            requires
                buf.data@.len() == 3 * buf.sample_count(),
        ;
    }
    if cfg.cluster_count == 0 || cfg.trial_count == 0 || cfg.max_iterations == 0
        || cfg.cluster_count > n {
        return Err(AnalysisError::InvalidParameter);
    }
    let pixels = &buf.data;
    let k = cfg.cluster_count;
    let mut best = run_trial(
        pixels,
        k,
        cfg.max_iterations,
        cfg.convergence_threshold,
        cfg.base_seed,
    );
    let ghost mut best_idx: int = 0;
    let mut i: usize = 1;
    while i < cfg.trial_count
        invariant
            1 <= i <= cfg.trial_count,
            0 <= best_idx < i,
            buf.wf(),
            n == buf.sample_count(),
            n == buf.data@.len() / 3,
            buf.data@.len() % 3 == 0,
            pixels == &buf.data,
            k == cfg.cluster_count,
            1 <= k <= n,
            k <= 256,
            cfg.max_iterations >= 1,
            cfg.base_seed + cfg.trial_count - 1 <= u64::MAX,
            (best.assignment@, rgb_seq(best.centroids@), best.score_key) == trial_of(
                buf.data@,
                *cfg,
                best_idx,
            ),
            best.assignment@.len() == n,
            1 <= best.centroids@.len() <= k,
            uniform_pixels(buf.data@) ==> best.centroids@.len() == 1,
            forall|idx: int|
                0 <= idx < n ==> (best.assignment@[idx] as int) < best.centroids@.len(),
            forall|j: int| 0 <= j < i ==> best.score_key <= trial_key(buf.data@, *cfg, j),
            forall|j: int| 0 <= j < best_idx ==> best.score_key < trial_key(buf.data@, *cfg, j),
        decreases cfg.trial_count - i,
    {
        let t = run_trial(
            pixels,
            k,
            cfg.max_iterations,
            cfg.convergence_threshold,
            cfg.base_seed + (i as u64),
        );
        if t.score_key < best.score_key {
            best = t;
            proof {
                best_idx = i as int;
            }
        }
        i += 1;
    }
    let formed = best.centroids.len();
    let counts = count_assignments(&best.assignment, formed);
    let ranked = rank_clusters(&counts, &best.centroids);
    proof {
        let t = trial_of(buf.data@, *cfg, best_idx);
        lemma_sum_counts_total(best.assignment@, formed as int);
        lemma_sum_usize_counts(counts@, best.assignment@);
        assert forall|j: int| 0 <= j < ranked@.len() implies {
            &&& (ranked@[j].index as int) < t.1.len()
            &&& (ranked@[j].color.r, ranked@[j].color.g, ranked@[j].color.b) == t.1[ranked@[
                j].index as int]
            &&& ranked@[j].count <= buf.sample_count()
        } by {
            let c = ranked@[j].index as int;
            assert(rgb_seq(best.centroids@)[c] == (
                best.centroids@[c].r,
                best.centroids@[c].g,
                best.centroids@[c].b,
            ));
            lemma_count_le_len(best.assignment@, c);
        }
        assert(ranked_palette_of(buf.data@, *cfg, best_idx, ranked@));
        assert(is_best_trial(buf.data@, *cfg, best_idx));
        if uniform_pixels(buf.data@) {
            assert(formed == 1);
            assert(counts@[0] == count_of(best.assignment@, 0));
            assert(sum_counts(best.assignment@, 1) == n);
            assert(sum_counts(best.assignment@, 0) == 0);
            assert(count_of(best.assignment@, 0) == n);
            assert(counts@[0] > 0);
            assert(ranked@.len() >= 1);
            if ranked@.len() >= 2 {
                assert(precedes(ranked@[0], ranked@[1]));
                assert(false);
            }
            assert(ranked@[0].count == n);
        }
    }
    Ok(ranked)
}

/// Decode the bytes and analyze them with the reference settings.
pub fn load_image_from_uint8_array(bytes: &Vec<u8>) -> (res: Result<
    Vec<RankedColor>,
    AnalysisError,
>)
    ensures
        res is Ok <==> (decoded_image(bytes@) matches Some(t) && !params_invalid(
            default_config(),
            t.2.len() as int / 3,
        )),
        res == Err::<Vec<RankedColor>, AnalysisError>(AnalysisError::Decode) <==> decoded_image(
            bytes@,
        ) is None,
        res matches Ok(r) ==> (decoded_image(bytes@) matches Some(t) && analysis_spec(
            t.2,
            default_config(),
            r@,
        )),
{
    let cfg = Config::default();
    match decode(bytes) {
        Err(_) => Err(AnalysisError::Decode),
        Ok(buf) => {
            proof {
                assert(buf.data@.len() / 3 == buf.sample_count()) by (nonlinear_arith)
                    requires
                        buf.data@.len() == 3 * buf.sample_count(),
                ;
            }
            analyze(&buf, &cfg)
        },
    }
}

} // verus!
