use vstd::prelude::*;

use crate::counting::count_of;
use crate::engine::analysis_spec;
use crate::engine::is_best_trial;
use crate::engine::ranked_palette_of;
use crate::engine::trial_key;
use crate::engine::trial_of;
use crate::rank::precedes;
use crate::types::Config;
use crate::types::RankedColor;

verus! {

/// `r` holds centroid index `c` somewhere.
pub open spec fn contains_index(r: Seq<RankedColor>, c: int) -> bool {
    exists|j: int| 0 <= j < r.len() && r[j].index as int == c
}

/// Every entry of `r` is a function of its index field: its count is that
/// index's population in the assignment `t0`, and its color is that index's
/// centroid color in `t1`.
pub open spec fn entries_determined(
    r: Seq<RankedColor>,
    t0: Seq<u8>,
    t1: Seq<(u8, u8, u8)>,
) -> bool {
    forall|j: int|
        0 <= j < r.len() ==> {
            &&& (r[j].index as int) < t1.len()
            &&& r[j].count == count_of(t0, r[j].index as int)
            &&& (r[j].color.r, r[j].color.g, r[j].color.b) == t1[r[j].index as int]
        }
}

/// `r` is sorted strictly by the ranking order.
pub open spec fn sorted_strict(r: Seq<RankedColor>) -> bool {
    forall|i: int, j: int| 0 <= i < j < r.len() ==> precedes(r[i], r[j])
}

/// Two sequences sorted strictly by the ranking order, whose entries are
/// functions of their indices and which hold the same set of indices, are
/// the same sequence.
proof fn lemma_sorted_entries_unique(
    t0: Seq<u8>,
    t1: Seq<(u8, u8, u8)>,
    r1: Seq<RankedColor>,
    r2: Seq<RankedColor>,
)
    requires
        sorted_strict(r1),
        sorted_strict(r2),
        entries_determined(r1, t0, t1),
        entries_determined(r2, t0, t1),
        forall|c: int| contains_index(r1, c) <==> contains_index(r2, c),
    ensures
        r1 == r2,
    decreases r1.len(),
{
    if r1.len() == 0 {
        if r2.len() > 0 {
            assert(contains_index(r2, r2[0].index as int));
            assert(contains_index(r1, r2[0].index as int));
            let j = choose|j: int| 0 <= j < r1.len() && r1[j].index as int == r2[0].index as int;
            assert(false);
        }
        assert(r1 =~= r2);
    } else {
        if r2.len() == 0 {
            assert(contains_index(r1, r1[0].index as int));
            assert(contains_index(r2, r1[0].index as int));
            let j = choose|j: int| 0 <= j < r2.len() && r2[j].index as int == r1[0].index as int;
            assert(false);
        }
        assert(contains_index(r1, r1[0].index as int));
        assert(contains_index(r2, r1[0].index as int));
        let j2 = choose|j: int| 0 <= j < r2.len() && r2[j].index as int == r1[0].index as int;
        assert(r2[j2] == r1[0]);
        assert(contains_index(r2, r2[0].index as int));
        assert(contains_index(r1, r2[0].index as int));
        let j1 = choose|j: int| 0 <= j < r1.len() && r1[j].index as int == r2[0].index as int;
        assert(r1[j1] == r2[0]);
        if j2 > 0 && j1 > 0 {
            assert(precedes(r2[0], r2[j2]));
            assert(precedes(r1[0], r1[j1]));
            assert(false);
        }
        assert(r1[0] == r2[0]);
        let s1 = r1.drop_first();
        let s2 = r2.drop_first();
        assert forall|j: int| 0 < j < r1.len() implies #[trigger] r1[j].index != r1[0].index by {
            if r1[j].index == r1[0].index {
                assert(r1[j] == r1[0]);
                assert(precedes(r1[0], r1[j]));
            }
        }
        assert forall|j: int| 0 < j < r2.len() implies #[trigger] r2[j].index != r2[0].index by {
            if r2[j].index == r2[0].index {
                assert(r2[j] == r2[0]);
                assert(precedes(r2[0], r2[j]));
            }
        }
        assert forall|c: int| contains_index(s1, c) implies contains_index(s2, c) by {
            let j = choose|j: int| 0 <= j < s1.len() && s1[j].index as int == c;
            assert(r1[j + 1].index as int == c);
            assert(contains_index(r1, c));
            assert(contains_index(r2, c));
            let j3 = choose|j3: int| 0 <= j3 < r2.len() && r2[j3].index as int == c;
            assert(j3 > 0);
            assert(s2[j3 - 1].index as int == c);
        }
        assert forall|c: int| contains_index(s2, c) implies contains_index(s1, c) by {
            let j = choose|j: int| 0 <= j < s2.len() && s2[j].index as int == c;
            assert(r2[j + 1].index as int == c);
            assert(contains_index(r2, c));
            assert(contains_index(r1, c));
            let j3 = choose|j3: int| 0 <= j3 < r1.len() && r1[j3].index as int == c;
            assert(j3 > 0);
            assert(s1[j3 - 1].index as int == c);
        }
        assert(sorted_strict(s1));
        assert(sorted_strict(s2));
        assert(entries_determined(s1, t0, t1));
        assert(entries_determined(s2, t0, t1));
        lemma_sorted_entries_unique(t0, t1, s1, s2);
        assert(r1.len() == r2.len());
        assert forall|i: int| 0 <= i < r1.len() implies r1[i] == r2[i] by {
            if i > 0 {
                assert(s1[i - 1] == r1[i]);
                assert(s2[i - 1] == r2[i]);
            }
        }
        assert(r1 =~= r2);
    }
}

/// Only one trial wins the selection: the tie-break by trial index is total.
pub proof fn lemma_best_trial_unique(pixels: Seq<u8>, cfg: Config, b1: int, b2: int)
    requires
        is_best_trial(pixels, cfg, b1),
        is_best_trial(pixels, cfg, b2),
    ensures
        b1 == b2,
{
    if b1 < b2 {
        assert(trial_key(pixels, cfg, b2) < trial_key(pixels, cfg, b1));
        assert(trial_key(pixels, cfg, b1) <= trial_key(pixels, cfg, b2));
    } else if b2 < b1 {
        assert(trial_key(pixels, cfg, b1) < trial_key(pixels, cfg, b2));
        assert(trial_key(pixels, cfg, b2) <= trial_key(pixels, cfg, b1));
    }
}

/// Determinism: one input and one configuration admit only one analysis
/// result, whatever order the trials were examined in.
pub proof fn lemma_analysis_deterministic(
    pixels: Seq<u8>,
    cfg: Config,
    r1: Seq<RankedColor>,
    r2: Seq<RankedColor>,
)
    requires
        analysis_spec(pixels, cfg, r1),
        analysis_spec(pixels, cfg, r2),
    ensures
        r1 == r2,
{
    let b1 = choose|b: int| is_best_trial(pixels, cfg, b) && ranked_palette_of(pixels, cfg, b, r1);
    let b2 = choose|b: int| is_best_trial(pixels, cfg, b) && ranked_palette_of(pixels, cfg, b, r2);
    lemma_best_trial_unique(pixels, cfg, b1, b2);
    let t = trial_of(pixels, cfg, b1);
    assert forall|c: int| contains_index(r1, c) implies contains_index(r2, c) by {
        let j = choose|j: int| 0 <= j < r1.len() && r1[j].index as int == c;
        assert(0 <= c < t.1.len() && count_of(t.0, c) > 0);
        let j3 = choose|j3: int| 0 <= j3 < r2.len() && r2[j3].index as int == c;
    }
    assert forall|c: int| contains_index(r2, c) implies contains_index(r1, c) by {
        let j = choose|j: int| 0 <= j < r2.len() && r2[j].index as int == c;
        assert(0 <= c < t.1.len() && count_of(t.0, c) > 0);
        let j3 = choose|j3: int| 0 <= j3 < r1.len() && r1[j3].index as int == c;
    }
    assert(entries_determined(r1, t.0, t.1));
    assert(entries_determined(r2, t.0, t.1));
    lemma_sorted_entries_unique(t.0, t.1, r1, r2);
}

} // verus!
