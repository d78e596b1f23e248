use vstd::prelude::*;

use crate::types::RankedColor;
use crate::types::RgbTuple;

verus! {

/// Ranking order on palette entries: the more populous cluster first and,
/// among clusters of equal population, the smaller original centroid index
/// first.
pub open spec fn precedes(a: RankedColor, b: RankedColor) -> bool {
    a.count > b.count || (a.count == b.count && a.index < b.index)
}

/// The sum of the `count` fields of a sequence of entries.
pub open spec fn sum_rc(r: Seq<RankedColor>) -> int
    decreases r.len(),
{
    if r.len() == 0 {
        0
    } else {
        sum_rc(r.drop_last()) + r.last().count
    }
}

/// The sum of a sequence of counts.
pub open spec fn sum_usize(s: Seq<usize>) -> int
    decreases s.len(),
{
    if s.len() == 0 {
        0
    } else {
        sum_usize(s.drop_last()) + s.last()
    }
}

/// A vector holding, at each index below its length, the count of that index
/// in `s`, sums to the sum of those per-index counts.
pub proof fn lemma_sum_usize_counts(counts: Seq<usize>, s: Seq<u8>)
    requires
        forall|c: int| 0 <= c < counts.len() ==> counts[c] == crate::counting::count_of(s, c),
    ensures
        sum_usize(counts) == crate::counting::sum_counts(s, counts.len() as int),
    decreases counts.len(),
{
    if counts.len() > 0 {
        let t = counts.drop_last();
        assert(forall|c: int| 0 <= c < t.len() ==> t[c] == counts[c]);
        lemma_sum_usize_counts(t, s);
    }
}

/// Inserting an entry anywhere adds its count to the sum.
pub proof fn lemma_sum_rc_insert(r: Seq<RankedColor>, p: int, x: RankedColor)
    requires
        0 <= p <= r.len(),
    ensures
        sum_rc(r.insert(p, x)) == sum_rc(r) + x.count,
    decreases r.len() - p,
{
    if p == r.len() {
        assert(r.insert(p, x).drop_last() =~= r);
        assert(r.insert(p, x).last() == x);
    } else {
        assert(r.insert(p, x).last() == r.last());
        assert(r.insert(p, x).drop_last() =~= r.drop_last().insert(p, x));
        lemma_sum_rc_insert(r.drop_last(), p, x);
    }
}

/// Build the ranked palette from the per-centroid counts: one entry for each
/// centroid with at least one assigned sample, holding its color and its
/// count, sorted by non-increasing count and, among equal counts, by
/// ascending centroid index. The entry counts sum to the sum of all counts.
pub fn rank_clusters(counts: &Vec<usize>, centroids: &Vec<RgbTuple>) -> (res: Vec<RankedColor>)
    requires
        counts@.len() == centroids@.len(),
    ensures
        forall|i: int, j: int| 0 <= i < j < res@.len() ==> precedes(res@[i], res@[j]),
        forall|j: int|
            0 <= j < res@.len() ==> {
                &&& (res@[j].index as int) < counts@.len()
                &&& res@[j].count == counts@[res@[j].index as int]
                &&& res@[j].count > 0
                &&& res@[j].color == centroids@[res@[j].index as int]
            },
        forall|c: int|
            0 <= c < counts@.len() && counts@[c] > 0 ==> exists|j: int|
                0 <= j < res@.len() && res@[j].index as int == c,
        sum_rc(res@) == sum_usize(counts@),
{
    let k = counts.len();
    let mut res: Vec<RankedColor> = Vec::new();
    let mut c: usize = 0;
    while c < k
        invariant
            c <= k,
            k == counts@.len(),
            counts@.len() == centroids@.len(),
            forall|i: int, j: int| 0 <= i < j < res@.len() ==> precedes(res@[i], res@[j]),
            forall|j: int|
                0 <= j < res@.len() ==> {
                    &&& (res@[j].index as int) < c
                    &&& res@[j].count == counts@[res@[j].index as int]
                    &&& res@[j].count > 0
                    &&& res@[j].color == centroids@[res@[j].index as int]
                },
            forall|cc: int|
                0 <= cc < c && counts@[cc] > 0 ==> exists|j: int|
                    0 <= j < res@.len() && res@[j].index as int == cc,
            sum_rc(res@) == sum_usize(counts@.take(c as int)),
        decreases k - c,
    {
        let cnt = counts[c];
        proof {
            assert(counts@.take(c as int + 1).drop_last() =~= counts@.take(c as int));
            assert(counts@.take(c as int + 1).last() == counts@[c as int]);
        }
        if cnt > 0 {
            let mut p: usize = 0;
            while p < res.len() && res[p].count >= cnt
                invariant
                    p <= res@.len(),
                    forall|q: int| 0 <= q < p ==> res@[q].count >= cnt,
                decreases res@.len() - p,
            {
                p += 1;
            }
            let entry = RankedColor { index: c, color: centroids[c], count: cnt };
            proof {
                lemma_sum_rc_insert(res@, p as int, entry);
            }
            let ghost old_res = res@;
            res.insert(p, entry);
            proof {
                assert forall|i: int, j: int| 0 <= i < j < res@.len() implies precedes(
                    res@[i],
                    res@[j],
                ) by {
                    if j < p {
                        assert(res@[i] == old_res[i] && res@[j] == old_res[j]);
                    } else if i > p {
                        assert(res@[i] == old_res[i - 1] && res@[j] == old_res[j - 1]);
                    } else if i < p && j == p {
                        assert(res@[i] == old_res[i] && res@[j] == entry);
                        assert(old_res[i].count >= cnt);
                    } else if i == p {
                        assert(res@[i] == entry && res@[j] == old_res[j - 1]);
                        assert(p < old_res.len());
                        assert(old_res[p as int].count < cnt);
                        if j - 1 > p {
                            assert(precedes(old_res[p as int], old_res[j - 1]));
                        }
                        assert(old_res[j - 1].count < cnt);
                    } else {
                        assert(i < p && j > p);
                        assert(res@[i] == old_res[i] && res@[j] == old_res[j - 1]);
                    }
                }
                assert forall|cc: int|
                    0 <= cc < c + 1 && counts@[cc] > 0 implies exists|j: int|
                    0 <= j < res@.len() && res@[j].index as int == cc by {
                    if cc == c {
                        assert(res@[p as int].index as int == cc);
                    } else {
                        let j0 = choose|j0: int|
                            0 <= j0 < old_res.len() && old_res[j0].index as int == cc;
                        if j0 < p {
                            assert(res@[j0].index as int == cc);
                        } else {
                            assert(res@[j0 + 1].index as int == cc);
                        }
                    }
                }
            }
        }
        c += 1;
    }
    proof {
        assert(counts@.take(k as int) =~= counts@);
    }
    res
}

} // verus!
