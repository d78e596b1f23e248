use vstd::prelude::*;

verus! {

/// How many entries of `s` equal the centroid index `c`.
pub open spec fn count_of(s: Seq<u8>, c: int) -> nat
    decreases s.len(),
{
    if s.len() == 0 {
        0
    } else {
        count_of(s.drop_last(), c) + if s.last() as int == c {
            1nat
        } else {
            0nat
        }
    }
}

/// The sum, over the centroid indices 0 .. k, of how many entries of `s`
/// hold each index.
pub open spec fn sum_counts(s: Seq<u8>, k: int) -> nat
    decreases k,
{
    if k <= 0 {
        0
    } else {
        sum_counts(s, k - 1) + count_of(s, k - 1)
    }
}

/// No index occurs more often than the sequence is long.
pub proof fn lemma_count_le_len(s: Seq<u8>, c: int)
    ensures
        count_of(s, c) <= s.len(),
    decreases s.len(),
{
    if s.len() > 0 {
        lemma_count_le_len(s.drop_last(), c);
    }
}

/// Appending one entry raises exactly that entry's count by one.
pub proof fn lemma_count_push(s: Seq<u8>, x: u8, c: int)
    ensures
        count_of(s.push(x), c) == count_of(s, c) + if x as int == c {
            1nat
        } else {
            0nat
        },
{
    assert(s.push(x).drop_last() =~= s);
    assert(s.push(x).last() == x);
}

pub proof fn lemma_sum_counts_empty(k: int)
    ensures
        sum_counts(Seq::<u8>::empty(), k) == 0,
    decreases k,
{
    if k > 0 {
        lemma_sum_counts_empty(k - 1);
    }
}

/// Appending an entry below `k` raises the sum over 0 .. k by one.
pub proof fn lemma_sum_counts_push(s: Seq<u8>, x: u8, k: int)
    requires
        (x as int) < k,
    ensures
        sum_counts(s.push(x), k) == sum_counts(s, k) + 1,
    decreases k,
{
    if k > 0 {
        lemma_count_push(s, x, k - 1);
        if (x as int) < k - 1 {
            lemma_sum_counts_push(s, x, k - 1);
        } else {
            lemma_sum_counts_push_out(s, x, k - 1);
        }
    }
}

/// Appending an entry at or above `k` leaves the sum over 0 .. k unchanged.
pub proof fn lemma_sum_counts_push_out(s: Seq<u8>, x: u8, k: int)
    requires
        (x as int) >= k,
    ensures
        sum_counts(s.push(x), k) == sum_counts(s, k),
    decreases k,
{
    if k > 0 {
        lemma_count_push(s, x, k - 1);
        lemma_sum_counts_push_out(s, x, k - 1);
    }
}

/// When every entry of `s` lies below `k`, the per-index counts over 0 .. k
/// cover the whole sequence.
pub proof fn lemma_sum_counts_total(s: Seq<u8>, k: int)
    requires
        forall|i: int| 0 <= i < s.len() ==> (s[i] as int) < k,
    ensures
        sum_counts(s, k) == s.len(),
    decreases s.len(),
{
    if s.len() == 0 {
        assert(s =~= Seq::<u8>::empty());
        lemma_sum_counts_empty(k);
    } else {
        let t = s.drop_last();
        assert(forall|i: int| 0 <= i < t.len() ==> (t[i] as int) < k);
        lemma_sum_counts_total(t, k);
        lemma_sum_counts_push(t, s.last(), k);
        assert(t.push(s.last()) =~= s);
    }
}

/// Count, for each centroid index below `k`, how many samples of the
/// assignment are assigned to it.
pub fn count_assignments(assignment: &Vec<u8>, k: usize) -> (counts: Vec<usize>)
    requires
        forall|i: int| 0 <= i < assignment@.len() ==> (assignment@[i] as int) < k,
    ensures
        counts@.len() == k,
        forall|c: int| 0 <= c < k ==> counts@[c] == count_of(assignment@, c),
{
    let mut counts: Vec<usize> = Vec::new();
    let mut c: usize = 0;
    while c < k
        invariant
            c <= k,
            counts@.len() == c,
            forall|j: int| 0 <= j < c ==> counts@[j] == 0,
        decreases k - c,
    {
        counts.push(0);
        c += 1;
    }
    let n = assignment.len();
    let mut i: usize = 0;
    while i < n
        invariant
            i <= n,
            n == assignment@.len(),
            counts@.len() == k,
            forall|idx: int| 0 <= idx < n ==> (assignment@[idx] as int) < k,
            forall|cc: int| 0 <= cc < k ==> counts@[cc] == count_of(assignment@.take(i as int), cc),
        decreases n - i,
    {
        let a = assignment[i] as usize;
        proof {
            lemma_count_le_len(assignment@.take(i as int), a as int);
        }
        let cur = counts[a];
        counts.set(a, cur + 1);
        proof {
            let prefix = assignment@.take(i as int);
            let x = assignment@[i as int];
            assert(prefix.push(x) =~= assignment@.take(i as int + 1));
            assert forall|cc: int| 0 <= cc < k implies counts@[cc] == count_of(
                assignment@.take(i as int + 1),
                cc,
            ) by {
                lemma_count_push(prefix, x, cc);
            }
        }
        i += 1;
    }
    proof {
        assert(assignment@.take(n as int) =~= assignment@);
    }
    counts
}

} // verus!
