//! Weighted total-PP aggregation.
//!
//! A player's total is the sum of their score PP values, sorted in
//! descending order, truncated to the top hundred entries, and discounted
//! geometrically by rank: the entry at rank `i` counts with factor
//! `0.95^i`.
//!
//! PP values are carried as unsigned integers in hundredths of a point.
//! The decay factor is carried in fixed point: the weight of rank 0 is
//! [`WEIGHT_SCALE`], and each following weight is its predecessor times
//! 95, divided by 100, rounded down. A weighted total is therefore scaled
//! by [`WEIGHT_SCALE`]; dividing by it recovers hundredths of a point.

use vstd::prelude::*;
use vstd::arithmetic::mul::{
    lemma_mul_inequality, lemma_mul_is_distributive_sub, lemma_mul_nonnegative,
    lemma_mul_upper_bound,
};
use vstd::arithmetic::div_mod::{
    lemma_div_is_ordered, lemma_div_multiples_vanish, lemma_div_pos_is_pos,
};

verus! {

/// Fixed-point scale of the per-rank decay weights: the weight of rank 0.
pub const WEIGHT_SCALE: u64 = 1_000_000_000_000;

/// The decay weight of rank `i`: `WEIGHT_SCALE * 0.95^i`, rounded down at
/// every step.
pub open spec fn weight(i: int) -> int
    decreases i,
{
    if i <= 0 {
        WEIGHT_SCALE as int
    } else {
        weight(i - 1) * 95 / 100
    }
}

/// Every weight lies between 0 and the scale.
pub proof fn lemma_weight_bounds(i: int)
    ensures
        0 <= weight(i) <= WEIGHT_SCALE,
    decreases i,
{
    if i <= 0 {
    } else {
        lemma_weight_bounds(i - 1);
        let w = weight(i - 1);
        lemma_mul_nonnegative(w, 95);
        lemma_div_pos_is_pos(w * 95, 100);
        lemma_mul_upper_bound(w, WEIGHT_SCALE as int, 95, 100);
        lemma_div_is_ordered(w * 95, WEIGHT_SCALE as int * 100, 100);
        lemma_div_multiples_vanish(WEIGHT_SCALE as int, 100);
        assert(WEIGHT_SCALE as int * 100 == 100 * WEIGHT_SCALE as int);
    }
}

/// Weights never increase with rank.
pub proof fn lemma_weight_mono(i: int)
    requires
        i >= 0,
    ensures
        weight(i + 1) <= weight(i),
{
    lemma_weight_bounds(i);
    let w = weight(i);
    lemma_mul_upper_bound(w, w, 95, 100);
    lemma_div_is_ordered(w * 95, w * 100, 100);
    lemma_div_multiples_vanish(w, 100);
    assert(w * 100 == 100 * w);
}

/// The weighted sum of a sequence whose first element stands at rank `k`:
/// ranks at and beyond 100 contribute nothing.
pub open spec fn wsum_at(s: Seq<u64>, k: int) -> int
    decreases s.len(),
{
    if s.len() == 0 || k >= 100 {
        0
    } else {
        s[0] * weight(k) + wsum_at(s.drop_first(), k + 1)
    }
}

/// A weighted sum is never negative.
pub proof fn lemma_wsum_nonneg(s: Seq<u64>, k: int)
    requires
        k >= 0,
    ensures
        wsum_at(s, k) >= 0,
    decreases s.len(),
{
    if s.len() == 0 || k >= 100 {
    } else {
        lemma_weight_bounds(k);
        lemma_mul_nonnegative(s[0] as int, weight(k));
        lemma_wsum_nonneg(s.drop_first(), k + 1);
    }
}

/// A weighted sum of ranks `k..100` is at most `100 - k` maximal terms.
pub proof fn lemma_wsum_upper(s: Seq<u64>, k: int)
    requires
        0 <= k <= 100,
    ensures
        wsum_at(s, k) <= (100 - k) * (u64::MAX as int * WEIGHT_SCALE as int),
    decreases s.len(),
{
    if s.len() == 0 || k >= 100 {
        assert((100 - k) * (u64::MAX as int * WEIGHT_SCALE as int) >= 0) by {
            lemma_mul_nonnegative(100 - k, u64::MAX as int * WEIGHT_SCALE as int);
        }
    } else {
        lemma_weight_bounds(k);
        lemma_mul_upper_bound(s[0] as int, u64::MAX as int, weight(k), WEIGHT_SCALE as int);
        lemma_wsum_upper(s.drop_first(), k + 1);
        assert((100 - k) * (u64::MAX as int * WEIGHT_SCALE as int) == u64::MAX as int
            * WEIGHT_SCALE as int + (100 - (k + 1)) * (u64::MAX as int * WEIGHT_SCALE as int)) by {
            lemma_mul_is_distributive_sub(u64::MAX as int * WEIGHT_SCALE as int, 100 - k, 99 - k);
        }
    }
}

/// The sequence is in descending order (ties allowed).
pub open spec fn sorted_desc(s: Seq<u64>) -> bool {
    forall|i: int, j: int| 0 <= i < j < s.len() ==> s[i] >= s[j]
}

/// Insertion of `v` into a descending sequence, in front of the first
/// element smaller than it.
pub open spec fn insert_desc(s: Seq<u64>, v: u64) -> Seq<u64>
    decreases s.len(),
{
    if s.len() == 0 {
        seq![v]
    } else if s[0] >= v {
        seq![s[0]] + insert_desc(s.drop_first(), v)
    } else {
        seq![v] + s
    }
}

/// The position `insert_desc` puts `v` at: the number of leading elements
/// not smaller than `v`.
pub open spec fn insert_pos(s: Seq<u64>, v: u64) -> int
    decreases s.len(),
{
    if s.len() == 0 || s[0] < v {
        0
    } else {
        1 + insert_pos(s.drop_first(), v)
    }
}

/// `insert_desc` splits the sequence at `insert_pos` and puts `v` between
/// the halves.
pub proof fn lemma_insert_desc_shape(s: Seq<u64>, v: u64)
    ensures
        0 <= insert_pos(s, v) <= s.len(),
        forall|k: int| 0 <= k < insert_pos(s, v) ==> s[k] >= v,
        insert_pos(s, v) < s.len() ==> s[insert_pos(s, v)] < v,
        insert_desc(s, v) == s.take(insert_pos(s, v)) + seq![v] + s.skip(insert_pos(s, v)),
    decreases s.len(),
{
    let p = insert_pos(s, v);
    if s.len() == 0 || s[0] < v {
        assert(insert_desc(s, v) =~= s.take(0) + seq![v] + s.skip(0));
    } else {
        let d = s.drop_first();
        lemma_insert_desc_shape(d, v);
        let q = insert_pos(d, v);
        assert(forall|k: int| 0 <= k < p ==> s[k] >= v) by {
            assert(forall|k: int| 1 <= k < p ==> s[k] == d[k - 1]);
        }
        assert(insert_desc(s, v) =~= s.take(p) + seq![v] + s.skip(p)) by {
            assert(insert_desc(s, v) == seq![s[0]] + (d.take(q) + seq![v] + d.skip(q)));
            assert(forall|k: int| 0 <= k < q ==> d.take(q)[k] == s[k + 1]);
        }
    }
}

/// Inserting into a descending sequence keeps it descending.
pub proof fn lemma_insert_desc_sorted(s: Seq<u64>, v: u64)
    requires
        sorted_desc(s),
    ensures
        sorted_desc(insert_desc(s, v)),
        insert_desc(s, v).len() == s.len() + 1,
{
    lemma_insert_desc_shape(s, v);
    let p = insert_pos(s, v);
    let r = insert_desc(s, v);
    assert forall|i: int, j: int| 0 <= i < j < r.len() implies r[i] >= r[j] by {
        if i < p {
            assert(r[i] == s[i]);
        } else if i == p {
            assert(r[i] == v);
        } else {
            assert(r[i] == s[i - 1]);
        }
        if j < p {
            assert(r[j] == s[j]);
        } else if j == p {
            assert(r[j] == v);
        } else {
            assert(r[j] == s[j - 1]);
        }
    }
}

/// Inserting adds exactly one occurrence of `v` to the sequence's contents.
pub proof fn lemma_insert_desc_multiset(s: Seq<u64>, v: u64)
    ensures
        insert_desc(s, v).to_multiset() == s.to_multiset().insert(v),
{
    broadcast use vstd::seq_lib::group_to_multiset_ensures;

    lemma_insert_desc_shape(s, v);
    let p = insert_pos(s, v);
    assert(insert_desc(s, v) =~= s.insert(p, v));
    assert(s.insert(p, v).to_multiset() =~= s.to_multiset().insert(v));
}

/// The descending sort of a sequence, by repeated insertion.
pub open spec fn sort_desc(s: Seq<u64>) -> Seq<u64>
    decreases s.len(),
{
    if s.len() == 0 {
        Seq::empty()
    } else {
        insert_desc(sort_desc(s.drop_last()), s.last())
    }
}

/// The sort is descending, keeps the length, and keeps the contents.
pub proof fn lemma_sort_desc_ensures(s: Seq<u64>)
    ensures
        sorted_desc(sort_desc(s)),
        sort_desc(s).len() == s.len(),
        sort_desc(s).to_multiset() == s.to_multiset(),
    decreases s.len(),
{
    broadcast use vstd::seq_lib::group_to_multiset_ensures;

    if s.len() == 0 {
        assert(sort_desc(s).to_multiset() =~= s.to_multiset());
    } else {
        let d = s.drop_last();
        lemma_sort_desc_ensures(d);
        lemma_insert_desc_sorted(sort_desc(d), s.last());
        lemma_insert_desc_multiset(sort_desc(d), s.last());
        assert(d.push(s.last()) =~= s);
        assert(s.to_multiset() == d.push(s.last()).to_multiset());
        assert(d.push(s.last()).to_multiset() =~= d.to_multiset().insert(s.last()));
    }
}

/// Sorting a sequence that is already descending leaves it unchanged.
pub proof fn lemma_sort_desc_of_sorted(s: Seq<u64>)
    requires
        sorted_desc(s),
    ensures
        sort_desc(s) == s,
    decreases s.len(),
{
    if s.len() == 0 {
        assert(sort_desc(s) =~= s);
    } else {
        let d = s.drop_last();
        assert(sorted_desc(d));
        lemma_sort_desc_of_sorted(d);
        lemma_insert_desc_shape(d, s.last());
        let p = insert_pos(d, s.last());
        assert(forall|k: int| 0 <= k < d.len() ==> d[k] >= s.last());
        assert(p == d.len());
        assert(insert_desc(d, s.last()) =~= s) by {
            assert(d.take(p) =~= d);
            assert(d.skip(p) =~= Seq::<u64>::empty());
        }
    }
}

/// Sorting after a push is insertion into the sorted sequence.
pub proof fn lemma_sort_desc_push(s: Seq<u64>, v: u64)
    ensures
        sort_desc(s.push(v)) == insert_desc(sort_desc(s), v),
{
    assert(s.push(v).drop_last() =~= s);
    assert(s.push(v).last() == v);
}

/// The weighted total of an unordered collection of PP values, scaled by
/// [`WEIGHT_SCALE`]: the values are sorted in descending order, the top
/// hundred are kept, and rank `i` is discounted by `0.95^i`.
pub open spec fn weighted_total_spec(s: Seq<u64>) -> int {
    wsum_at(sort_desc(s), 0)
}

/// Rank-wise domination carries over to the weighted sums: if `a` is at
/// least `b` at every rank of `b` (and at least as long), its sum is at
/// least as large.
pub proof fn lemma_wsum_pointwise(a: Seq<u64>, b: Seq<u64>, k: int)
    requires
        k >= 0,
        b.len() <= a.len(),
        forall|i: int| 0 <= i < b.len() ==> a[i] >= b[i],
    ensures
        wsum_at(a, k) >= wsum_at(b, k),
    decreases b.len(),
{
    if b.len() == 0 || k >= 100 {
        lemma_wsum_nonneg(a, k);
    } else {
        lemma_weight_bounds(k);
        lemma_mul_inequality(b[0] as int, a[0] as int, weight(k));
        assert(forall|i: int|
            0 <= i < b.drop_first().len() ==> a.drop_first()[i] >= b.drop_first()[i]);
        lemma_wsum_pointwise(a.drop_first(), b.drop_first(), k + 1);
    }
}

/// Shifting every rank down by one costs at most one maximal term: the
/// difference between the sum at rank `k` and the same values at rank
/// `k + 1` is bounded by `bound * weight(k)`.
pub proof fn lemma_wsum_shift(t: Seq<u64>, k: int, bound: u64)
    requires
        k >= 0,
        forall|i: int| 0 <= i < t.len() ==> t[i] <= bound,
    ensures
        wsum_at(t, k) - wsum_at(t, k + 1) <= bound * weight(k),
    decreases t.len(),
{
    lemma_weight_bounds(k);
    if t.len() == 0 || k >= 100 {
        lemma_mul_nonnegative(bound as int, weight(k));
    } else if k + 1 == 100 {
        lemma_wsum_nonneg(t.drop_first(), k + 1);
        lemma_mul_inequality(t[0] as int, bound as int, weight(k));
        assert(wsum_at(t, k + 1) == 0);
        assert(wsum_at(t.drop_first(), k + 1) == 0);
    } else {
        let d = t.drop_first();
        lemma_wsum_shift(d, k + 1, bound);
        lemma_weight_mono(k);
        lemma_weight_bounds(k + 1);
        // wsum_at(t, k) - wsum_at(t, k+1)
        //   == t[0] * (weight(k) - weight(k+1)) + (wsum_at(d, k+1) - wsum_at(d, k+2))
        lemma_mul_is_distributive_sub(t[0] as int, weight(k), weight(k + 1));
        lemma_mul_inequality(t[0] as int, bound as int, weight(k) - weight(k + 1));
        lemma_mul_is_distributive_sub(bound as int, weight(k), weight(k + 1));
    }
}

/// Two sequences that agree on their first hundred entries have the same
/// weighted sum.
pub proof fn lemma_wsum_agree(a: Seq<u64>, b: Seq<u64>, k: int)
    requires
        0 <= k <= 100,
        a.len() >= 100 - k,
        b.len() >= 100 - k,
        forall|i: int| 0 <= i < 100 - k ==> a[i] == b[i],
    ensures
        wsum_at(a, k) == wsum_at(b, k),
    decreases 100 - k,
{
    if k == 100 {
    } else {
        assert(forall|i: int|
            0 <= i < 100 - (k + 1) ==> a.drop_first()[i] == b.drop_first()[i]);
        lemma_wsum_agree(a.drop_first(), b.drop_first(), k + 1);
    }
}

/// Law: the weighted total looks at nothing beyond the top hundred
/// entries — two sequences that agree there have the same sum.
pub proof fn lemma_top_hundred_only(a: Seq<u64>, b: Seq<u64>)
    requires
        a.len() >= 100,
        b.len() >= 100,
        a.take(100) == b.take(100),
    ensures
        wsum_at(a, 0) == wsum_at(b, 0),
{
    assert(forall|i: int| 0 <= i < 100 ==> a[i] == a.take(100)[i] && b[i] == b.take(100)[i]);
    lemma_wsum_agree(a, b, 0);
}

/// Law: a value that would rank at or beyond position 100 does not change
/// the weighted total.
pub proof fn lemma_beyond_top_hundred(s: Seq<u64>, v: u64)
    requires
        s.len() >= 100,
        v <= sort_desc(s)[99],
    ensures
        weighted_total_spec(s.push(v)) == weighted_total_spec(s),
{
    let t = sort_desc(s);
    lemma_sort_desc_ensures(s);
    lemma_sort_desc_push(s, v);
    lemma_insert_desc_shape(t, v);
    let p = insert_pos(t, v);
    assert(p >= 100) by {
        if p < 100 {
            assert(t[p] >= t[99]);
        }
    }
    let r = insert_desc(t, v);
    assert(forall|i: int| 0 <= i < 100 ==> r[i] == t[i]);
    lemma_wsum_agree(r, t, 0);
}

/// Law: inserting a value never lowers the weighted total.
pub proof fn lemma_insert_never_decreases(s: Seq<u64>, v: u64)
    ensures
        weighted_total_spec(s.push(v)) >= weighted_total_spec(s),
{
    let t = sort_desc(s);
    lemma_sort_desc_ensures(s);
    lemma_sort_desc_push(s, v);
    lemma_insert_desc_shape(t, v);
    let p = insert_pos(t, v);
    let r = insert_desc(t, v);
    assert(forall|i: int| 0 <= i < t.len() ==> r[i] >= t[i]) by {
        assert(forall|i: int| 0 <= i < p ==> r[i] == t[i]);
        assert(p < t.len() ==> r[p] == v && t[p] < v);
        assert(forall|i: int| p < i < t.len() ==> r[i] == t[i - 1] && t[i - 1] >= t[i]);
    }
    lemma_wsum_pointwise(r, t, 0);
}

/// Law: inserting a value strictly above the current maximum raises the
/// weighted total — by at least one full-weight unit of the scale.
pub proof fn lemma_gain_positive(s: Seq<u64>, v: u64)
    requires
        s.len() > 0,
        forall|i: int| 0 <= i < s.len() ==> s[i] < v,
    ensures
        weighted_total_spec(s.push(v)) > weighted_total_spec(s),
{
    broadcast use vstd::seq_lib::group_to_multiset_ensures;

    let t = sort_desc(s);
    lemma_sort_desc_ensures(s);
    assert(forall|i: int| 0 <= i < t.len() ==> t[i] < v) by {
        assert forall|i: int| 0 <= i < t.len() implies t[i] < v by {
            assert(t.contains(t[i]));
            assert(t.to_multiset().count(t[i]) > 0);
            assert(s.contains(t[i]));
        }
    }
    lemma_sort_desc_push(s, v);
    lemma_insert_desc_shape(t, v);
    assert(insert_pos(t, v) == 0) by {
        if insert_pos(t, v) > 0 {
            assert(t[0] >= v);
        }
    }
    let r = insert_desc(t, v);
    assert(r =~= seq![v] + t);
    assert(r.drop_first() =~= t);
    assert(wsum_at(r, 0) == v * weight(0) + wsum_at(t, 1));
    assert(v >= 1);
    lemma_wsum_shift(t, 0, (v - 1) as u64);
    assert((v - 1) * weight(0) == v * weight(0) - weight(0)) by {
        lemma_mul_is_distributive_sub(weight(0), v as int, v as int - 1);
        assert(weight(0) * (v as int) == v * weight(0));
        assert(weight(0) * (v as int - 1) == (v - 1) * weight(0));
    }
}

/// Law: inserting a zero value leaves the weighted total unchanged.
pub proof fn lemma_insert_zero(s: Seq<u64>)
    ensures
        weighted_total_spec(s.push(0)) == weighted_total_spec(s),
{
    let t = sort_desc(s);
    lemma_sort_desc_ensures(s);
    lemma_sort_desc_push(s, 0);
    lemma_insert_desc_shape(t, 0);
    let p = insert_pos(t, 0);
    assert(p == t.len()) by {
        if p < t.len() {
            assert(t[p] < 0);
        }
    }
    assert(insert_desc(t, 0) =~= t + seq![0u64]) by {
        assert(t.take(p) =~= t);
        assert(t.skip(p) =~= Seq::<u64>::empty());
    }
    lemma_wsum_append_zero(t, 0);
}

/// Appending a zero-valued entry contributes nothing at any rank.
proof fn lemma_wsum_append_zero(t: Seq<u64>, k: int)
    requires
        k >= 0,
    ensures
        wsum_at(t + seq![0u64], k) == wsum_at(t, k),
    decreases t.len(),
{
    let r = t + seq![0u64];
    if k >= 100 {
    } else if t.len() == 0 {
        assert(r =~= seq![0u64]);
        assert(wsum_at(r, k) == 0 * weight(k) + wsum_at(r.drop_first(), k + 1));
        assert(r.drop_first() =~= Seq::<u64>::empty());
    } else {
        assert(r.drop_first() =~= t.drop_first() + seq![0u64]);
        lemma_wsum_append_zero(t.drop_first(), k + 1);
    }
}

/// Law: lowering one entry of a descending sequence, without changing its
/// rank, never raises the weighted total.
pub proof fn lemma_weighting_monotone(s: Seq<u64>, j: int, y: u64)
    requires
        sorted_desc(s),
        0 <= j < s.len(),
        y <= s[j],
        j + 1 < s.len() ==> s[j + 1] <= y,
    ensures
        sorted_desc(s.update(j, y)),
        weighted_total_spec(s.update(j, y)) <= weighted_total_spec(s),
{
    let u = s.update(j, y);
    assert forall|i: int, k: int| 0 <= i < k < u.len() implies u[i] >= u[k] by {
        if i == j {
            assert(s[k] <= s[j + 1]);
        } else if k == j {
            assert(s[i] >= s[j]);
        }
    }
    lemma_sort_desc_of_sorted(s);
    lemma_sort_desc_of_sorted(u);
    assert(forall|i: int| 0 <= i < u.len() ==> s[i] >= u[i]);
    lemma_wsum_pointwise(s, u, 0);
}

/// Inserts `x` into a vector that is sorted in descending order, keeping
/// the order.
fn insert_sorted(v: &mut Vec<u64>, x: u64)
    requires
        sorted_desc(old(v)@),
    ensures
        final(v)@ == insert_desc(old(v)@, x),
{
    proof {
        lemma_insert_desc_shape(old(v)@, x);
    }
    let mut pos: usize = 0;
    while pos < v.len() && v[pos] >= x
        invariant
            0 <= pos <= v.len(),
            v@ == old(v)@,
            forall|k: int| 0 <= k < pos ==> v@[k] >= x,
        decreases v.len() - pos,
    {
        pos = pos + 1;
    }
    proof {
        assert(pos as int == insert_pos(v@, x)) by {
            let p = insert_pos(v@, x);
            if p < pos {
                assert(v@[p] >= x);
            }
            if pos < p {
                assert(v@[pos as int] >= x);
            }
        }
    }
    v.insert(pos, x);
    proof {
        assert(v@ =~= old(v)@.take(pos as int) + seq![x] + old(v)@.skip(pos as int));
    }
}

/// Returns the values sorted in descending order.
pub fn sort_desc_vec(values: &Vec<u64>) -> (out: Vec<u64>)
    ensures
        out@ == sort_desc(values@),
        sorted_desc(out@),
        out@.to_multiset() == values@.to_multiset(),
{
    let mut out: Vec<u64> = Vec::new();
    let mut i: usize = 0;
    proof {
        assert(values@.take(0) =~= Seq::<u64>::empty());
    }
    while i < values.len()
        invariant
            0 <= i <= values@.len(),
            out@ == sort_desc(values@.take(i as int)),
            sorted_desc(out@),
        decreases values@.len() - i,
    {
        proof {
            assert(values@.take(i + 1).drop_last() =~= values@.take(i as int));
            assert(values@.take(i + 1).last() == values@[i as int]);
        }
        insert_sorted(&mut out, values[i]);
        i = i + 1;
        proof {
            lemma_sort_desc_ensures(values@.take(i as int));
        }
    }
    proof {
        assert(values@.take(values@.len() as int) =~= values@);
        lemma_sort_desc_ensures(values@);
    }
    out
}

/// Computes the weighted total of an unordered collection of PP values
/// (hundredths of a point), scaled by [`WEIGHT_SCALE`]: descending order,
/// top hundred, geometric decay of 0.95 per rank.
pub fn weighted_total(pps: &Vec<u64>) -> (total: u128)
    ensures
        total as int == weighted_total_spec(pps@),
{
    let sorted = sort_desc_vec(pps);
    let ghost t = sorted@;
    let n = if sorted.len() < 100 { sorted.len() } else { 100 };
    let mut total: u128 = 0;
    let mut w: u64 = WEIGHT_SCALE;
    let mut i: usize = 0;
    proof {
        assert(t.skip(0) =~= t);
        lemma_wsum_nonneg(t, 0);
        lemma_wsum_upper(t, 0);
    }
    while i < n
        invariant
            0 <= i <= n,
            n == if t.len() < 100 { t.len() as int } else { 100int },
            sorted@ == t,
            w as int == weight(i as int),
            total as int == wsum_at(t, 0) - wsum_at(t.skip(i as int), i as int),
            wsum_at(t, 0) <= 100 * (u64::MAX as int * WEIGHT_SCALE as int),
            wsum_at(t.skip(i as int), i as int) >= 0,
        decreases n - i,
    {
        proof {
            lemma_weight_bounds(i as int);
            assert(t.skip(i as int).drop_first() =~= t.skip(i + 1));
            assert(wsum_at(t.skip(i as int), i as int) == t[i as int] * weight(i as int)
                + wsum_at(t.skip(i + 1), i + 1));
            lemma_wsum_nonneg(t.skip(i + 1), i + 1);
            lemma_mul_upper_bound(t[i as int] as int, u64::MAX as int, weight(i as int),
                WEIGHT_SCALE as int);
            lemma_mul_nonnegative(t[i as int] as int, weight(i as int));
        }
        total = total + (sorted[i] as u128) * (w as u128);
        w = w * 95 / 100;
        i = i + 1;
    }
    proof {
        if t.len() < 100 {
            assert(t.skip(t.len() as int) =~= Seq::<u64>::empty());
        }
        assert(wsum_at(t.skip(n as int), n as int) == 0);
    }
    total
}

/// The outcome of inserting a hypothetical play into a score list: the
/// recomputed current total, the total with the new play inserted, and
/// their difference. All three are scaled by [`WEIGHT_SCALE`].
#[derive(Clone, Copy, Debug, PartialEq, Eq, Structural)]
pub struct GainProjection {
    /// Weighted total of the historical values alone.
    pub old_total: u128,
    /// Weighted total with the new value inserted.
    pub new_total: u128,
    /// `new_total - old_total`; never negative.
    pub gain: u128,
}

/// Computes the weighted total before and after inserting a new play's PP
/// value into the history, and the gain between the two.
pub fn project_gain(history: &Vec<u64>, new_pp: u64) -> (g: GainProjection)
    ensures
        g.old_total as int == weighted_total_spec(history@),
        g.new_total as int == weighted_total_spec(history@.push(new_pp)),
        g.new_total >= g.old_total,
        g.gain as int == g.new_total - g.old_total,
{
    let old_total = weighted_total(history);
    let mut with_new: Vec<u64> = Vec::new();
    let mut i: usize = 0;
    while i < history.len()
        invariant
            0 <= i <= history@.len(),
            with_new@ == history@.take(i as int),
        decreases history@.len() - i,
    {
        with_new.push(history[i]);
        proof {
            assert(history@.take(i as int).push(history@[i as int]) =~= history@.take(i + 1));
        }
        i = i + 1;
    }
    proof {
        assert(history@.take(history@.len() as int) =~= history@);
    }
    with_new.push(new_pp);
    let new_total = weighted_total(&with_new);
    proof {
        lemma_insert_never_decreases(history@, new_pp);
    }
    GainProjection { old_total, new_total, gain: new_total - old_total }
}

/// Drops the absent entries of a score list, keeping the present PP
/// values in their order.
pub open spec fn present_values(s: Seq<Option<u64>>) -> Seq<u64>
    decreases s.len(),
{
    if s.len() == 0 {
        Seq::empty()
    } else {
        match s.last() {
            Some(v) => present_values(s.drop_last()).push(v),
            None => present_values(s.drop_last()),
        }
    }
}

/// Filters a score list down to the PP values that are present: scores
/// without a PP value are dropped before aggregation.
pub fn collect_present(scores: &Vec<Option<u64>>) -> (out: Vec<u64>)
    ensures
        out@ == present_values(scores@),
{
    let mut out: Vec<u64> = Vec::new();
    let mut i: usize = 0;
    proof {
        assert(scores@.take(0) =~= Seq::<Option<u64>>::empty());
    }
    while i < scores.len()
        invariant
            0 <= i <= scores@.len(),
            out@ == present_values(scores@.take(i as int)),
        decreases scores@.len() - i,
    {
        proof {
            assert(scores@.take(i + 1).drop_last() =~= scores@.take(i as int));
            assert(scores@.take(i + 1).last() == scores@[i as int]);
        }
        if let Some(v) = scores[i] {
            out.push(v);
        }
        i = i + 1;
    }
    proof {
        assert(scores@.take(scores@.len() as int) =~= scores@);
    }
    out
}

} // verus!
