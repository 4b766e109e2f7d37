use vstd::prelude::*;
use vstd::relations::sorted_by;
use vstd::seq_lib::lemma_sorted_unique;

verus! {

/// Ascending order on durations.
pub open spec fn ascending(a: u128, b: u128) -> bool {
    a <= b
}

/// Ascending order on durations, as a relation.
pub open spec fn ascending_rel() -> spec_fn(u128, u128) -> bool {
    |a: u128, b: u128| ascending(a, b)
}

/// The durations of `s` in ascending order.
pub open spec fn sorted_of(s: Seq<u128>) -> Seq<u128> {
    s.sort_by(ascending_rel())
}

/// Nearest-rank index of the `per_cent`-th percentile in a sorted sequence of `len`
/// elements: `round(per_cent / 100 * (len - 1))`, halves rounded up.
pub open spec fn rank_index(per_cent: nat, len: nat) -> int
    recommends
        len > 0,
{
    ((per_cent * (len - 1) + 50) / 100) as int
}

/// Nearest-rank percentile of `s`, zero for an empty sequence.
pub open spec fn percentile_of(s: Seq<u128>, per_cent: nat) -> u128 {
    if s.len() == 0 {
        0
    } else {
        sorted_of(s)[rank_index(per_cent, s.len())]
    }
}

/// The seven nearest-rank percentiles of a set of durations.
#[derive(Debug, Clone, Copy, PartialEq, Eq, Structural)]
pub struct Percentiles {
    pub p10: u128,
    pub p25: u128,
    pub p50: u128,
    pub p75: u128,
    pub p90: u128,
    pub p95: u128,
    pub p99: u128,
}

impl Percentiles {
    /// The percentile ladder of `s`.
    pub open spec fn ladder_of(self, s: Seq<u128>) -> bool {
        &&& self.p10 == percentile_of(s, 10)
        &&& self.p25 == percentile_of(s, 25)
        &&& self.p50 == percentile_of(s, 50)
        &&& self.p75 == percentile_of(s, 75)
        &&& self.p90 == percentile_of(s, 90)
        &&& self.p95 == percentile_of(s, 95)
        &&& self.p99 == percentile_of(s, 99)
    }

    /// Each percentile is at most the next one.
    pub open spec fn is_monotone(self) -> bool {
        self.p10 <= self.p25 && self.p25 <= self.p50 && self.p50 <= self.p75 && self.p75
            <= self.p90 && self.p90 <= self.p95 && self.p95 <= self.p99
    }
}

/// Relies on `slice::sort`: the elements stay the same and end up in ascending order.
#[verifier::external_body]
fn sort_ascending(v: &mut Vec<u128>)
    ensures
        final(v)@.to_multiset() == old(v)@.to_multiset(),
        sorted_by(final(v)@, ascending_rel()),
{
    v.sort();
}

/// A sequence in ascending order with the elements of `s` is the sorted form of `s`.
pub proof fn lemma_sorted_is_sorted_of(s: Seq<u128>, t: Seq<u128>)
    requires
        t.to_multiset() == s.to_multiset(),
        sorted_by(t, ascending_rel()),
    ensures
        t == sorted_of(s),
        t.len() == s.len(),
{
    broadcast use vstd::seq_lib::group_to_multiset_ensures;

    let leq = ascending_rel();
    s.lemma_sort_by_ensures(leq);
    lemma_sorted_unique(t, s.sort_by(leq), leq);
    assert(t.to_multiset().len() == t.len());
}

/// Sorts `data` into ascending order.
pub fn sort_durations(data: &mut Vec<u128>)
    ensures
        final(data)@ == sorted_of(old(data)@),
        final(data)@.len() == old(data)@.len(),
{
    sort_ascending(data);
    proof {
        lemma_sorted_is_sorted_of(old(data)@, data@);
    }
}


/// The two middle elements of the sorted form of `s`; the median is their midpoint.
/// Both are the middle element when the length is odd, and both are zero when `s` is empty.
#[derive(Debug, Clone, Copy, PartialEq, Eq, Structural)]
pub struct Median {
    pub lower: u128,
    pub upper: u128,
}

/// Lower middle element of `s` in ascending order, zero when empty.
pub open spec fn median_lower_of(s: Seq<u128>) -> u128 {
    if s.len() == 0 {
        0
    } else if s.len() % 2 == 1 {
        sorted_of(s)[(s.len() / 2) as int]
    } else {
        sorted_of(s)[s.len() / 2 - 1]
    }
}

/// Upper middle element of `s` in ascending order, zero when empty.
pub open spec fn median_upper_of(s: Seq<u128>) -> u128 {
    if s.len() == 0 {
        0
    } else {
        sorted_of(s)[(s.len() / 2) as int]
    }
}

/// Smallest element of `s`, zero when empty.
pub open spec fn min_of(s: Seq<u128>) -> u128 {
    if s.len() == 0 {
        0
    } else {
        sorted_of(s)[0]
    }
}

/// Largest element of `s`, zero when empty.
pub open spec fn max_of(s: Seq<u128>) -> u128 {
    if s.len() == 0 {
        0
    } else {
        sorted_of(s)[s.len() - 1]
    }
}

proof fn lemma_rank_index_bounds(per_cent: nat, len: nat)
    requires
        per_cent <= 100,
        len > 0,
    ensures
        0 <= rank_index(per_cent, len) < len,
{
    assert(per_cent * (len - 1) <= 100 * (len - 1)) by (nonlinear_arith)
        requires
            per_cent <= 100,
            len > 0,
    ;
}

proof fn lemma_rank_index_monotone(a: nat, b: nat, len: nat)
    requires
        a <= b,
        len > 0,
    ensures
        rank_index(a, len) <= rank_index(b, len),
{
    assert(a * (len - 1) <= b * (len - 1)) by (nonlinear_arith)
        requires
            a <= b,
            len > 0,
    ;
    assert((a * (len - 1) + 50) / 100 <= (b * (len - 1) + 50) / 100) by (nonlinear_arith)
        requires
            a * (len - 1) <= b * (len - 1),
    ;
}

/// The sorted form of `s` is ascending and as long as `s`.
pub proof fn lemma_sorted_of(s: Seq<u128>)
    ensures
        sorted_of(s).len() == s.len(),
        sorted_of(s).to_multiset() == s.to_multiset(),
        sorted_by(sorted_of(s), ascending_rel()),
{
    broadcast use vstd::seq_lib::group_to_multiset_ensures;

    let leq = ascending_rel();
    s.lemma_sort_by_ensures(leq);
    assert(sorted_of(s).to_multiset().len() == sorted_of(s).len());
}

/// A higher percentile is never below a lower one.
pub proof fn lemma_percentile_monotone(s: Seq<u128>, a: nat, b: nat)
    requires
        a <= b <= 100,
    ensures
        percentile_of(s, a) <= percentile_of(s, b),
{
    if s.len() > 0 {
        lemma_sorted_of(s);
        lemma_rank_index_bounds(a, s.len());
        lemma_rank_index_bounds(b, s.len());
        lemma_rank_index_monotone(a, b, s.len());
        let i = rank_index(a, s.len());
        let j = rank_index(b, s.len());
        if i < j {
            assert(ascending_rel()(sorted_of(s)[i], sorted_of(s)[j]));
        }
    }
}

/// The percentile ladder of every sequence of durations rises from the 10th to the 99th.
pub proof fn lemma_ladder_monotone(s: Seq<u128>, r: Percentiles)
    requires
        r.ladder_of(s),
    ensures
        r.is_monotone(),
{
    lemma_percentile_monotone(s, 10, 25);
    lemma_percentile_monotone(s, 25, 50);
    lemma_percentile_monotone(s, 50, 75);
    lemma_percentile_monotone(s, 75, 90);
    lemma_percentile_monotone(s, 90, 95);
    lemma_percentile_monotone(s, 95, 99);
}

/// Every percentile of an empty sequence is zero.
pub proof fn lemma_empty_ladder(r: Percentiles)
    requires
        r.ladder_of(Seq::empty()),
    ensures
        r == (Percentiles { p10: 0, p25: 0, p50: 0, p75: 0, p90: 0, p95: 0, p99: 0 }),
{
}

/// Every percentile of a one-element sequence is that element.
pub proof fn lemma_single_ladder(x: u128, r: Percentiles)
    requires
        r.ladder_of(seq![x]),
    ensures
        r == (Percentiles { p10: x, p25: x, p50: x, p75: x, p90: x, p95: x, p99: x }),
{
    broadcast use vstd::seq_lib::group_to_multiset_ensures;

    let s = seq![x];
    lemma_sorted_of(s);
    let t = sorted_of(s);
    assert(t.contains(t[0]));
    assert(t.to_multiset().count(t[0]) > 0);
    assert(s.to_multiset().count(t[0]) > 0);
    assert(s.contains(t[0]));
    let k = choose|k: int| 0 <= k < s.len() && s[k] == t[0];
    assert(s[k] == x);
}

/// The element at the `per_cent`-th nearest rank of an ascending vector.
fn pick_rank(sorted: &Vec<u128>, per_cent: u64) -> (r: u128)
    requires
        sorted@.len() > 0,
        per_cent <= 100,
    ensures
        r == sorted@[rank_index(per_cent as nat, sorted@.len())],
{
    let len = sorted.len();
    proof {
        lemma_rank_index_bounds(per_cent as nat, len as nat);
        assert(per_cent * (len - 1) <= 100 * (len - 1)) by (nonlinear_arith)
            requires
                per_cent <= 100,
                len > 0,
        ;
    }
    let idx = ((per_cent as u128) * ((len - 1) as u128) + 50) / 100;
    sorted[idx as usize]
}

/// The seven percentiles read off a vector already in ascending order.
pub(crate) fn ladder_from_sorted(sorted: &Vec<u128>, Ghost(s): Ghost<Seq<u128>>) -> (r: Percentiles)
    requires
        sorted@ == sorted_of(s),
        sorted@.len() == s.len(),
    ensures
        r.ladder_of(s),
{
    if sorted.len() == 0 {
        Percentiles { p10: 0, p25: 0, p50: 0, p75: 0, p90: 0, p95: 0, p99: 0 }
    } else {
        Percentiles {
            p10: pick_rank(sorted, 10),
            p25: pick_rank(sorted, 25),
            p50: pick_rank(sorted, 50),
            p75: pick_rank(sorted, 75),
            p90: pick_rank(sorted, 90),
            p95: pick_rank(sorted, 95),
            p99: pick_rank(sorted, 99),
        }
    }
}

/// Nearest-rank 10th, 25th, 50th, 75th, 90th, 95th and 99th percentiles of `data`,
/// all zero when `data` is empty.
pub fn calculate_percentiles(data: Vec<u128>) -> (r: Percentiles)
    ensures
        r.ladder_of(data@),
        r.is_monotone(),
{
    let ghost s = data@;
    let mut data = data;
    sort_durations(&mut data);
    let r = ladder_from_sorted(&data, Ghost(s));
    proof {
        lemma_ladder_monotone(s, r);
    }
    r
}

/// The two middle elements of a vector already in ascending order.
pub(crate) fn median_from_sorted(sorted: &Vec<u128>, Ghost(s): Ghost<Seq<u128>>) -> (r: Median)
    requires
        sorted@ == sorted_of(s),
        sorted@.len() == s.len(),
    ensures
        r.lower == median_lower_of(s),
        r.upper == median_upper_of(s),
{
    let len = sorted.len();
    if len == 0 {
        Median { lower: 0, upper: 0 }
    } else if len % 2 == 1 {
        Median { lower: sorted[len / 2], upper: sorted[len / 2] }
    } else {
        Median { lower: sorted[len / 2 - 1], upper: sorted[len / 2] }
    }
}

/// Median of `data` by the sorted-middle rule: the middle element for an odd length,
/// the midpoint of the two middle elements for an even length, zero when empty.
pub fn calculate_median(data: Vec<u128>) -> (r: Median)
    ensures
        r.lower == median_lower_of(data@),
        r.upper == median_upper_of(data@),
{
    let ghost s = data@;
    let mut data = data;
    sort_durations(&mut data);
    median_from_sorted(&data, Ghost(s))
}

} // verus!
