//! Intervals with inclusive or exclusive fixed-point bounds, used to check
//! that the layers' height definitions cover the cross section without a
//! hole: the leftmost partial union of a set of intervals says how far they
//! cover from the left before the first gap.

use core::cmp::Ordering;
use vstd::prelude::*;
use vstd::relations::{sorted_by, total_ordering};
use vstd::multiset::Multiset;
use vstd::seq_lib::lemma_sorted_unique;

verus! {

broadcast use vstd::seq_lib::group_to_multiset_ensures;

/// An interval bound: a value that itself belongs to the interval or not.
#[derive(Copy, Clone, Debug, PartialEq, Eq, Structural)]
pub enum Bound {
    Inclusive(i64),
    Exclusive(i64),
}

/// The value of a bound, disregarding its kind.
pub open spec fn bound_value_spec(b: Bound) -> i64 {
    match b {
        Bound::Inclusive(x) => x,
        Bound::Exclusive(x) => x,
    }
}

/// The total order on bounds: by value first; bounds of equal value are
/// ordered with the inclusive one below the exclusive one, so that of two
/// lower bounds with equal value the inclusive one starts earlier.
pub open spec fn bound_cmp_spec(a: Bound, b: Bound) -> Ordering {
    if bound_value_spec(a) < bound_value_spec(b) {
        Ordering::Less
    } else if bound_value_spec(a) > bound_value_spec(b) {
        Ordering::Greater
    } else {
        match (a, b) {
            (Bound::Inclusive(_), Bound::Exclusive(_)) => Ordering::Less,
            (Bound::Exclusive(_), Bound::Inclusive(_)) => Ordering::Greater,
            _ => Ordering::Equal,
        }
    }
}

/// Whether `a` comes at or before `b` in the bound order.
pub open spec fn bound_le(a: Bound, b: Bound) -> bool {
    bound_cmp_spec(a, b) != Ordering::Greater
}

/// Whether `a` comes strictly before `b` in the bound order.
pub open spec fn bound_lt(a: Bound, b: Bound) -> bool {
    bound_cmp_spec(a, b) == Ordering::Less
}

impl Bound {
    /// The value of the bound, disregarding its kind.
    pub fn value(&self) -> (r: i64)
        ensures
            r == bound_value_spec(*self),
    {
        match self {
            Bound::Inclusive(x) => *x,
            Bound::Exclusive(x) => *x,
        }
    }
}

impl PartialOrd for Bound {
    /// Compares values first; for equal values the kind of the bound
    /// decides. Bounds are always comparable.
    fn partial_cmp(&self, other: &Self) -> (r: Option<Ordering>) {
        let result: Ordering = if self.value() < other.value() {
            Ordering::Less
        } else if self.value() > other.value() {
            Ordering::Greater
        } else {
            match (self, other) {
                (Bound::Inclusive(_), Bound::Exclusive(_)) => Ordering::Less,
                (Bound::Exclusive(_), Bound::Inclusive(_)) => Ordering::Greater,
                _ => Ordering::Equal,
            }
        };
        Some(result)
    }
}

impl vstd::std_specs::cmp::PartialOrdSpecImpl for Bound {
    open spec fn obeys_partial_cmp_spec() -> bool {
        true
    }

    open spec fn partial_cmp_spec(&self, other: &Self) -> Option<Ordering> {
        Some(bound_cmp_spec(*self, *other))
    }
}

/// An interval between a lower and an upper bound.
#[derive(Copy, Clone, Debug, PartialEq, Eq, Structural)]
pub struct Interval {
    pub lower: Bound,
    pub upper: Bound,
}

/// Whether two intervals share at least one point (by the bound order, so
/// an exclusive bound still counts as touching an inclusive one of the
/// same value, as in the original coverage check).
pub open spec fn intervals_intersect(a: Interval, b: Interval) -> bool {
    bound_le(a.lower, b.upper) && bound_le(b.lower, a.upper)
}

/// The order in which `left_union` visits intervals: by lower bound, with
/// ties broken by the upper bound so that the order is total.
pub open spec fn interval_order() -> spec_fn(Interval, Interval) -> bool {
    |a: Interval, b: Interval|
        bound_lt(a.lower, b.lower) || (a.lower == b.lower && bound_le(a.upper, b.upper))
}

/// The interval order is a total ordering, as sorting requires.
pub proof fn lemma_interval_order_total()
    ensures
        total_ordering(interval_order()),
{
}

/// The state of the left-union traversal over the sorted intervals after
/// the first `k` of them: the union interval built so far, and whether a
/// gap has ended the traversal.
pub open spec fn left_union_state(sorted: Seq<Interval>, k: int) -> (Interval, bool)
    recommends
        sorted.len() >= 1,
    decreases k,
{
    if k <= 1 {
        (sorted[0], false)
    } else {
        let prev = left_union_state(sorted, k - 1);
        if prev.1 {
            prev
        } else if !intervals_intersect(sorted[k - 1], prev.0) {
            (prev.0, true)
        } else if bound_lt(prev.0.upper, sorted[k - 1].upper) {
            (Interval { lower: prev.0.lower, upper: sorted[k - 1].upper }, false)
        } else {
            prev
        }
    }
}

/// The leftmost partial union of a nonempty set of intervals: what they
/// cover from the left without a hole.
pub open spec fn left_union_spec(intervals: Seq<Interval>) -> Interval {
    left_union_state(intervals.sort_by(interval_order()), intervals.len() as int).0
}

/// Once the traversal has stopped at a gap, later intervals change
/// nothing.
proof fn lemma_left_union_stopped(sorted: Seq<Interval>, k: int, m: int)
    requires
        1 <= k <= m,
        left_union_state(sorted, k).1,
    ensures
        left_union_state(sorted, m) == left_union_state(sorted, k),
    decreases m - k,
{
    if m > k {
        lemma_left_union_stopped(sorted, k, m - 1);
    }
}

impl Interval {
    /// The interval that contains both its endpoints.
    pub fn inclusive(lower: i64, upper: i64) -> (r: Interval)
        ensures
            r == (Interval { lower: Bound::Inclusive(lower), upper: Bound::Inclusive(upper) }),
    {
        Interval { lower: Bound::Inclusive(lower), upper: Bound::Inclusive(upper) }
    }

    /// The interval that contains neither of its endpoints.
    pub fn exclusive(lower: i64, upper: i64) -> (r: Interval)
        ensures
            r == (Interval { lower: Bound::Exclusive(lower), upper: Bound::Exclusive(upper) }),
    {
        Interval { lower: Bound::Exclusive(lower), upper: Bound::Exclusive(upper) }
    }

    /// Whether this interval and the other share at least one point.
    pub fn intersects(&self, other: &Interval) -> (r: bool)
        ensures
            r == intervals_intersect(*self, *other),
    {
        bound_le_exec(&self.lower, &other.upper) && bound_le_exec(&other.lower, &self.upper)
    }

    /// Given a list of intervals, returns the leftmost partial interval of
    /// their union set: the interval they cover when starting from the
    /// left without creating a hole.
    pub fn left_union(intervals: Vec<Interval>) -> (r: Interval)
        requires
            intervals@.len() > 0,
        ensures
            r == left_union_spec(intervals@),
    {
        let sorted = sort_intervals(intervals);
        let n: usize = sorted.len();
        let mut result = sorted[0];
        let mut k: usize = 1;

        while k < n
            invariant_except_break
                left_union_state(sorted@, k as int) == (result, false),
            invariant
                1 <= k <= n,
                n == sorted@.len(),
            ensures
                result == left_union_state(sorted@, n as int).0,
            decreases n - k,
        {
            let next = sorted[k];
            if !next.intersects(&result) {
                proof {
                    assert(left_union_state(sorted@, k + 1) == (result, true));
                    lemma_left_union_stopped(sorted@, k + 1, n as int);
                }
                break;
            } else if bound_lt_exec(&result.upper, &next.upper) {
                result.upper = next.upper;
            }
            k += 1;
        }

        result
    }
}

/// Whether `a` comes at or before `b` in the bound order.
fn bound_le_exec(a: &Bound, b: &Bound) -> (r: bool)
    ensures
        r == bound_le(*a, *b),
{
    !bound_lt_exec(b, a)
}

/// Whether `a` comes strictly before `b` in the bound order.
fn bound_lt_exec(a: &Bound, b: &Bound) -> (r: bool)
    ensures
        r == bound_lt(*a, *b),
{
    if a.value() < b.value() {
        true
    } else if a.value() > b.value() {
        false
    } else {
        matches!((a, b), (Bound::Inclusive(_), Bound::Exclusive(_)))
    }
}

/// Whether `a` comes at or before `b` in the interval order.
fn interval_le_exec(a: &Interval, b: &Interval) -> (r: bool)
    ensures
        r == interval_order()(*a, *b),
{
    if bound_lt_exec(&a.lower, &b.lower) {
        true
    } else if bound_lt_exec(&b.lower, &a.lower) {
        false
    } else {
        bound_le_exec(&a.upper, &b.upper)
    }
}

/// Sorts intervals by the interval order, via selection of the least
/// remaining interval.
fn sort_intervals(intervals: Vec<Interval>) -> (r: Vec<Interval>)
    ensures
        r@ == intervals@.sort_by(interval_order()),
        r@.len() == intervals@.len(),
{
    let mut rest = intervals;
    let mut out: Vec<Interval> = Vec::new();

    while rest.len() > 0
        invariant
            out@.to_multiset().add(rest@.to_multiset()) == intervals@.to_multiset(),
            sorted_by(out@, interval_order()),
            forall|i: int, j: int|
                0 <= i < out@.len() && 0 <= j < rest@.len() ==> #[trigger] interval_order()(
                    out@[i],
                    rest@[j],
                ),
        decreases rest@.len(),
    {
        let mut least: usize = 0;
        let mut j: usize = 1;
        while j < rest.len()
            invariant
                least < j <= rest@.len(),
                rest@.len() > 0,
                forall|i: int|
                    0 <= i < j ==> #[trigger] interval_order()(rest@[least as int], rest@[i]),
            decreases rest@.len() - j,
        {
            if !interval_le_exec(&rest[least], &rest[j]) {
                proof {
                    lemma_interval_order_total();
                    assert(interval_order()(rest@[j as int], rest@[least as int]));
                    assert forall|i: int|
                        0 <= i < j + 1 implies #[trigger] interval_order()(
                        rest@[j as int],
                        rest@[i],
                    ) by {
                        if i < j {
                            assert(interval_order()(rest@[least as int], rest@[i]));
                        }
                    }
                }
                least = j;
            }
            j += 1;
        }
        let picked = rest.remove(least);
        out.push(picked);
        proof {
            lemma_interval_order_total();
            assert(out@.to_multiset().add(rest@.to_multiset()) =~= intervals@.to_multiset());
        }
    }

    proof {
        lemma_interval_order_total();
        intervals@.lemma_sort_by_ensures(interval_order());
        assert(rest@.to_multiset() =~= Multiset::empty());
        assert(out@.to_multiset() =~= intervals@.to_multiset());
        assert(out@.len() == out@.to_multiset().len());
        assert(intervals@.len() == intervals@.to_multiset().len());
        lemma_sorted_unique(out@, intervals@.sort_by(interval_order()), interval_order());
    }
    out
}

} // verus!
