//! Bisection over a sorted slice: returns the index of the interval of two
//! consecutive entries that brackets a target, clamped to the first and last
//! interval. Used by the spline types to locate the interpolation interval
//! for an argument, including out-of-range arguments for extrapolation.

use core::cmp::Ordering;
use vstd::prelude::*;

verus! {

/// Returns the index `i` of the interval `[a[i], a[i + 1]]` selected for a
/// target, assuming `a` is sorted: entries up to `a[i]` compare at most
/// equal to the target and entries from `a[i + 1]` on compare greater,
/// except that the result is clamped to `[0, a.len() - 2]`. The comparator
/// reports how its argument compares against the target and must implement
/// an order consistent with the sort order of the underlying slice.
pub fn bisect_right_by<T, F: Fn(&T) -> Ordering>(a: &Vec<T>, f: F) -> (i: usize)
    requires
        a@.len() >= 2,
        forall|k: int| 0 <= k < a@.len() ==> call_requires(f, (&a@[k],)),
    ensures
        i < a@.len() - 1,
        i > 0 ==> exists|o: Ordering|
            #[trigger] call_ensures(f, (&a@[i as int],), o) && o != Ordering::Greater,
        i < a@.len() - 2 ==> exists|o: Ordering|
            #[trigger] call_ensures(f, (&a@[i + 1],), o) && o == Ordering::Greater,
{
    let mut lower: usize = 0;
    let mut upper: usize = a.len() - 1;

    while upper - lower > 1
        invariant
            a@.len() >= 2,
            forall|k: int| 0 <= k < a@.len() ==> call_requires(f, (&a@[k],)),
            lower < upper < a@.len(),
            lower > 0 ==> exists|o: Ordering|
                #[trigger] call_ensures(f, (&a@[lower as int],), o) && o != Ordering::Greater,
            upper < a@.len() - 1 ==> exists|o: Ordering|
                #[trigger] call_ensures(f, (&a@[upper as int],), o) && o == Ordering::Greater,
        decreases upper - lower,
    {
        let middle: usize = lower + (upper - lower) / 2;
        match f(&a[middle]) {
            Ordering::Greater => {
                upper = middle;
            },
            _ => {
                lower = middle;
            },
        }
    }

    proof {
        assert(upper == lower + 1);
    }
    lower
}

/// Returns the index of the interpolation interval of the sorted slice `a`
/// for the argument `x`: the rightmost `i` with `a[i] <= x`, clamped to
/// `[0, a.len() - 2]`.
pub fn bisect_right(a: &Vec<i64>, x: i64) -> (i: usize)
    requires
        a@.len() >= 2,
    ensures
        i < a@.len() - 1,
        i > 0 ==> a@[i as int] <= x,
        i < a@.len() - 2 ==> a@[i + 1] > x,
{
    let compare = |p: &i64| -> (o: Ordering)
        ensures
            o == Ordering::Greater <==> *p > x,
        {
            if *p > x {
                Ordering::Greater
            } else if *p < x {
                Ordering::Less
            } else {
                Ordering::Equal
            }
        };
    bisect_right_by(a, compare)
}

} // verus!
