//! Piecewise linear interpolation between construction points with strictly
//! increasing arguments, over fixed-point `i64` coordinates. Out-of-range
//! arguments are extrapolated from the first or last segment. The
//! interpolated value is the mathematically exact one rounded down.

use vstd::arithmetic::div_mod::{lemma_fundamental_div_mod, lemma_fundamental_div_mod_converse};
use vstd::prelude::*;

use crate::bisection::bisect_right;

verus! {

/// How a spline continues for arguments outside of its argument range.
#[derive(Copy, Clone, Debug, PartialEq, Eq, Structural)]
pub enum Extrapolation {
    /// Continue with the boundary value.
    Constant,
    /// Continue along the boundary tangent.
    Linear,
    /// Continue with the boundary polynomial.
    Cubic,
}

/// Bound on spline coordinates under which the interpolation arithmetic
/// below stays within `i64`.
pub const SPLINE_COORD_LIMIT: i64 = 1_000_000_000;

/// Whether `v` is small enough for exact interpolation.
pub open spec fn spline_coord_in_range(v: i64) -> bool {
    -SPLINE_COORD_LIMIT <= v <= SPLINE_COORD_LIMIT
}

/// The index of the interpolation interval of `x` for the argument `arg`:
/// the largest `i <= x.len() - 2` with `x[i] <= arg`, or `0` if there is
/// none.
pub open spec fn interval_index(x: Seq<i64>, arg: i64) -> int
    recommends
        x.len() >= 2,
    decreases x.len(),
{
    if x.len() <= 2 {
        0
    } else if x[x.len() - 2] <= arg {
        x.len() - 2
    } else {
        interval_index(x.drop_last(), arg)
    }
}

/// The exact linear interpolation (or extrapolation) of the points
/// `(x[i], y[i])` at `arg`, on the interval selected by `interval_index`,
/// rounded toward negative infinity.
pub open spec fn spline_value(x: Seq<i64>, y: Seq<i64>, arg: i64) -> int
    recommends
        x.len() >= 2,
        y.len() == x.len(),
{
    let i = interval_index(x, arg);
    y[i] + (arg - x[i]) * (y[i + 1] - y[i]) / (x[i + 1] - x[i])
}

/// Spline that performs linear interpolation between its construction
/// points.
pub struct LinearSpline {
    pub x: Vec<i64>,
    pub y: Vec<i64>,
}

impl LinearSpline {
    /// Well-formedness: as many values as arguments, at least two points,
    /// strictly increasing arguments, and all coordinates small enough for
    /// exact interpolation.
    pub open spec fn wf(&self) -> bool {
        &&& self.x@.len() == self.y@.len()
        &&& self.x@.len() >= 2
        &&& forall|k: int| 0 <= k < self.x@.len() - 1 ==> #[trigger] self.x@[k] < self.x@[k + 1]
        &&& forall|k: int| 0 <= k < self.x@.len() ==> spline_coord_in_range(#[trigger] self.x@[k])
        &&& forall|k: int| 0 <= k < self.y@.len() ==> spline_coord_in_range(#[trigger] self.y@[k])
    }

    /// Builds a spline from its points, given as an argument slice and a
    /// value slice; surplus entries of the longer slice are ignored.
    pub fn from_components(args: &Vec<i64>, vals: &Vec<i64>) -> (r: LinearSpline)
        requires
            args@.len() >= 2,
            vals@.len() >= 2,
            forall|k: int|
                0 <= k < args@.len() - 1 && k < vals@.len() - 1 ==> #[trigger] args@[k] < args@[k
                    + 1],
            forall|k: int|
                0 <= k < args@.len() && k < vals@.len() ==> spline_coord_in_range(
                    #[trigger] args@[k],
                ),
            forall|k: int|
                0 <= k < vals@.len() && k < args@.len() ==> spline_coord_in_range(
                    #[trigger] vals@[k],
                ),
        ensures
            r.wf(),
            r.x@.len() == if args@.len() <= vals@.len() {
                args@.len()
            } else {
                vals@.len()
            },
            forall|k: int| 0 <= k < r.x@.len() ==> #[trigger] r.x@[k] == args@[k],
            forall|k: int| 0 <= k < r.y@.len() ==> #[trigger] r.y@[k] == vals@[k],
    {
        let n: usize = if args.len() <= vals.len() {
            args.len()
        } else {
            vals.len()
        };
        let mut points: Vec<(i64, i64)> = Vec::new();
        let mut k: usize = 0;
        while k < n
            invariant
                n <= args@.len(),
                n <= vals@.len(),
                k <= n,
                points@.len() == k,
                forall|j: int|
                    0 <= j < k ==> #[trigger] points@[j] == (args@[j], vals@[j]),
            decreases n - k,
        {
            points.push((args[k], vals[k]));
            k += 1;
        }
        Self::from_iter(points)
    }

    /// Builds a spline from a slice of its points.
    pub fn from_points(points: &Vec<(i64, i64)>) -> (r: LinearSpline)
        requires
            points@.len() >= 2,
            forall|k: int| 0 <= k < points@.len() - 1 ==> (#[trigger] points@[k]).0 < points@[k + 1].0,
            forall|k: int|
                0 <= k < points@.len() ==> spline_coord_in_range((#[trigger] points@[k]).0)
                    && spline_coord_in_range(points@[k].1),
        ensures
            r.wf(),
            r.x@.len() == points@.len(),
            forall|k: int| 0 <= k < points@.len() ==> #[trigger] r.x@[k] == points@[k].0,
            forall|k: int| 0 <= k < points@.len() ==> #[trigger] r.y@[k] == points@[k].1,
    {
        let mut owned: Vec<(i64, i64)> = Vec::new();
        let mut k: usize = 0;
        while k < points.len()
            invariant
                k <= points@.len(),
                owned@.len() == k,
                forall|j: int| 0 <= j < k ==> #[trigger] owned@[j] == points@[j],
            decreases points@.len() - k,
        {
            owned.push((points[k].0, points[k].1));
            k += 1;
        }
        Self::from_iter(owned)
    }

    /// Builds a spline from a sequence of its points. At least two points
    /// are required and the arguments must be strictly increasing.
    pub fn from_iter(points: Vec<(i64, i64)>) -> (r: LinearSpline)
        requires
            points@.len() >= 2,
            forall|k: int| 0 <= k < points@.len() - 1 ==> (#[trigger] points@[k]).0 < points@[k + 1].0,
            forall|k: int|
                0 <= k < points@.len() ==> spline_coord_in_range((#[trigger] points@[k]).0)
                    && spline_coord_in_range(points@[k].1),
        ensures
            r.wf(),
            r.x@.len() == points@.len(),
            forall|k: int| 0 <= k < points@.len() ==> #[trigger] r.x@[k] == points@[k].0,
            forall|k: int| 0 <= k < points@.len() ==> #[trigger] r.y@[k] == points@[k].1,
    {
        let mut x: Vec<i64> = Vec::new();
        let mut y: Vec<i64> = Vec::new();
        let mut k: usize = 0;
        while k < points.len()
            invariant
                k <= points@.len(),
                x@.len() == k,
                y@.len() == k,
                forall|j: int| 0 <= j < k ==> #[trigger] x@[j] == points@[j].0,
                forall|j: int| 0 <= j < k ==> #[trigger] y@[j] == points@[j].1,
            decreases points@.len() - k,
        {
            x.push(points[k].0);
            y.push(points[k].1);
            k += 1;
        }
        proof {
            assert forall|j: int| 0 <= j < x@.len() - 1 implies #[trigger] x@[j] < x@[j + 1] by {
                assert(points@[j].0 < points@[j + 1].0);
            }
            assert forall|j: int|
                0 <= j < x@.len() implies spline_coord_in_range(#[trigger] x@[j]) by {
                assert(spline_coord_in_range(points@[j].0));
            }
            assert forall|j: int|
                0 <= j < y@.len() implies spline_coord_in_range(#[trigger] y@[j]) by {
                assert(spline_coord_in_range(points@[j].1));
            }
        }
        LinearSpline { x, y }
    }

    /// The arguments of the construction points.
    pub fn args(&self) -> (r: &Vec<i64>)
        ensures
            r@ == self.x@,
    {
        &self.x
    }

    /// The values of the construction points.
    pub fn vals(&self) -> (r: &Vec<i64>)
        ensures
            r@ == self.y@,
    {
        &self.y
    }

    /// The smallest argument of the construction points, which is the first
    /// one.
    pub fn arg_min(&self) -> (r: i64)
        requires
            self.wf(),
        ensures
            r == self.x@[0],
            forall|k: int| 0 <= k < self.x@.len() ==> r <= #[trigger] self.x@[k],
    {
        proof {
            lemma_increasing_transitive(self.x@);
        }
        self.x[0]
    }

    /// The largest argument of the construction points, which is the last
    /// one.
    pub fn arg_max(&self) -> (r: i64)
        requires
            self.wf(),
        ensures
            r == self.x@[self.x@.len() - 1],
            forall|k: int| 0 <= k < self.x@.len() ==> r >= #[trigger] self.x@[k],
    {
        proof {
            lemma_increasing_transitive(self.x@);
        }
        self.x[self.x.len() - 1]
    }

    /// Returns the interpolated value for the given argument; arguments out
    /// of bounds are extrapolated from the first or last segment.
    pub fn value(&self, arg: i64) -> (r: i64)
        requires
            self.wf(),
            spline_coord_in_range(arg),
        ensures
            r == spline_value(self.x@, self.y@, arg),
    {
        let n: usize = self.x.len();
        let index: usize = bisect_right(&self.x, arg);
        proof {
            lemma_increasing_transitive(self.x@);
            lemma_interval_index_pinned(self.x@, arg, index as int);
        }
        let x0: i64 = self.x[index];
        let x1: i64 = self.x[index + 1];
        let y0: i64 = self.y[index];
        let y1: i64 = self.y[index + 1];
        proof {
            let lim = SPLINE_COORD_LIMIT as int;
            assert((-4 * lim * lim) <= (arg - x0) * (y1 - y0) <= 4 * lim * lim) by (nonlinear_arith)
                requires
                    -2 * lim <= arg - x0 <= 2 * lim,
                    -2 * lim <= y1 - y0 <= 2 * lim,
                    lim == SPLINE_COORD_LIMIT as int,
            ;
        }
        let num: i64 = (arg - x0) * (y1 - y0);
        let q: i64 = floor_div(num, x1 - x0);
        proof {
            lemma_fundamental_div_mod(num as int, x1 - x0);
            assert(num - (x1 - x0) < (x1 - x0) * (num as int / (x1 - x0)) <= num)
                by (nonlinear_arith)
                requires
                    x1 - x0 >= 1,
                    (x1 - x0) * (num as int / (x1 - x0)) == num - (num as int % (x1 - x0)),
                    0 <= num as int % (x1 - x0) < x1 - x0,
            ;
            assert(-(4 * SPLINE_COORD_LIMIT as int * SPLINE_COORD_LIMIT + 2 * SPLINE_COORD_LIMIT)
                <= q <= 4 * SPLINE_COORD_LIMIT as int * SPLINE_COORD_LIMIT + 2 * SPLINE_COORD_LIMIT)
                by (nonlinear_arith)
                requires
                    x1 - x0 >= 1,
                    q == num as int / (x1 - x0),
                    num - (x1 - x0) < (x1 - x0) * q <= num,
                    -4 * SPLINE_COORD_LIMIT as int * SPLINE_COORD_LIMIT <= num <= 4
                        * SPLINE_COORD_LIMIT as int * SPLINE_COORD_LIMIT,
                    -2 * SPLINE_COORD_LIMIT as int <= x1 - x0 <= 2 * SPLINE_COORD_LIMIT,
            ;
        }
        y0 + q
    }
}

/// In a sequence whose adjacent entries increase strictly, any earlier
/// entry is smaller than any later one.
proof fn lemma_increasing_transitive(x: Seq<i64>)
    requires
        forall|k: int| 0 <= k < x.len() - 1 ==> #[trigger] x[k] < x[k + 1],
    ensures
        forall|k1: int, k2: int| 0 <= k1 < k2 < x.len() ==> x[k1] < x[k2],
{
    assert forall|k1: int, k2: int| 0 <= k1 < k2 < x.len() implies x[k1] < x[k2] by {
        lemma_increasing_pair(x, k1, k2);
    }
}

proof fn lemma_increasing_pair(x: Seq<i64>, k1: int, k2: int)
    requires
        forall|k: int| 0 <= k < x.len() - 1 ==> #[trigger] x[k] < x[k + 1],
        0 <= k1 < k2 < x.len(),
    ensures
        x[k1] < x[k2],
    decreases k2 - k1,
{
    if k1 + 1 < k2 {
        lemma_increasing_pair(x, k1 + 1, k2);
    }
}

/// The interval selected by bisection is the one `interval_index` names:
/// for strictly increasing arguments, an index in `[0, x.len() - 2]` whose
/// entry is at most `arg` (unless it is the first) and whose successor
/// entry exceeds `arg` (unless it is the last) is unique.
proof fn lemma_interval_index_pinned(x: Seq<i64>, arg: i64, i: int)
    requires
        x.len() >= 2,
        forall|k: int| 0 <= k < x.len() - 1 ==> #[trigger] x[k] < x[k + 1],
        0 <= i <= x.len() - 2,
        i > 0 ==> x[i] <= arg,
        i < x.len() - 2 ==> x[i + 1] > arg,
    ensures
        i == interval_index(x, arg),
    decreases x.len(),
{
    lemma_increasing_transitive(x);
    if x.len() == 2 {
    } else if x[x.len() - 2] <= arg {
        if i < x.len() - 2 {
            assert(x[i + 1] <= x[x.len() - 2]);
            assert(false);
        }
    } else {
        assert(i < x.len() - 2);
        let prefix = x.drop_last();
        assert(forall|k: int| 0 <= k < prefix.len() - 1 ==> #[trigger] prefix[k] < prefix[k + 1]);
        lemma_interval_index_pinned(prefix, arg, i);
    }
}

/// Division of an `i64` by a positive divisor, rounding toward negative
/// infinity, which agrees with mathematical integer division.
fn floor_div(n: i64, d: i64) -> (q: i64)
    requires
        d > 0,
        -0x4000_0000_0000_0000 <= n <= 0x4000_0000_0000_0000,
    ensures
        q == n as int / d as int,
{
    if n >= 0 {
        n / d
    } else {
        let m: i64 = -n;
        let t: i64 = m / d;
        let rem: i64 = m % d;
        if rem == 0 {
            proof {
                lemma_fundamental_div_mod(m as int, d as int);
                assert((-t) * d == -(t * d)) by (nonlinear_arith);
                lemma_fundamental_div_mod_converse(n as int, d as int, -t as int, 0);
            }
            -t
        } else {
            proof {
                lemma_fundamental_div_mod(m as int, d as int);
                assert((-t - 1) * d == -(t * d) - d) by (nonlinear_arith);
                lemma_fundamental_div_mod_converse(n as int, d as int, -t - 1 as int, d - rem);
            }
            -t - 1
        }
    }
}

} // verus!
