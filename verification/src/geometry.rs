//! Planar turn orientation and the contact envelope ("string wrap")
//! algorithm: given a polyline of candidate contact points, select the
//! subset that forms a strictly left- or right-turning curve. The selection
//! determines which nodes are currently in mechanical contact with the
//! string. Coordinates are fixed-point `i64` values, so every turn decision
//! is exact.

use vstd::prelude::*;

verus! {

/// A point of the plane in fixed-point coordinates.
#[derive(Copy, Clone, Debug, PartialEq, Eq, Structural)]
pub struct Point {
    pub x: i64,
    pub y: i64,
}

/// Describes the orientation of the turn that three numbered points in a
/// plane make.
#[derive(Copy, Clone, Debug, PartialEq, Eq, Structural)]
pub enum Orientation {
    /// Left turn, i.e. counterclockwise.
    LeftTurn,
    /// Right turn, i.e. clockwise.
    RightTurn,
    /// The points lie on a perfect line.
    Collinear,
}

/// Bound on coordinates under which the cross product below stays within
/// `i64` (the final difference is at most eight times the square of it).
pub const COORD_LIMIT: i64 = 0x3fff_ffff;

/// Whether both coordinates are small enough for exact turn evaluation.
pub open spec fn point_in_range(p: Point) -> bool {
    &&& -COORD_LIMIT <= p.x <= COORD_LIMIT
    &&& -COORD_LIMIT <= p.y <= COORD_LIMIT
}

/// Twice the signed area of the triangle `(a, b, c)`: positive iff the
/// points make a counterclockwise turn.
pub open spec fn cross_product(a: Point, b: Point, c: Point) -> int {
    (b.x - a.x) * (c.y - a.y) - (b.y - a.y) * (c.x - a.x)
}

/// The orientation of the turn made by the points `a`, `b`, `c`, by the
/// sign of their cross product.
pub open spec fn orientation_of(a: Point, b: Point, c: Point) -> Orientation {
    if cross_product(a, b, c) > 0 {
        Orientation::LeftTurn
    } else if cross_product(a, b, c) < 0 {
        Orientation::RightTurn
    } else {
        Orientation::Collinear
    }
}

impl Orientation {
    /// Evaluates the orientation of the turn made by three points.
    pub fn from_points(a: &Point, b: &Point, c: &Point) -> (r: Orientation)
        requires
            point_in_range(*a),
            point_in_range(*b),
            point_in_range(*c),
        ensures
            r == orientation_of(*a, *b, *c),
    {
        let dx1: i64 = b.x - a.x;
        let dy1: i64 = b.y - a.y;
        let dx2: i64 = c.x - a.x;
        let dy2: i64 = c.y - a.y;
        proof {
            assert((-0x7fff_fffe) * 0x7fff_fffe <= dx1 * dy2 <= 0x7fff_fffe * 0x7fff_fffe)
                by (nonlinear_arith)
                requires
                    -0x7fff_fffe <= dx1 <= 0x7fff_fffe,
                    -0x7fff_fffe <= dy2 <= 0x7fff_fffe,
            ;
            assert((-0x7fff_fffe) * 0x7fff_fffe <= dy1 * dx2 <= 0x7fff_fffe * 0x7fff_fffe)
                by (nonlinear_arith)
                requires
                    -0x7fff_fffe <= dy1 <= 0x7fff_fffe,
                    -0x7fff_fffe <= dx2 <= 0x7fff_fffe,
            ;
        }
        let product: i64 = dx1 * dy2 - dy1 * dx2;
        if product > 0 {
            Orientation::LeftTurn
        } else if product < 0 {
            Orientation::RightTurn
        } else {
            Orientation::Collinear
        }
    }
}

/// Whether index `c` may be pushed onto the stack without violating the
/// required turn orientation: always for stacks of at most one entry,
/// otherwise the top two entries and `c` must make the requested turn.
pub open spec fn fits_as_next(points: Seq<Point>, o: Orientation, stack: Seq<usize>, c: usize) -> bool {
    ||| stack.len() <= 1
    ||| orientation_of(
            points[stack[stack.len() - 2] as int],
            points[stack[stack.len() - 1] as int],
            points[c as int],
        ) == o
}

/// The stack after popping entries until `c` fits as the next point.
pub open spec fn pop_until_fits(points: Seq<Point>, o: Orientation, stack: Seq<usize>, c: usize) -> Seq<usize>
    decreases stack.len(),
{
    if fits_as_next(points, o, stack, c) {
        stack
    } else {
        pop_until_fits(points, o, stack.drop_last(), c)
    }
}

/// The index stack after traversing the first `n` points (`n >= 2`): each
/// further point pops the entries it does not make the requested turn with,
/// then is pushed itself.
pub open spec fn envelope_prefix(points: Seq<Point>, o: Orientation, n: int) -> Seq<usize>
    decreases n,
{
    if n <= 2 {
        seq![0usize, 1usize]
    } else {
        pop_until_fits(points, o, envelope_prefix(points, o, n - 1), (n - 1) as usize).push(
            (n - 1) as usize,
        )
    }
}

/// The subset of point indices retained by the contact envelope traversal.
pub open spec fn convex_envelope_spec(points: Seq<Point>, o: Orientation) -> Seq<usize> {
    envelope_prefix(points, o, points.len() as int)
}

/// Whether the three consecutive retained points ending at position `k` of
/// the index sequence `s` make the requested turn.
pub open spec fn turn_at(points: Seq<Point>, o: Orientation, s: Seq<usize>, k: int) -> bool
    recommends
        2 <= k < s.len(),
{
    orientation_of(points[s[k - 2] as int], points[s[k - 1] as int], points[s[k] as int]) == o
}

/// Popping preserves the final stack, which is a nonempty prefix of the
/// initial one and accepts `c` as its next entry.
proof fn lemma_pop_until_fits(points: Seq<Point>, o: Orientation, stack: Seq<usize>, c: usize)
    requires
        stack.len() >= 1,
    ensures
        1 <= pop_until_fits(points, o, stack, c).len() <= stack.len(),
        pop_until_fits(points, o, stack, c) == stack.take(
            pop_until_fits(points, o, stack, c).len() as int,
        ),
        fits_as_next(points, o, pop_until_fits(points, o, stack, c), c),
    decreases stack.len(),
{
    if fits_as_next(points, o, stack, c) {
        assert(stack.take(stack.len() as int) =~= stack);
    } else {
        lemma_pop_until_fits(points, o, stack.drop_last(), c);
        let m: int = pop_until_fits(points, o, stack.drop_last(), c).len() as int;
        assert(stack.drop_last().take(m) =~= stack.take(m));
    }
}

/// The envelope of the first `n` points keeps the first and the last point,
/// retains indices in strictly increasing order below `n`, and every three
/// consecutive retained points make the requested turn.
proof fn lemma_envelope_prefix_props(points: Seq<Point>, o: Orientation, n: int)
    requires
        2 <= n <= usize::MAX,
    ensures
        envelope_prefix(points, o, n).len() >= 2,
        envelope_prefix(points, o, n)[0] == 0,
        envelope_prefix(points, o, n).last() == n - 1,
        forall|k1: int, k2: int|
            0 <= k1 < k2 < envelope_prefix(points, o, n).len() ==> envelope_prefix(points, o, n)[k1]
                < envelope_prefix(points, o, n)[k2],
        forall|k: int|
            0 <= k < envelope_prefix(points, o, n).len() ==> envelope_prefix(points, o, n)[k] < n,
        forall|k: int|
            2 <= k < envelope_prefix(points, o, n).len() ==> #[trigger] turn_at(
                points,
                o,
                envelope_prefix(points, o, n),
                k,
            ),
    decreases n,
{
    if n == 2 {
        let s = envelope_prefix(points, o, n);
        assert(s == seq![0usize, 1usize]);
        assert(s[0] == 0 && s[1] == 1);
    } else {
        lemma_envelope_prefix_props(points, o, n - 1);
        let prev = envelope_prefix(points, o, n - 1);
        let c = (n - 1) as usize;
        lemma_pop_until_fits(points, o, prev, c);
        let popped = pop_until_fits(points, o, prev, c);
        let m: int = popped.len() as int;
        // Entries of the popped stack coincide with the corresponding
        // entries of the previous stack.
        assert(forall|k: int| 0 <= k < m ==> popped[k] == prev[k]);
        let s = envelope_prefix(points, o, n);
        assert(s == popped.push(c));
        assert(s[0] == prev[0]);
        assert(s.last() == c);
        // Strict increase: within the prefix it is inherited, and the new
        // last entry exceeds every entry of the previous stack.
        assert(forall|k: int| 0 <= k < m ==> s[k] == prev[k]);
        assert forall|k1: int, k2: int| 0 <= k1 < k2 < s.len() implies s[k1] < s[k2] by {
            if k2 < s.len() - 1 {
                assert(prev[k1] < prev[k2]);
            } else {
                assert(s[k1] == prev[k1] && prev[k1] < n - 1);
            }
        }
        // Turns: triples inside the prefix are triples of the previous
        // stack; the final triple, if any, is the fit check for `c`.
        assert forall|k: int| 2 <= k < s.len() implies #[trigger] turn_at(points, o, s, k) by {
            if k < s.len() - 1 {
                assert(turn_at(points, o, prev, k));
                assert(turn_at(points, o, s, k) == turn_at(points, o, prev, k));
            } else {
                assert(m >= 2);
                assert(fits_as_next(points, o, popped, c));
                assert(s[k - 2] == popped[m - 2] && s[k - 1] == popped[m - 1] && s[k] == c);
            }
        }
    }
}

/// The retained contact subset always contains the first and the last
/// candidate point, visits candidates in strictly increasing index order,
/// and every three consecutive retained points make the requested turn.
pub proof fn lemma_convex_envelope_properties(points: Seq<Point>, o: Orientation)
    requires
        2 <= points.len() <= usize::MAX,
    ensures
        convex_envelope_spec(points, o).len() >= 2,
        convex_envelope_spec(points, o)[0] == 0,
        convex_envelope_spec(points, o).last() == points.len() - 1,
        forall|k1: int, k2: int|
            0 <= k1 < k2 < convex_envelope_spec(points, o).len() ==> convex_envelope_spec(
                points,
                o,
            )[k1] < convex_envelope_spec(points, o)[k2],
        forall|k: int|
            0 <= k < convex_envelope_spec(points, o).len() ==> convex_envelope_spec(points, o)[k]
                < points.len(),
        forall|k: int|
            2 <= k < convex_envelope_spec(points, o).len() ==> #[trigger] turn_at(
                points,
                o,
                convex_envelope_spec(points, o),
                k,
            ),
{
    lemma_envelope_prefix_props(points, o, points.len() as int);
}

/// Traverses a curve of line segments defined by a list of input points and
/// fills `indices` with the subset of point indices that defines a curve of
/// strictly right-handed or left-handed orientation. The start and end
/// points are always retained. A retained interior point is one the string
/// does not have to bend around in the wrong direction.
pub fn convex_envelope(points: &Vec<Point>, indices: &mut Vec<usize>, orientation: Orientation)
    requires
        points@.len() >= 2,
        orientation != Orientation::Collinear,
        forall|k: int| 0 <= k < points@.len() ==> point_in_range(points@[k]),
    ensures
        final(indices)@ == convex_envelope_spec(points@, orientation),
        final(indices)@.len() >= 2,
        final(indices)@[0] == 0,
        final(indices)@.last() == points@.len() - 1,
        forall|k1: int, k2: int|
            0 <= k1 < k2 < final(indices)@.len() ==> final(indices)@[k1] < final(indices)@[k2],
        forall|k: int|
            2 <= k < final(indices)@.len() ==> #[trigger] turn_at(
                points@,
                orientation,
                final(indices)@,
                k,
            ),
{
    indices.clear();
    indices.push(0);
    indices.push(1);

    let n: usize = points.len();
    let mut i: usize = 2;
    while i < n
        invariant
            2 <= i <= n,
            n == points@.len(),
            forall|k: int| 0 <= k < points@.len() ==> point_in_range(points@[k]),
            indices@ == envelope_prefix(points@, orientation, i as int),
        decreases n - i,
    {
        proof {
            lemma_envelope_prefix_props(points@, orientation, i as int);
        }
        loop
            invariant
                i < n,
                n == points@.len(),
                forall|k: int| 0 <= k < points@.len() ==> point_in_range(points@[k]),
                indices@.len() >= 1,
                forall|k: int| 0 <= k < indices@.len() ==> indices@[k] < i,
                pop_until_fits(points@, orientation, indices@, i) == pop_until_fits(
                    points@,
                    orientation,
                    envelope_prefix(points@, orientation, i as int),
                    i,
                ),
            ensures
                indices@.len() >= 1,
                forall|k: int| 0 <= k < indices@.len() ==> indices@[k] < i,
                indices@ == pop_until_fits(
                    points@,
                    orientation,
                    envelope_prefix(points@, orientation, i as int),
                    i,
                ),
            decreases indices@.len(),
        {
            if indices.len() <= 1 {
                break;
            }
            let ia: usize = indices[indices.len() - 2];
            let ib: usize = indices[indices.len() - 1];
            let turn = Orientation::from_points(&points[ia], &points[ib], &points[i]);
            if turn == orientation {
                break;
            }
            indices.pop();
        }
        indices.push(i);
        i += 1;
    }
    proof {
        lemma_convex_envelope_properties(points@, orientation);
    }
}

} // verus!
