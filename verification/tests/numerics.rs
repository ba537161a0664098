use std::cmp::Ordering;

use bow_solver::bisection::{bisect_right, bisect_right_by};
use bow_solver::functions::{normalize_angle, ANGLE_FULL_TURN, ANGLE_HALF_TURN};
use bow_solver::linear_spline::{Extrapolation, LinearSpline};

#[test]
fn test_bisection() {
    let x: Vec<i64> = vec![0, 2, 4, 6];

    assert_eq!(bisect_right(&x, -2), 0);
    assert_eq!(bisect_right(&x, 0), 0);
    assert_eq!(bisect_right(&x, 1), 0);
    assert_eq!(bisect_right(&x, 2), 1);
    assert_eq!(bisect_right(&x, 3), 1);
    assert_eq!(bisect_right(&x, 4), 2);
    assert_eq!(bisect_right(&x, 5), 2);
    assert_eq!(bisect_right(&x, 6), 2);
    assert_eq!(bisect_right(&x, 7), 2);
}

#[test]
fn bisection_by_comparator() {
    // Reverse-sorted data with a comparator implementing the matching
    // descending order.
    let x: Vec<i64> = vec![30, 20, 10, 0];
    let target: i64 = 15;
    let index = bisect_right_by(&x, |p: &i64| {
        if *p < target {
            Ordering::Greater
        } else if *p > target {
            Ordering::Less
        } else {
            Ordering::Equal
        }
    });
    assert_eq!(index, 1);
}

#[test]
fn test_interpolation_f64_multi() {
    // Coordinates are in half-units so that every sample argument and every
    // expected value is exactly representable.
    let spline =
        LinearSpline::from_points(&vec![(0, 0), (2, 2), (4, 0), (6, -2), (8, 0)]);

    assert_eq!(spline.value(0), 0);
    assert_eq!(spline.value(1), 1);
    assert_eq!(spline.value(2), 2);
    assert_eq!(spline.value(3), 1);
    assert_eq!(spline.value(4), 0);
    assert_eq!(spline.value(5), -1);
    assert_eq!(spline.value(6), -2);
    assert_eq!(spline.value(7), -1);
    assert_eq!(spline.value(8), 0);
}

#[test]
fn interpolation_two_points_is_a_straight_line() {
    let spline = LinearSpline::from_points(&vec![(1, 5), (5, 25)]);
    assert_eq!(spline.value(1), 5);
    assert_eq!(spline.value(2), 10);
    assert_eq!(spline.value(3), 15);
    assert_eq!(spline.value(4), 20);
    assert_eq!(spline.value(5), 25);
}

#[test]
fn extrapolation_continues_boundary_segments() {
    let spline = LinearSpline::from_points(&vec![(0, 0), (2, 2), (4, 2)]);
    // Below the range: the first segment has slope one.
    assert_eq!(spline.value(-3), -3);
    // Above the range: the last segment is flat.
    assert_eq!(spline.value(10), 2);
}

#[test]
fn interpolation_rounds_toward_negative_infinity() {
    let spline = LinearSpline::from_points(&vec![(0, 0), (3, 1)]);
    assert_eq!(spline.value(1), 0);
    assert_eq!(spline.value(2), 0);
    assert_eq!(spline.value(3), 1);

    let spline = LinearSpline::from_points(&vec![(0, 0), (3, -1)]);
    assert_eq!(spline.value(1), -1);
    assert_eq!(spline.value(2), -1);
    assert_eq!(spline.value(3), -1);
}

#[test]
fn spline_accessors_and_component_construction() {
    let args: Vec<i64> = vec![0, 10, 20];
    let vals: Vec<i64> = vec![5, -5, 15];
    let spline = LinearSpline::from_components(&args, &vals);
    assert_eq!(spline.args(), &vec![0, 10, 20]);
    assert_eq!(spline.vals(), &vec![5, -5, 15]);
    assert_eq!(spline.arg_min(), 0);
    assert_eq!(spline.arg_max(), 20);
}

#[test]
fn component_construction_ignores_surplus_entries() {
    let args: Vec<i64> = vec![0, 10, 20, 30];
    let vals: Vec<i64> = vec![1, 2];
    let spline = LinearSpline::from_components(&args, &vals);
    assert_eq!(spline.args(), &vec![0, 10]);
    assert_eq!(spline.vals(), &vec![1, 2]);
}

#[test]
fn iter_construction_matches_point_construction() {
    let points: Vec<(i64, i64)> = vec![(-4, 1), (0, 3), (4, 9)];
    let a = LinearSpline::from_iter(points.clone());
    let b = LinearSpline::from_points(&points);
    assert_eq!(a.args(), b.args());
    assert_eq!(a.vals(), b.vals());
    assert_eq!(a.value(-2), b.value(-2));
}

#[test]
fn angle_normalization() {
    // Input = output for angles in (-half turn, half turn].
    assert_eq!(normalize_angle(1000), 1000);
    assert_eq!(normalize_angle(-1000), -1000);
    assert_eq!(normalize_angle(ANGLE_HALF_TURN), ANGLE_HALF_TURN);
    assert_eq!(normalize_angle(-ANGLE_HALF_TURN + 1), -ANGLE_HALF_TURN + 1);

    // A negative half turn wraps around to the positive one.
    assert_eq!(normalize_angle(-ANGLE_HALF_TURN), ANGLE_HALF_TURN);

    // Invariance against adding or subtracting multiples of a full turn.
    assert_eq!(normalize_angle(1000 + ANGLE_FULL_TURN), 1000);
    assert_eq!(normalize_angle(1000 - ANGLE_FULL_TURN), 1000);
    assert_eq!(normalize_angle(-1000 + 3 * ANGLE_FULL_TURN), -1000);
    assert_eq!(normalize_angle(-1000 - 3 * ANGLE_FULL_TURN), -1000);
    assert_eq!(normalize_angle(ANGLE_HALF_TURN + ANGLE_FULL_TURN), ANGLE_HALF_TURN);
}

#[test]
fn extrapolation_choices_are_distinct() {
    assert_eq!(Extrapolation::Constant, Extrapolation::Constant);
    assert_ne!(Extrapolation::Constant, Extrapolation::Linear);
    assert_ne!(Extrapolation::Linear, Extrapolation::Cubic);
}
