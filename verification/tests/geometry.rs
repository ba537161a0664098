use bow_solver::geometry::{convex_envelope, Orientation, Point};

fn point(x: i64, y: i64) -> Point {
    Point { x, y }
}

#[test]
fn test_point_orientation() {
    assert_eq!(
        Orientation::from_points(&point(0, 0), &point(1, 0), &point(1, 1)),
        Orientation::LeftTurn
    );
    assert_eq!(
        Orientation::from_points(&point(0, 0), &point(0, 1), &point(1, 1)),
        Orientation::RightTurn
    );
    assert_eq!(
        Orientation::from_points(&point(0, 0), &point(1, 1), &point(2, 2)),
        Orientation::Collinear
    );
}

#[test]
fn test_convex_envelope() {
    let mut output: Vec<usize> = Vec::new();

    // Two points are always retained, no matter if left or right turn.
    let input = vec![point(0, 0), point(10, 0)];

    convex_envelope(&input, &mut output, Orientation::LeftTurn);
    assert_eq!(output, vec![0, 1]);

    convex_envelope(&input, &mut output, Orientation::RightTurn);
    assert_eq!(output, vec![0, 1]);

    // Three points that make a left turn are retained for left target
    // orientation and reduced to the first and last point for right target
    // orientation.
    let input = vec![point(0, 0), point(10, 0), point(10, 10)];

    convex_envelope(&input, &mut output, Orientation::LeftTurn);
    assert_eq!(output, vec![0, 1, 2]);

    convex_envelope(&input, &mut output, Orientation::RightTurn);
    assert_eq!(output, vec![0, 2]);

    // Three points that make a right turn are retained for right target
    // orientation and reduced to the first and last point for left target
    // orientation.
    let input = vec![point(0, 0), point(0, 10), point(10, 10)];

    convex_envelope(&input, &mut output, Orientation::RightTurn);
    assert_eq!(output, vec![0, 1, 2]);

    convex_envelope(&input, &mut output, Orientation::LeftTurn);
    assert_eq!(output, vec![0, 2]);

    // Three collinear points are reduced to the first and last for any
    // target orientation.
    let input = vec![point(0, 0), point(5, 5), point(10, 10)];

    convex_envelope(&input, &mut output, Orientation::LeftTurn);
    assert_eq!(output, vec![0, 2]);

    convex_envelope(&input, &mut output, Orientation::RightTurn);
    assert_eq!(output, vec![0, 2]);

    // Curves with left and right turns are reduced to a subset according to
    // the target orientation.
    let input = vec![
        point(0, 0),
        point(5, -1),
        point(10, 0),
        point(15, 5),
        point(20, 10),
        point(25, 11),
        point(30, 10),
    ];

    convex_envelope(&input, &mut output, Orientation::LeftTurn);
    assert_eq!(output, vec![0, 1, 2, 6]);

    convex_envelope(&input, &mut output, Orientation::RightTurn);
    assert_eq!(output, vec![0, 4, 5, 6]);
}

#[test]
fn envelope_output_is_overwritten() {
    let mut output: Vec<usize> = vec![7, 7, 7, 7, 7];
    let input = vec![point(0, 0), point(1, 0)];
    convex_envelope(&input, &mut output, Orientation::LeftTurn);
    assert_eq!(output, vec![0, 1]);
}

#[test]
fn envelope_zigzag_keeps_turning_subset() {
    // A sawtooth: for a left-turn target only the collinear base line
    // remains, which is itself reduced to its endpoints.
    let input = vec![point(0, 0), point(1, 2), point(2, 0), point(3, 2), point(4, 0)];
    let mut output: Vec<usize> = Vec::new();

    convex_envelope(&input, &mut output, Orientation::LeftTurn);
    assert_eq!(output, vec![0, 4]);

    convex_envelope(&input, &mut output, Orientation::RightTurn);
    assert_eq!(output, vec![0, 1, 3, 4]);
}
