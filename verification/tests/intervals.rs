use bow_solver::intervals::{Bound, Interval};

#[test]
fn test_bound_equality() {
    assert_eq!(Bound::Inclusive(0), Bound::Inclusive(0)); // Equal: Same type and same value
    assert_eq!(Bound::Exclusive(0), Bound::Exclusive(0)); // Equal: Same type and same value

    assert_ne!(Bound::Inclusive(0), Bound::Inclusive(1)); // Not equal: Same type and different value
    assert_ne!(Bound::Exclusive(0), Bound::Exclusive(1)); // Not equal: Same type and different value

    assert_ne!(Bound::Inclusive(0), Bound::Exclusive(0)); // Not equal: Different type and same value
    assert_ne!(Bound::Inclusive(0), Bound::Exclusive(1)); // Not equal: Different type and different value
}

#[test]
fn test_bound_ordering() {
    assert!(Bound::Inclusive(0) < Bound::Inclusive(1)); // Same type, different values
    assert!(Bound::Inclusive(1) > Bound::Inclusive(0)); // Same type, different values

    assert!(Bound::Exclusive(0) < Bound::Exclusive(1)); // Same type, different values
    assert!(Bound::Exclusive(1) > Bound::Exclusive(0)); // Same type, different values

    assert!(Bound::Inclusive(0) < Bound::Exclusive(0)); // Same value, different types
    assert!(Bound::Exclusive(0) > Bound::Inclusive(0)); // Same value, different types
}

#[test]
fn test_interval_union() {
    // Coordinates in half-units of the original relative lengths.
    let intervals = vec![
        Interval { lower: Bound::Inclusive(1), upper: Bound::Inclusive(3) },
        Interval { lower: Bound::Inclusive(4), upper: Bound::Inclusive(6) },
        Interval { lower: Bound::Inclusive(0), upper: Bound::Inclusive(2) },
    ];

    let result = Interval::left_union(intervals);
    assert_eq!(result, Interval { lower: Bound::Inclusive(0), upper: Bound::Inclusive(3) });
}

#[test]
fn interval_constructors_and_intersection() {
    let a = Interval::inclusive(0, 2);
    let b = Interval::inclusive(2, 4);
    let d = Interval::exclusive(2, 4);
    assert_eq!(a.lower, Bound::Inclusive(0));
    assert_eq!(d.upper, Bound::Exclusive(4));

    // Two inclusive bounds of the same value share that point.
    assert!(a.intersects(&b));
    assert!(b.intersects(&a));

    // An exclusive lower bound at the other's inclusive upper bound does
    // not: the shared value belongs to only one of them.
    assert!(!a.intersects(&d));

    // Disjoint intervals do not intersect.
    let c = Interval::inclusive(5, 6);
    assert!(!a.intersects(&c));
}

#[test]
fn left_union_stops_at_a_gap() {
    let intervals = vec![
        Interval::inclusive(0, 1),
        Interval::inclusive(3, 4),
        Interval::inclusive(1, 2),
    ];
    let result = Interval::left_union(intervals);
    assert_eq!(result, Interval::inclusive(0, 2));

    let single = vec![Interval::exclusive(7, 9)];
    assert_eq!(Interval::left_union(single), Interval::exclusive(7, 9));
}
