use allerbees::geometry::{distance, distance_sq, nearest, nearest_distance, offset_along, offset_toward, Point};

#[test]
fn distances_round_down() {
    let a = Point::new(0, 0);
    assert_eq!(distance_sq(a, Point::new(3, 4)), 25);
    assert_eq!(distance(a, Point::new(3, 4)), 5);
    assert_eq!(distance(a, Point::new(1, 1)), 1);
    assert_eq!(distance(Point::new(-1_000_000_000, -1_000_000_000), Point::new(1_000_000_000, 1_000_000_000)), 2_828_427_124);
}

#[test]
fn nearest_point_first_of_ties() {
    let from = Point::new(0, 0);
    let pts = vec![Point::new(9, 0), Point::new(0, 2), Point::new(2, 0)];
    assert_eq!(nearest(from, &pts), Some(1));
    assert_eq!(nearest(from, &vec![]), None);
    assert_eq!(nearest_distance(from, &pts), Some(2));
    assert_eq!(nearest_distance(from, &vec![]), None);
}

#[test]
fn offsets_round_toward_zero() {
    let o = offset_toward(Point::new(0, 0), Point::new(-3, -4), 2);
    assert_eq!(o, Point::new(-1, -1));
    let none = offset_toward(Point::new(7, 7), Point::new(7, 7), 100);
    assert_eq!(none, Point::new(0, 0));
    let past = offset_toward(Point::new(0, 0), Point::new(0, 10), 25);
    assert_eq!(past, Point::new(0, 25));
}

#[test]
fn moves_have_the_length_of_the_step() {
    let vectors = [(1, 1), (3, 4), (-7, 2), (1, -1_000_000), (123_456, -654_321), (2_000_000_000, 2_000_000_000)];
    for (vx, vy) in vectors {
        for step in [1u64, 2, 80, 150, 999, 20_000, 4_294_967_295] {
            let o = offset_along(vx, vy, step);
            let len2 = (o.x as i128) * (o.x as i128) + (o.y as i128) * (o.y as i128);
            let s = step as i128;
            assert!(len2 <= s * s);
            let (ax, ay) = (o.x.abs() as i128 + 1, o.y.abs() as i128 + 1);
            assert!(ax * ax + ay * ay > s * s);
        }
    }
    assert_eq!(offset_along(0, 0, 50), Point::new(0, 0));
}
