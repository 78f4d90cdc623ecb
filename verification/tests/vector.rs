use pong::vector::Vec2;

#[test]
fn new_keeps_the_components() {
    let v = Vec2::new(-3, 9);
    assert_eq!(v.x, -3);
    assert_eq!(v.y, 9);
    assert_eq!(v, Vec2 { x: -3, y: 9 });
}

#[test]
fn plus_adds_component_by_component() {
    let v = Vec2::new(1, 2).plus(Vec2::new(30, -40));
    assert_eq!(v, Vec2 { x: 31, y: -38 });
}

#[test]
fn plus_saturates_each_component_alone() {
    let v = Vec2::new(i64::MAX, i64::MIN).plus(Vec2::new(1, -1));
    assert_eq!(v, Vec2 { x: i64::MAX, y: i64::MIN });
    let w = Vec2::new(i64::MAX, 5).plus(Vec2::new(1, 1));
    assert_eq!(w, Vec2 { x: i64::MAX, y: 6 });
}

#[test]
fn times_stretches_both_components() {
    assert_eq!(Vec2::new(600, -800).times(5), Vec2 { x: 3000, y: -4000 });
    assert_eq!(Vec2::new(600, -800).times(0), Vec2 { x: 0, y: 0 });
    assert_eq!(Vec2::new(i64::MAX, i64::MIN).times(5), Vec2 { x: i64::MAX, y: i64::MIN });
}

#[test]
fn opposes_is_a_negative_dot_product() {
    let right = Vec2::new(1000, 0);
    let left = Vec2::new(-1000, 0);
    assert!(Vec2::new(-5000, 0).opposes(right));
    assert!(!Vec2::new(5000, 0).opposes(right));
    assert!(Vec2::new(5000, 0).opposes(left));
    assert!(!Vec2::new(-5000, 3000).opposes(left));
    assert!(Vec2::new(-1, 4999).opposes(right));
}

#[test]
fn opposes_is_false_at_a_right_angle() {
    assert!(!Vec2::new(0, 5000).opposes(Vec2::new(1000, 0)));
    assert!(!Vec2::new(0, 0).opposes(Vec2::new(1000, 0)));
    assert!(!Vec2::new(3, 4).opposes(Vec2::new(4, -3)));
}

#[test]
fn opposes_weighs_both_components() {
    assert!(Vec2::new(3, -4).opposes(Vec2::new(1, 1)));
    assert!(!Vec2::new(4, -3).opposes(Vec2::new(1, 1)));
}

#[test]
fn opposes_is_exact_at_the_extremes() {
    let least = Vec2::new(i64::MIN, i64::MIN);
    let greatest = Vec2::new(i64::MAX, i64::MAX);
    assert!(!least.opposes(least));
    assert!(least.opposes(greatest));
    assert!(greatest.opposes(least));
    assert!(!greatest.opposes(greatest));
    assert!(!Vec2::new(i64::MIN, i64::MAX).opposes(Vec2::new(i64::MIN, i64::MIN + 1)));
    assert!(Vec2::new(i64::MIN, i64::MAX).opposes(Vec2::new(i64::MAX, i64::MIN)));
}
