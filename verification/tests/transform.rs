use nbody_core::body::transform::{Transform, MASS_MIN};
use nbody_core::vector::V2;

#[test]
fn transform_destroyed() {
    let destroyed_transform = Transform::destroyed();

    assert_eq!(destroyed_transform.mass, 0);
    assert_eq!(destroyed_transform.position, V2::zero());
    assert_eq!(destroyed_transform.velocity, V2::zero());
}

#[test]
fn is_destroyed() {
    let destroyed_transform = Transform::destroyed();
    assert_eq!(destroyed_transform.is_destroyed(), true);

    let transform = Transform::new(10, V2::zero(), V2::zero());
    assert_eq!(transform.is_destroyed(), false);
}

#[test]
fn radius() {
    let transform = Transform::new(10, V2::zero(), V2::zero());
    assert_ne!(transform.radius(), 0);

    let destroyed_transform = Transform::destroyed();
    assert_eq!(destroyed_transform.radius(), 0);
}

#[test]
fn radius_values() {
    // radius = 1 + floor(cbrt(mass)) for a live record
    assert_eq!(Transform::new(1, V2::zero(), V2::zero()).radius(), 2);
    assert_eq!(Transform::new(7, V2::zero(), V2::zero()).radius(), 2);
    assert_eq!(Transform::new(8, V2::zero(), V2::zero()).radius(), 3);
    assert_eq!(Transform::new(10, V2::zero(), V2::zero()).radius(), 3);
    assert_eq!(Transform::new(27, V2::zero(), V2::zero()).radius(), 4);
    assert_eq!(Transform::new(1000000, V2::zero(), V2::zero()).radius(), 101);
}

#[test]
fn destroyed_predicate() {
    // below the minimum mass: destroyed, radius zero
    let mut t = Transform::destroyed();
    assert!(t.mass < MASS_MIN);
    assert!(t.is_destroyed());
    assert_eq!(t.radius(), 0);

    // at or above the minimum mass: never destroyed, radius positive
    t.mass = MASS_MIN;
    assert!(!t.is_destroyed());
    assert!(t.radius() > 0);

    t.mass = 100;
    assert!(!t.is_destroyed());
    assert!(t.radius() > 0);
}
