use nbody_core::body::BodyID;
use nbody_core::vector::V2;
use nbody_core::{Simulation, DEFAULT_GRAVITY};

#[test]
fn new_default() {
    let sim = Simulation::new();
    assert_eq!(*sim.gravity(), DEFAULT_GRAVITY);
}

#[test]
fn create_body() {
    let mut sim = Simulation::new();
    let body_id1 = sim.create_body(70, V2::zero(), V2::zero());

    assert!(sim.has_body(&body_id1));
    assert_eq!(sim.num_bodies(), 1);

    let body_id2 = sim.create_body(50, V2::zero(), V2::zero());
    assert_ne!(body_id1, body_id2);

    assert!(sim.has_body(&body_id2));
    assert_eq!(sim.num_bodies(), 2);
}

#[test]
fn get_body() {
    let mut sim = Simulation::new();

    let body1_id = sim.create_body(50, V2::zero(), V2::zero());

    if let Some(body1) = sim.body(&body1_id) {
        assert_eq!(*body1.id(), body1_id);
    } else {
        panic!("get_body did not get Body with id {}", body1_id)
    }
}

#[test]
fn has_body() {
    let mut sim = Simulation::new();

    let body1_id = sim.create_body(100, V2::zero(), V2::zero());
    assert!(sim.has_body(&body1_id));

    let bad_id: BodyID = 1337;
    assert!(!sim.has_body(&bad_id));
}

#[test]
fn num_bodies() {
    let mut sim = Simulation::new();
    assert_eq!(sim.num_bodies(), 0);

    sim.create_body(100, V2::zero(), V2::zero());
    assert_eq!(sim.num_bodies(), 1);
}

#[test]
fn new_with_custom_gravity() {
    let sim = Simulation::new_with_gravity(0);
    assert_eq!(*sim.gravity(), 0);
    assert_eq!(*sim.get_tick(), 0);
    assert_eq!(sim.num_bodies(), 0);
}

#[test]
fn smallest_unused_id_is_assigned() {
    let mut sim = Simulation::new();
    let id0 = sim.create_body(10, V2::zero(), V2::zero());
    let id1 = sim.create_body(10, V2::zero(), V2::zero());
    let id2 = sim.create_body(10, V2::zero(), V2::zero());
    assert_eq!(id0, 0);
    assert_eq!(id1, 1);
    assert_eq!(id2, 2);

    // removing every body frees the identifiers for reuse, smallest first
    sim.invalidate_before(&0);
    assert_eq!(sim.num_bodies(), 0);
    let reused = sim.create_body(10, V2::zero(), V2::zero());
    assert_eq!(reused, 0);
}

#[test]
fn set_tick_replays_recorded_state() {
    let mut sim = Simulation::new();
    let id = sim.create_body(10, V2::zero(), V2::zero());

    // advance two ticks, moving the body by hand in between
    for step in 1i64..3 {
        if let Some(body) = sim.body_mut(&id) {
            body.transform.position.x = step;
        } else {
            panic!("body {} disappeared", id)
        }
        sim.integrate();
    }

    sim.set_tick(&1);
    assert_eq!(*sim.get_tick(), 1);
    let body = sim.body(&id).expect("body still lives");
    assert_eq!(body.transform.position, V2::new(1, 0));

    sim.set_tick(&0);
    let body = sim.body(&id).expect("body still lives");
    assert_eq!(body.transform.position, V2::zero());
}

#[test]
fn registry_invalidate_after_clamps_tick() {
    let mut sim = Simulation::new();
    let id = sim.create_body(10, V2::zero(), V2::zero());

    for step in 1i64..4 {
        if let Some(body) = sim.body_mut(&id) {
            body.transform.position.x = step;
        } else {
            panic!("body {} disappeared", id)
        }
        sim.integrate();
    }
    sim.set_tick(&3);
    assert_eq!(*sim.get_tick(), 3);

    // cutting at tick 2 keeps ticks 0 and 1 and pulls the visualized
    // tick back to the cut
    sim.invalidate_after(&2);
    assert_eq!(*sim.get_tick(), 2);
    let body = sim.body(&id).expect("body still lives");
    assert_eq!(body.cache_len(), 2);
    assert_eq!(*body.start_tick(), 0);

    // cutting at tick 0 empties every cache and removes the body
    sim.invalidate_after(&0);
    assert_eq!(sim.num_bodies(), 0);
    assert!(!sim.has_body(&id));
}

#[test]
fn registry_invalidate_before_removes_emptied() {
    let mut sim = Simulation::new();
    let id_a = sim.create_body(10, V2::zero(), V2::zero());
    let id_b = sim.create_body(20, V2::zero(), V2::zero());

    // give one body a second tick, so the cut empties only the other
    sim.integrate();
    if let Some(body) = sim.body_mut(&id_b) {
        let erased = body.invalidate_after(&1);
        assert!(!erased);
    } else {
        panic!("body {} disappeared", id_b)
    }

    sim.invalidate_before(&0);
    assert!(sim.has_body(&id_a));
    assert!(!sim.has_body(&id_b));
    assert_eq!(sim.num_bodies(), 1);
}
