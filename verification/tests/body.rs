use nbody_core::body::transform::Transform;
use nbody_core::body::{Body, BodyID};
use nbody_core::vector::V2;
use nbody_core::Tick;

#[test]
fn id() {
    let id: BodyID = 10;
    let body = Body::new(id, Transform::new(100, V2::zero(), V2::zero()));

    assert_eq!(body.id(), &id);
}

#[test]
fn start_tick() {
    let id: BodyID = 5;
    let start_tick: Tick = 100;

    let body = Body::new_at_tick(id, start_tick, Transform::new(50, V2::zero(), V2::zero()));

    assert_eq!(body.start_tick(), &start_tick);
}

#[test]
fn body_destroyed() {
    let mut body = Body::new(0, Transform::new(50, V2::zero(), V2::zero()));
    assert_eq!(body.destroyed(), false);

    body.transform.mass = 0;
    assert_eq!(body.destroyed(), true);
}

#[test]
fn new_at_tick() {
    let id: BodyID = 10;
    let tick: Tick = 10;

    let transform = Transform::new(10, V2::zero(), V2::zero());
    let body = Body::new_at_tick(id, tick, transform);

    assert_eq!(body.id(), &id);
    assert_eq!(body.start_tick(), &tick);
    assert_eq!(body.transform, transform);
}

#[test]
fn record_and_apply_tick() {
    let t1 = Transform::new(10, V2::zero(), V2::zero());
    let t2 = Transform::new(10, V2::new(0, 1), V2::zero());

    let mut body = Body::new(0, t1);

    body.record_tick(&1, t2);
    assert_eq!(body.transform, t1);

    body.apply_tick(&1);
    assert_eq!(body.transform, t2);
}

#[test]
fn invalidate_before() {
    const TEST_CACHE_SIZE: usize = 4;
    const FIRST_TICK: Tick = 10;
    const LAST_TICK: Tick = FIRST_TICK + TEST_CACHE_SIZE;
    const TICKS_TO_REMOVE: Tick = 2;

    // cache a bunch of transforms
    let mut body = Body::new_at_tick(0, FIRST_TICK, Transform::new(10, V2::zero(), V2::zero()));

    for _i in 1..TEST_CACHE_SIZE {
        body.transform.position.x += 1;
        body.record_next_tick();
    }

    let first_position_after_invalidate =
        body.get_cache_data(&(FIRST_TICK + TICKS_TO_REMOVE)).position;

    let before = FIRST_TICK + (TICKS_TO_REMOVE - 1); // -1 because invalidate_before is inclusive
    let mut was_deleted = body.invalidate_before(&before);

    // check that invalidated transforms are removed (survivors rebase to tick 0)
    assert_eq!(body.get_cache_data(&0).position, first_position_after_invalidate);
    assert_eq!(body.cache_len(), TEST_CACHE_SIZE - TICKS_TO_REMOVE);
    assert_eq!(was_deleted, false);

    // check that cache is cleared if invalidated out of range
    was_deleted = body.invalidate_before(&LAST_TICK);

    assert_eq!(body.cache_len(), 0);
    assert_eq!(was_deleted, true);
}

#[test]
fn invalidate_after() {
    const TEST_CACHE_SIZE: usize = 4;
    const FIRST_TICK: Tick = 10;
    const LAST_TICK: Tick = FIRST_TICK + TEST_CACHE_SIZE;
    const TICKS_TO_REMOVE: Tick = 2;

    // cache a bunch of transforms
    let mut body = Body::new_at_tick(0, FIRST_TICK, Transform::new(10, V2::zero(), V2::zero()));
    for _i in 1..TEST_CACHE_SIZE {
        body.transform.position.x += 1;
        body.record_next_tick();
    }

    let last_position_after_invalidate = body
        .get_cache_data(&(FIRST_TICK + TEST_CACHE_SIZE - (TICKS_TO_REMOVE + 1)))
        .position;

    // check that invalidated transforms are removed
    let after = LAST_TICK - TICKS_TO_REMOVE;

    let mut was_deleted = body.invalidate_after(&after);
    assert_eq!(body.get_cache_data(&body.end_tick()).position, last_position_after_invalidate);
    assert_eq!(body.cache_len(), TEST_CACHE_SIZE - TICKS_TO_REMOVE);
    assert_eq!(was_deleted, false);

    was_deleted = body.invalidate_after(&FIRST_TICK);
    assert_eq!(body.cache_len(), 0);
    assert_eq!(was_deleted, true);
}

#[test]
fn invalidate_before_window() {
    // ticks 10..=13 populated: the inclusive cut at 11 keeps exactly the
    // records of ticks 12 and 13
    let mut body = Body::new_at_tick(0, 10, Transform::new(10, V2::new(12, 0), V2::zero()));
    for i in 1i64..4 {
        body.transform.position.x = 12 + i;
        body.record_next_tick();
    }

    let was_deleted = body.invalidate_before(&11);
    assert_eq!(was_deleted, false);
    assert_eq!(body.cache_len(), 2);
    assert_eq!(body.get_cache_data(&0).position.x, 14);
    assert_eq!(body.get_cache_data(&1).position.x, 15);

    // a cut at or past the last tick empties the cache and reports erasure
    let mut other = Body::new_at_tick(0, 10, Transform::new(10, V2::zero(), V2::zero()));
    for _i in 1usize..4 {
        other.record_next_tick();
    }
    assert_eq!(other.invalidate_before(&13), true);
    assert_eq!(other.cache_len(), 0);
}

#[test]
fn invalidate_after_window() {
    // ticks 10..=13 populated: the exclusive cut at 12 keeps exactly
    // ticks 10 and 11
    let mut body = Body::new_at_tick(0, 10, Transform::new(10, V2::new(20, 0), V2::zero()));
    for i in 1i64..4 {
        body.transform.position.x = 20 + i;
        body.record_next_tick();
    }

    let was_deleted = body.invalidate_after(&12);
    assert_eq!(was_deleted, false);
    assert_eq!(body.cache_len(), 2);
    assert_eq!(*body.start_tick(), 10);
    assert_eq!(body.get_cache_data(&10).position.x, 20);
    assert_eq!(body.get_cache_data(&11).position.x, 21);

    // the first tick is itself excluded: cutting there keeps nothing
    let mut other = Body::new_at_tick(0, 10, Transform::new(10, V2::zero(), V2::zero()));
    for _i in 1usize..4 {
        other.record_next_tick();
    }
    assert_eq!(other.invalidate_after(&10), true);
    assert_eq!(other.cache_len(), 0);
}

#[test]
fn apply_is_idempotent_and_degrades() {
    let t0 = Transform::new(10, V2::zero(), V2::zero());
    let t1 = Transform::new(10, V2::new(1, 0), V2::zero());

    let mut body = Body::new(0, t0);
    body.record_tick(&1, t1);

    // applying the same tick twice yields the same live state both times
    let first = body.apply_tick(&1);
    let second = body.apply_tick(&1);
    assert_eq!(first, t1);
    assert_eq!(second, t1);

    // one past the end, and anything before the start, give the destroyed
    // sentinel: zero mass, zero kinematics
    let past = body.apply_tick(&2);
    assert_eq!(past.mass, 0);
    assert_eq!(past.position, V2::zero());
    assert_eq!(past.velocity, V2::zero());

    let mut late = Body::new_at_tick(0, 5, Transform::new(10, V2::zero(), V2::zero()));
    let early = late.apply_tick(&4);
    assert_eq!(early.mass, 0);
    assert!(early.is_destroyed());
}

#[test]
fn end_to_end_scenario() {
    // a body at tick 0, mass 10, at rest at the origin
    let mut body = Body::new(0, Transform::new(10, V2::zero(), V2::zero()));

    // three ticks of recording, the position advancing by (1, 0) each tick
    for _i in 0usize..3 {
        body.transform.position.x += 1;
        body.record_next_tick();
    }
    assert_eq!(body.transform.position, V2::new(3, 0));

    // replaying tick 1 yields the position recorded there
    let applied = body.apply_tick(&1);
    assert_eq!(applied.position, V2::new(1, 0));

    // the inclusive cut at tick 1 keeps two records, rebased to tick 0,
    // and reports no erasure
    let erased = body.invalidate_before(&1);
    assert_eq!(erased, false);
    assert_eq!(*body.start_tick(), 0);
    assert_eq!(body.cache_len(), 2);
    assert_eq!(body.get_cache_data(&0).position, V2::new(2, 0));
    assert_eq!(body.get_cache_data(&1).position, V2::new(3, 0));
}
