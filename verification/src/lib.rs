pub mod body;
pub mod integration;
pub mod vector;

pub use vector::V2;

use vstd::prelude::*;
use vstd::set_lib::*;

use body::transform::{Mass, Transform, MASS_MIN};
use body::{Body, BodyID, BodyView};
use integration::Integrator;

verus! {

/// A discrete simulation step counter: the unit of time for recording and
/// replaying body state.
pub type Tick = usize;

/// Gravity strength used when none is configured, in thousandths: the
/// conventional 9.8 units per tick squared.
pub const DEFAULT_GRAVITY: i64 = 9800;

/// Size of the body identifier space; creating a body beyond this is a
/// fatal condition, not a recoverable error.
pub const MAX_POSSIBLE_BODIES: usize = 65536;

/// The registry of a simulation: owns the collection of bodies keyed by
/// identifier, the gravity coefficient, and the tick currently being
/// visualized, and drives recording, replaying and invalidation across
/// all bodies.
#[derive(Debug)]
pub struct Simulation {
    bodies: Vec<Body>,
    g: i64,
    tick: Tick,
    integrator: Integrator,
}

impl Simulation {
    pub closed spec fn spec_bodies(&self) -> Seq<Body> {
        self.bodies@
    }

    pub closed spec fn spec_gravity(&self) -> i64 {
        self.g
    }

    pub closed spec fn spec_tick(&self) -> int {
        self.tick as int
    }

    /// The ghost snapshots of all bodies, in registry order.
    pub open spec fn spec_views(&self) -> Seq<BodyView> {
        self.spec_bodies().map_values(|b: Body| b.spec_view())
    }

    /// Some live body carries this identifier.
    pub open spec fn spec_id_used(&self, id: BodyID) -> bool {
        exists|i: int|
            0 <= i < self.spec_bodies().len() && self.spec_bodies()[i].spec_id() == id
    }

    /// Identifiers are unique among live bodies, and every body is
    /// well-formed.
    pub open spec fn wf(&self) -> bool {
        &&& forall|i: int, j: int|
            0 <= i < j < self.spec_bodies().len() ==> self.spec_bodies()[i].spec_id() != self.spec_bodies()[j].spec_id()
        &&& forall|i: int| 0 <= i < self.spec_bodies().len() ==> (#[trigger] self.spec_bodies()[i]).wf()
    }

    /// A simulation with the default gravity coefficient.
    pub fn new() -> (r: Simulation)
        ensures
            r.wf(),
            r.spec_bodies().len() == 0,
            r.spec_gravity() == DEFAULT_GRAVITY,
            r.spec_tick() == 0,
    {
        Simulation::new_with_gravity(DEFAULT_GRAVITY)
    }

    /// A simulation with a custom gravity coefficient; a negative
    /// coefficient is a caller error.
    pub fn new_with_gravity(g: i64) -> (r: Simulation)
        requires
            g >= 0,
        ensures
            r.wf(),
            r.spec_bodies().len() == 0,
            r.spec_gravity() == g,
            r.spec_tick() == 0,
    {
        Simulation { g, bodies: Vec::new(), tick: 0, integrator: Integrator::new() }
    }

    pub fn gravity(&self) -> (r: &i64)
        ensures
            *r == self.spec_gravity(),
    {
        &self.g
    }

    /// Creates a body from the given state, assigning the smallest unused
    /// identifier. Exhausting the identifier space is a fatal condition,
    /// excluded by contract, as is a mass below the minimum.
    pub fn create_body(&mut self, mass: Mass, position: V2, velocity: V2) -> (r: BodyID)
        requires
            old(self).wf(),
            old(self).spec_bodies().len() < MAX_POSSIBLE_BODIES,
            mass >= MASS_MIN,
            (Transform { position, velocity, mass }).spec_in_bounds(),
        ensures
            final(self).wf(),
            !old(self).spec_id_used(r),
            forall|id: BodyID| id < r ==> old(self).spec_id_used(id),
            final(self).spec_bodies().len() == old(self).spec_bodies().len() + 1,
            forall|i: int|
                0 <= i < old(self).spec_bodies().len() ==> final(self).spec_bodies()[i] == old(self).spec_bodies()[i],
            ({
                let b = final(self).spec_bodies().last();
                &&& b.spec_id() == r
                &&& b.spec_start_tick() == 0
                &&& b.spec_transform() == (Transform { position, velocity, mass })
                &&& b.spec_records() == seq![Transform { position, velocity, mass }]
            }),
            final(self).spec_tick() == old(self).spec_tick(),
            final(self).spec_gravity() == old(self).spec_gravity(),
    {
        let id = self.get_next_unused_body_id();
        let body = Body::new(id, Transform::new(mass, position, velocity));
        self.bodies.push(body);
        self.integrator.sync_bodies(&mut self.bodies);
        proof {
            let obs = old(self).spec_bodies();
            assert forall|i: int, j: int|
                0 <= i < j < self.spec_bodies().len() implies self.spec_bodies()[i].spec_id()
                != self.spec_bodies()[j].spec_id() by {
                if j == obs.len() {
                    assert(self.spec_bodies()[i] == obs[i]);
                    if self.spec_bodies()[i].spec_id() == id {
                        assert(old(self).spec_id_used(id));
                    }
                }
            }
        }
        id
    }

    /// Is some live body carrying this identifier?
    pub fn has_body(&self, id: &BodyID) -> (r: bool)
        ensures
            r == self.spec_id_used(*id),
    {
        let n = self.bodies.len();
        let mut i: usize = 0;
        while i < n
            invariant
                i <= n,
                n == self.spec_bodies().len(),
                forall|k: int| 0 <= k < i ==> self.spec_bodies()[k].spec_id() != *id,
            decreases n - i,
        {
            if *self.bodies[i].id() == *id {
                return true;
            }
            i = i + 1;
        }
        false
    }

    /// The live body with the given identifier, if any.
    pub fn body(&self, id: &BodyID) -> (r: Option<&Body>)
        ensures
            match r {
                Some(b) => self.spec_id_used(*id) && b.spec_id() == *id
                    && self.spec_bodies().contains(*b),
                None => !self.spec_id_used(*id),
            },
    {
        let n = self.bodies.len();
        let mut i: usize = 0;
        while i < n
            invariant
                i <= n,
                n == self.spec_bodies().len(),
                forall|k: int| 0 <= k < i ==> self.spec_bodies()[k].spec_id() != *id,
            decreases n - i,
        {
            if *self.bodies[i].id() == *id {
                return Some(&self.bodies[i]);
            }
            i = i + 1;
        }
        None
    }

    /// Mutable access to the live body with the given identifier, if any.
    /// The caller sees exactly how the registry changes: only the entry
    /// holding the returned body is replaced by whatever the caller leaves
    /// behind.
    pub fn body_mut(&mut self, id: &BodyID) -> (r: Option<&mut Body>)
        requires
            old(self).wf(),
        ensures
            final(self).spec_gravity() == old(self).spec_gravity(),
            final(self).spec_tick() == old(self).spec_tick(),
            match r {
                Some(b) => {
                    &&& old(self).spec_id_used(*id)
                    &&& exists|i: int|
                        {
                            &&& 0 <= i < old(self).spec_bodies().len()
                            &&& *b == old(self).spec_bodies()[i]
                            &&& (#[trigger] old(self).spec_bodies()[i]).spec_id() == *id
                            &&& final(self).spec_bodies() == old(self).spec_bodies().update(
                                i,
                                *final(b),
                            )
                        }
                },
                None => !old(self).spec_id_used(*id) && final(self).spec_bodies() == old(
                    self,
                ).spec_bodies(),
            },
    {
        let n = self.bodies.len();
        let mut i: usize = 0;
        while i < n
            invariant
                i <= n,
                n == self.spec_bodies().len(),
                *self == *old(self),
                forall|k: int| 0 <= k < i ==> self.spec_bodies()[k].spec_id() != *id,
            decreases n - i,
        {
            if *self.bodies[i].id() == *id {
                let b = body_at_mut(&mut self.bodies, i);
                return Some(b);
            }
            i = i + 1;
        }
        None
    }

    /// All live bodies, in registry order.
    pub fn bodies(&self) -> (r: &Vec<Body>)
        ensures
            r@ == self.spec_bodies(),
    {
        &self.bodies
    }

    /// Mutable access to the whole body collection. The registry's
    /// well-formedness is in the caller's hands until the borrow ends;
    /// later calls state it as a precondition again.
    pub fn bodies_mut(&mut self) -> (r: &mut Vec<Body>)
        ensures
            r@ == old(self).spec_bodies(),
            final(self).spec_bodies() == final(r)@,
            final(self).spec_gravity() == old(self).spec_gravity(),
            final(self).spec_tick() == old(self).spec_tick(),
    {
        &mut self.bodies
    }

    pub fn num_bodies(&self) -> (r: usize)
        ensures
            r == self.spec_bodies().len(),
    {
        self.bodies.len()
    }

    /// The smallest identifier no live body carries. One always exists
    /// while the registry holds fewer bodies than the identifier space.
    fn get_next_unused_body_id(&self) -> (r: BodyID)
        requires
            self.wf(),
            self.spec_bodies().len() < MAX_POSSIBLE_BODIES,
        ensures
            !self.spec_id_used(r),
            forall|id: BodyID| id < r ==> self.spec_id_used(id),
    {
        let n = self.bodies.len();
        let mut candidate: usize = 0;
        while candidate <= n
            invariant
                self.wf(),
                n == self.spec_bodies().len(),
                n < MAX_POSSIBLE_BODIES,
                candidate <= n + 1,
                forall|id: BodyID| (id as int) < candidate ==> self.spec_id_used(id),
            decreases n + 1 - candidate,
        {
            if !self.has_body(&(candidate as BodyID)) {
                return candidate as BodyID;
            }
            candidate = candidate + 1;
        }
        proof {
            // Every identifier in 0..=n is used, yet only n distinct
            // bodies exist: more identifiers than bodies, impossible.
            broadcast use vstd::seq_lib::seq_to_set_is_finite;

            let ids = self.spec_bodies().map_values(|b: Body| b.spec_id() as int);
            assert(ids.no_duplicates()) by {
                assert forall|i: int, j: int|
                    0 <= i < ids.len() && 0 <= j < ids.len() && i != j implies ids[i]
                    != ids[j] by {
                    if i < j {
                        assert(self.spec_bodies()[i].spec_id() != self.spec_bodies()[j].spec_id());
                    } else {
                        assert(self.spec_bodies()[j].spec_id() != self.spec_bodies()[i].spec_id());
                    }
                }
            }
            assert forall|v: int| 0 <= v < n + 1 implies ids.to_set().contains(v) by {
                let idv = v as BodyID;
                assert(self.spec_id_used(idv));
                let w = choose|i: int|
                    0 <= i < self.spec_bodies().len() && self.spec_bodies()[i].spec_id() == idv;
                assert(ids[w] == v);
                assert(ids.contains(v));
            }
            assert(set_int_range(0, n + 1).subset_of(ids.to_set()));
            ids.unique_seq_to_set();
            lemma_int_range(0, n as int + 1);
            lemma_len_subset(set_int_range(0, n as int + 1), ids.to_set());
            assert(false);
        }
        unreached()
    }

    /// The tick currently visualized by the simulation.
    pub fn get_tick(&self) -> (r: &Tick)
        ensures
            *r as int == self.spec_tick(),
    {
        &self.tick
    }

    /// Sets the tick currently being visualized: every body replays the
    /// record it stored at that tick (the destroyed sentinel outside its
    /// range); no history is changed.
    pub fn set_tick(&mut self, tick: &Tick)
        requires
            old(self).wf(),
        ensures
            final(self).wf(),
            final(self).spec_tick() == *tick as int,
            final(self).spec_gravity() == old(self).spec_gravity(),
            final(self).spec_views() == old(self).spec_views().map_values(
                |v: BodyView| v.after_apply(*tick as int),
            ),
    {
        let n = self.bodies.len();
        let mut i: usize = 0;
        while i < n
            invariant
                i <= n,
                n == self.spec_bodies().len(),
                n == old(self).spec_bodies().len(),
                self.g == old(self).g,
                self.tick == old(self).tick,
                forall|k: int| i <= k < n ==> self.spec_bodies()[k] == old(self).spec_bodies()[k],
                forall|k: int|
                    0 <= k < i ==> (#[trigger] self.spec_bodies()[k]).spec_view() == old(self).spec_bodies()[k].spec_view().after_apply(*tick as int),
                forall|k: int| 0 <= k < n ==> (#[trigger] self.spec_bodies()[k]).wf(),
                forall|k: int, l: int|
                    0 <= k < l < n ==> self.spec_bodies()[k].spec_id()
                        != self.spec_bodies()[l].spec_id(),
            decreases n - i,
        {
            let body = body_at_mut(&mut self.bodies, i);
            body.apply_tick(tick);
            i = i + 1;
        }
        self.tick = *tick;
        proof {
            assert(self.spec_views() =~= old(self).spec_views().map_values(
                |v: BodyView| v.after_apply(*tick as int),
            ));
        }
    }

    /// Advances the history of every body by one tick: each body records
    /// its current live state at the tick after its last recorded one.
    /// The visualized tick is not moved by recording.
    pub fn integrate(&mut self)
        requires
            old(self).wf(),
            forall|k: int|
                0 <= k < old(self).spec_bodies().len() ==> (#[trigger] old(self).spec_bodies()[k]).spec_start_tick() + old(self).spec_bodies()[k].spec_records().len()
                    <= usize::MAX,
        ensures
            final(self).wf(),
            final(self).spec_tick() == old(self).spec_tick(),
            final(self).spec_gravity() == old(self).spec_gravity(),
            final(self).spec_bodies().len() == old(self).spec_bodies().len(),
            forall|k: int|
                0 <= k < old(self).spec_bodies().len() ==> (#[trigger] final(self).spec_bodies()[k]).spec_view() == ({
                    let v = old(self).spec_bodies()[k].spec_view();
                    BodyView { records: v.records.push(v.live), ..v }
                }),
    {
        self.integrator.tick();
        let n = self.bodies.len();
        let mut i: usize = 0;
        while i < n
            invariant
                i <= n,
                n == self.spec_bodies().len(),
                n == old(self).spec_bodies().len(),
                self.g == old(self).g,
                self.tick == old(self).tick,
                forall|k: int| i <= k < n ==> self.spec_bodies()[k] == old(self).spec_bodies()[k],
                forall|k: int|
                    i <= k < n ==> (#[trigger] old(self).spec_bodies()[k]).spec_start_tick() + old(self).spec_bodies()[k].spec_records().len() <= usize::MAX,
                forall|k: int|
                    0 <= k < i ==> (#[trigger] self.spec_bodies()[k]).spec_view() == ({
                        let v = old(self).spec_bodies()[k].spec_view();
                        BodyView { records: v.records.push(v.live), ..v }
                    }),
                forall|k: int| 0 <= k < n ==> (#[trigger] self.spec_bodies()[k]).wf(),
                forall|k: int, l: int|
                    0 <= k < l < n ==> self.spec_bodies()[k].spec_id()
                        != self.spec_bodies()[l].spec_id(),
            decreases n - i,
        {
            let body = body_at_mut(&mut self.bodies, i);
            body.record_next_tick();
            i = i + 1;
        }
    }

    /// Removes cached records across every body, including and before the
    /// given tick. A body whose cache is emptied is removed from the
    /// registry; when the visualized tick is at or before the cut, the
    /// survivors replay the cut tick and the visualized tick moves there.
    pub fn invalidate_before(&mut self, tick: &Tick)
        requires
            old(self).wf(),
        ensures
            final(self).wf(),
            final(self).spec_gravity() == old(self).spec_gravity(),
            ({
                let pruned = prune(
                    old(self).spec_views().map_values(
                        |v: BodyView| v.after_invalidate_before(*tick as int),
                    ),
                );
                if old(self).spec_tick() <= *tick as int {
                    &&& final(self).spec_tick() == *tick as int
                    &&& final(self).spec_views() == pruned.map_values(
                        |v: BodyView| v.after_apply(*tick as int),
                    )
                } else {
                    &&& final(self).spec_tick() == old(self).spec_tick()
                    &&& final(self).spec_views() == pruned
                }
            }),
    {
        self.invalidate(tick, true);
        proof {
            assert(old(self).spec_views().map_values(
                |v: BodyView| spec_invalidated(v, *tick as int, true),
            ) =~= old(self).spec_views().map_values(
                |v: BodyView| v.after_invalidate_before(*tick as int),
            ));
        }
        if self.tick <= *tick {
            self.set_tick(tick);
        }
    }

    /// Removes cached records across every body at and after the given
    /// tick (the cut is exclusive: records strictly before it survive).
    /// A body whose cache is emptied is removed from the registry; when
    /// the visualized tick lies past the cut, the survivors replay the
    /// cut tick and the visualized tick moves back to it.
    pub fn invalidate_after(&mut self, tick: &Tick)
        requires
            old(self).wf(),
        ensures
            final(self).wf(),
            final(self).spec_gravity() == old(self).spec_gravity(),
            ({
                let pruned = prune(
                    old(self).spec_views().map_values(
                        |v: BodyView| v.after_invalidate_after(*tick as int),
                    ),
                );
                if old(self).spec_tick() > *tick as int {
                    &&& final(self).spec_tick() == *tick as int
                    &&& final(self).spec_views() == pruned.map_values(
                        |v: BodyView| v.after_apply(*tick as int),
                    )
                } else {
                    &&& final(self).spec_tick() == old(self).spec_tick()
                    &&& final(self).spec_views() == pruned
                }
            }),
    {
        self.invalidate(tick, false);
        proof {
            assert(old(self).spec_views().map_values(
                |v: BodyView| spec_invalidated(v, *tick as int, false),
            ) =~= old(self).spec_views().map_values(
                |v: BodyView| v.after_invalidate_after(*tick as int),
            ));
        }
        if self.tick > *tick {
            self.set_tick(tick);
        }
    }

    /// One invalidation sweep: every body is cut, and the bodies whose
    /// caches were emptied leave the registry.
    fn invalidate(&mut self, tick: &Tick, before: bool)
        requires
            old(self).wf(),
        ensures
            final(self).wf(),
            final(self).spec_tick() == old(self).spec_tick(),
            final(self).spec_gravity() == old(self).spec_gravity(),
            final(self).spec_views() == prune(
                old(self).spec_views().map_values(
                    |v: BodyView| spec_invalidated(v, *tick as int, before),
                ),
            ),
    {
        let ghost mapped = old(self).spec_views().map_values(
            |v: BodyView| spec_invalidated(v, *tick as int, before),
        );
        let n = self.bodies.len();
        let mut kept: Vec<Body> = Vec::new();
        let mut i: usize = 0;
        while i < n
            invariant
                i <= n,
                n == old(self).spec_bodies().len(),
                mapped == old(self).spec_views().map_values(
                    |v: BodyView| spec_invalidated(v, *tick as int, before),
                ),
                self.bodies@ == old(self).spec_bodies().skip(i as int),
                self.g == old(self).g,
                self.tick == old(self).tick,
                old(self).wf(),
                kept@.map_values(|b: Body| b.spec_view()) == prune(mapped.take(i as int)),
                forall|k: int| 0 <= k < kept@.len() ==> (#[trigger] kept@[k]).wf(),
                forall|k: int|
                    0 <= k < kept@.len() ==> exists|j: int|
                        0 <= j < i && (#[trigger] kept@[k]).spec_id() == old(
                            self,
                        ).spec_bodies()[j].spec_id(),
                forall|k1: int, k2: int|
                    0 <= k1 < k2 < kept@.len() ==> kept@[k1].spec_id() != kept@[k2].spec_id(),
            decreases n - i,
        {
            let mut body = self.bodies.remove(0);
            let ghost prev_kept = kept@;
            let erased = if before {
                body.invalidate_before(tick)
            } else {
                body.invalidate_after(tick)
            };
            if !erased {
                kept.push(body);
            }
            proof {
                assert(self.bodies@ =~= old(self).spec_bodies().skip(i + 1));
                assert(mapped.take(i + 1).drop_last() =~= mapped.take(i as int));
                assert(mapped.take(i + 1).last() == mapped[i as int]);
                assert(body.spec_view() == mapped[i as int]);
                if !erased {
                    assert(kept@.map_values(|b: Body| b.spec_view()) =~= prev_kept.map_values(
                        |b: Body| b.spec_view(),
                    ).push(body.spec_view()));
                    assert forall|k: int| 0 <= k < kept@.len() implies exists|j: int|
                        0 <= j < i + 1 && (#[trigger] kept@[k]).spec_id() == old(
                            self,
                        ).spec_bodies()[j].spec_id() by {
                        if k < prev_kept.len() {
                            let j0 = choose|j: int|
                                0 <= j < i && prev_kept[k].spec_id() == old(
                                    self,
                                ).spec_bodies()[j].spec_id();
                            assert(0 <= j0 < i + 1 && kept@[k].spec_id() == old(
                                self,
                            ).spec_bodies()[j0].spec_id());
                        } else {
                            assert(kept@[k].spec_id() == old(self).spec_bodies()[i as int].spec_id());
                        }
                    }
                }
            }
            i = i + 1;
        }
        self.bodies = kept;
        proof {
            assert(mapped.take(n as int) =~= mapped);
        }
    }
}

/// The snapshot a body is left with by one invalidation sweep: cut at or
/// before `tick` when `before` is set, at or after `tick` otherwise.
pub open spec fn spec_invalidated(v: BodyView, tick: int, before: bool) -> BodyView {
    if before {
        v.after_invalidate_before(tick)
    } else {
        v.after_invalidate_after(tick)
    }
}

/// The snapshots that survive an invalidation sweep: those whose cache
/// kept at least one record, in their original order. A body whose cache
/// was emptied is removed from the registry.
pub open spec fn prune(views: Seq<BodyView>) -> Seq<BodyView>
    decreases views.len(),
{
    if views.len() == 0 {
        Seq::empty()
    } else {
        let rest = prune(views.drop_last());
        if views.last().records.len() > 0 {
            rest.push(views.last())
        } else {
            rest
        }
    }
}

/// Mutable access to one body of a registry's collection; everything else
/// is left in place.
fn body_at_mut(bodies: &mut Vec<Body>, i: usize) -> (element: &mut Body)
    requires
        i < old(bodies).len(),
    ensures
        *element == old(bodies)@[i as int],
        final(bodies)@ == old(bodies)@.update(i as int, *final(element)),
{
    &mut bodies[i]
}

} // verus!
