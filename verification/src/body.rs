pub mod bounds;
pub mod transform;

use vstd::prelude::*;

use crate::Tick;
use bounds::{spec_overlap, Bounds};
use transform::Transform;

verus! {

/// Identifier of a body, unique among the live bodies of a registry.
pub type BodyID = u16;

/// Ghost snapshot of everything a body holds: its identity, its live
/// state, its bounding box, and its tick-indexed history. Registry-level
/// contracts quantify over these snapshots.
#[verifier::ext_equal]
pub struct BodyView {
    pub id: BodyID,
    pub start_tick: int,
    pub live: Transform,
    pub bounds: Bounds,
    pub records: Seq<Transform>,
}

impl BodyView {
    /// The record stored for `tick`, or the destroyed sentinel outside the
    /// recorded range.
    pub open spec fn record_at(self, tick: int) -> Transform {
        if self.start_tick <= tick < self.start_tick + self.records.len() {
            self.records[tick - self.start_tick]
        } else {
            Transform::spec_destroyed()
        }
    }

    /// The snapshot after replaying `tick`: only the live state moves.
    pub open spec fn after_apply(self, tick: int) -> BodyView {
        BodyView { live: self.record_at(tick), ..self }
    }

    /// The snapshot after removing every tick at or before `tick` and
    /// rebasing the survivors to tick 0; a cut strictly before the window
    /// changes nothing.
    pub open spec fn after_invalidate_before(self, tick: int) -> BodyView {
        if tick + 1 < self.start_tick {
            self
        } else {
            let keep_from = if tick + 1 - self.start_tick > self.records.len() {
                self.records.len() as int
            } else {
                tick + 1 - self.start_tick
            };
            BodyView { start_tick: 0, records: self.records.skip(keep_from), ..self }
        }
    }

    /// The snapshot after removing every tick at or after `tick`; the
    /// start tick is kept.
    pub open spec fn after_invalidate_after(self, tick: int) -> BodyView {
        let keep = if tick <= self.start_tick {
            0
        } else if tick - self.start_tick > self.records.len() {
            self.records.len() as int
        } else {
            tick - self.start_tick
        };
        BodyView { records: self.records.take(keep), ..self }
    }
}

/// An entity of the simulation: a live state record, a swept bounding box
/// derived from the state it was created with, and a dense per-tick cache
/// of past state records, so that any previously computed tick can be
/// replayed.
///
/// The cache entry at position `i` is the record for tick
/// `start_tick + i`; the sequence is dense, so a record exists for every
/// tick from `start_tick` through the last recorded tick and for no other.
#[derive(Debug)]
pub struct Body {
    pub transform: Transform,
    bounds: Bounds,
    id: BodyID,
    start_tick: Tick,
    cache: Vec<Transform>,
}

impl Body {
    pub closed spec fn spec_id(&self) -> BodyID {
        self.id
    }

    /// The live (currently visualized) state record, for use in contracts.
    pub closed spec fn spec_transform(&self) -> Transform {
        self.transform
    }

    pub closed spec fn spec_start_tick(&self) -> int {
        self.start_tick as int
    }

    pub closed spec fn spec_records(&self) -> Seq<Transform> {
        self.cache@
    }

    pub closed spec fn spec_bounds(&self) -> Bounds {
        self.bounds
    }

    /// The ghost snapshot of this body.
    pub open spec fn spec_view(&self) -> BodyView {
        BodyView {
            id: self.spec_id(),
            start_tick: self.spec_start_tick(),
            live: self.spec_transform(),
            bounds: self.spec_bounds(),
            records: self.spec_records(),
        }
    }

    /// The ticks of all cached records fit the tick counter, and the
    /// bounding box is well-formed.
    pub open spec fn wf(&self) -> bool {
        &&& self.spec_start_tick() + self.spec_records().len() <= usize::MAX + 1
        &&& self.spec_bounds().wf()
    }

    /// The last recorded tick; the start tick itself when nothing is
    /// cached yet.
    pub open spec fn spec_end_tick(&self) -> int {
        if self.spec_records().len() == 0 {
            self.spec_start_tick()
        } else {
            self.spec_start_tick() + self.spec_records().len() - 1
        }
    }

    /// A record exists for `tick`: the cache covers it.
    pub open spec fn spec_has_record(&self, tick: int) -> bool {
        self.spec_start_tick() <= tick < self.spec_start_tick() + self.spec_records().len()
    }

    /// The record stored for `tick`, or the destroyed sentinel for a tick
    /// before the body existed or after its last recorded tick.
    pub open spec fn spec_record_at(&self, tick: int) -> Transform {
        if self.spec_has_record(tick) {
            self.spec_records()[tick - self.spec_start_tick()]
        } else {
            Transform::spec_destroyed()
        }
    }

    /// Creates a body whose history starts at tick 0.
    pub fn new(id: BodyID, transform: Transform) -> (r: Body)
        requires
            transform.spec_in_bounds(),
        ensures
            r.wf(),
            r.spec_id() == id,
            r.spec_start_tick() == 0,
            r.spec_transform() == transform,
            r.spec_records() == seq![transform],
            r.spec_bounds().spec_matches_transform(transform),
    {
        Body::new_at_tick(id, 0, transform)
    }

    /// Creates a body whose history starts at the given tick, with the
    /// given transform recorded there and the bounding box derived from it.
    pub fn new_at_tick(id: BodyID, tick: Tick, transform: Transform) -> (r: Body)
        requires
            transform.spec_in_bounds(),
        ensures
            r.wf(),
            r.spec_id() == id,
            r.spec_start_tick() == tick,
            r.spec_transform() == transform,
            r.spec_records() == seq![transform],
            r.spec_bounds().spec_matches_transform(transform),
    {
        let mut body = Body {
            id,
            start_tick: tick,
            cache: Vec::new(),
            transform,
            bounds: Bounds::new(),
        };
        body.bounds.update(&transform);
        body.record_tick(&tick, transform);
        proof {
            assert(body.spec_records() =~= seq![transform]);
        }
        body
    }

    /// Do the bounding boxes of two bodies overlap one another?
    pub fn bounds_overlap(a: &Body, b: &Body) -> (r: bool)
        ensures
            r == spec_overlap(a.spec_bounds(), b.spec_bounds()),
    {
        Bounds::overlap(&a.bounds, &b.bounds)
    }

    /// Is the live state destroyed?
    pub fn destroyed(&self) -> (r: bool)
        ensures
            r == self.spec_transform().spec_is_destroyed(),
    {
        self.transform.is_destroyed()
    }

    pub fn id(&self) -> (r: &BodyID)
        ensures
            *r == self.spec_id(),
    {
        &self.id
    }

    pub fn start_tick(&self) -> (r: &Tick)
        ensures
            *r as int == self.spec_start_tick(),
    {
        &self.start_tick
    }

    /// How many ticks are currently recorded.
    pub fn cache_len(&self) -> (r: usize)
        ensures
            r == self.spec_records().len(),
    {
        self.cache.len()
    }

    pub fn end_tick(&self) -> (r: Tick)
        requires
            self.wf(),
        ensures
            r as int == self.spec_end_tick(),
    {
        let cache_length = self.cache.len();
        let cache_offset = if cache_length == 0 {
            0
        } else {
            cache_length - 1
        };
        self.start_tick + cache_offset
    }

    /// Replays `tick`: returns the record stored there (the destroyed
    /// sentinel when the tick is outside the recorded range) and makes it
    /// the live state. The history itself is never changed by replaying.
    pub fn apply_tick(&mut self, tick: &Tick) -> (r: Transform)
        ensures
            r == old(self).spec_record_at(*tick as int),
            final(self).spec_transform() == r,
            final(self).spec_records() == old(self).spec_records(),
            final(self).spec_start_tick() == old(self).spec_start_tick(),
            final(self).spec_id() == old(self).spec_id(),
            final(self).spec_bounds() == old(self).spec_bounds(),
            final(self).spec_view() == old(self).spec_view().after_apply(*tick as int),
    {
        let transform_at_tick = self.get_cache_data(tick);
        if self.transform != transform_at_tick {
            self.transform = transform_at_tick;
        }
        self.transform
    }

    /// Writes `transform` at `tick`: appends when `tick` is the next
    /// unrecorded tick, overwrites when `tick` is already recorded. A tick
    /// that would leave a gap, or lies before the start tick, is a caller
    /// error: the cache only ever grows by exactly one tick at a time.
    pub fn record_tick(&mut self, tick: &Tick, transform: Transform)
        requires
            old(self).wf(),
            old(self).spec_start_tick() <= *tick as int,
            *tick as int <= old(self).spec_start_tick() + old(self).spec_records().len(),
        ensures
            final(self).wf(),
            ({
                let start = old(self).spec_start_tick();
                let recs = old(self).spec_records();
                if *tick as int == start + recs.len() {
                    final(self).spec_records() == recs.push(transform)
                } else {
                    final(self).spec_records() == recs.update(*tick as int - start, transform)
                }
            }),
            final(self).spec_start_tick() == old(self).spec_start_tick(),
            final(self).spec_id() == old(self).spec_id(),
            final(self).spec_transform() == old(self).spec_transform(),
            final(self).spec_bounds() == old(self).spec_bounds(),
    {
        let cache_length = self.cache.len();
        let cache_index = self.get_cache_index(tick);
        if cache_length == 0 || cache_index == cache_length {
            self.cache.push(transform);
        } else {
            self.cache[cache_index] = transform;
        }
    }

    /// Records the current live state at the tick after the last recorded
    /// one (at the start tick when nothing is recorded yet).
    pub fn record_next_tick(&mut self)
        requires
            old(self).wf(),
            old(self).spec_start_tick() + old(self).spec_records().len() <= usize::MAX,
        ensures
            final(self).wf(),
            final(self).spec_records() == old(self).spec_records().push(old(self).spec_transform()),
            final(self).spec_start_tick() == old(self).spec_start_tick(),
            final(self).spec_id() == old(self).spec_id(),
            final(self).spec_transform() == old(self).spec_transform(),
            final(self).spec_bounds() == old(self).spec_bounds(),
    {
        let next_tick = self.cache.len() + self.start_tick;
        self.record_tick(&next_tick, self.transform);
    }

    /// Removes every recorded tick at or before `tick` and rebases the
    /// surviving records to start at tick 0. A cut strictly before the
    /// recorded window leaves the body untouched. Returns whether the cache
    /// was left empty, the signal that the body should be destroyed.
    pub fn invalidate_before(&mut self, tick: &Tick) -> (r: bool)
        requires
            old(self).wf(),
        ensures
            final(self).wf(),
            r == (final(self).spec_records().len() == 0),
            final(self).spec_id() == old(self).spec_id(),
            final(self).spec_transform() == old(self).spec_transform(),
            final(self).spec_bounds() == old(self).spec_bounds(),
            ({
                let start = old(self).spec_start_tick();
                let recs = old(self).spec_records();
                if *tick as int + 1 < start {
                    *final(self) == *old(self)
                } else {
                    let keep_from = if *tick as int + 1 - start > recs.len() {
                        recs.len() as int
                    } else {
                        *tick as int + 1 - start
                    };
                    &&& final(self).spec_records() == recs.skip(keep_from)
                    &&& final(self).spec_start_tick() == 0
                }
            }),
            final(self).spec_view() == old(self).spec_view().after_invalidate_before(
                *tick as int,
            ),
    {
        let t = *tick;
        if t < self.start_tick && self.start_tick - t > 1 {
            // The cut lies entirely before the recorded window.
            return self.cache.len() == 0;
        }
        let drop_count: usize = if t < self.start_tick {
            0
        } else {
            let offset = t - self.start_tick;
            if offset >= self.cache.len() {
                self.cache.len()
            } else {
                offset + 1
            }
        };
        let ghost original = self.cache@;
        let mut removed: usize = 0;
        while removed < drop_count
            invariant
                removed <= drop_count,
                drop_count <= original.len(),
                self.cache@ == original.skip(removed as int),
                self.id == old(self).id,
                self.transform == old(self).transform,
                self.bounds == old(self).bounds,
                self.start_tick == old(self).start_tick,
            decreases drop_count - removed,
        {
            self.cache.remove(0);
            removed = removed + 1;
            proof {
                assert(self.cache@ =~= original.skip(removed as int));
            }
        }
        self.start_tick = 0;
        self.cache.len() == 0
    }

    /// Removes every recorded tick at or after `tick`: the cut is exclusive,
    /// ticks strictly before `tick` survive and the start tick is kept.
    /// Returns whether the cache was left empty.
    pub fn invalidate_after(&mut self, tick: &Tick) -> (r: bool)
        requires
            old(self).wf(),
        ensures
            final(self).wf(),
            r == (final(self).spec_records().len() == 0),
            final(self).spec_id() == old(self).spec_id(),
            final(self).spec_transform() == old(self).spec_transform(),
            final(self).spec_bounds() == old(self).spec_bounds(),
            final(self).spec_start_tick() == old(self).spec_start_tick(),
            final(self).spec_records() == ({
                let start = old(self).spec_start_tick();
                let recs = old(self).spec_records();
                let keep = if *tick as int <= start {
                    0
                } else if *tick as int - start > recs.len() {
                    recs.len() as int
                } else {
                    *tick as int - start
                };
                recs.take(keep)
            }),
            final(self).spec_view() == old(self).spec_view().after_invalidate_after(
                *tick as int,
            ),
    {
        let t = *tick;
        if t < self.start_tick {
            self.cache.clear();
        } else {
            let final_index = t - self.start_tick;
            if final_index < self.cache.len() {
                self.cache.truncate(final_index);
            }
        }
        proof {
            let start = old(self).spec_start_tick();
            let recs = old(self).spec_records();
            let keep = if t as int <= start {
                0
            } else if t as int - start > recs.len() {
                recs.len() as int
            } else {
                t as int - start
            };
            assert(self.spec_records() =~= recs.take(keep));
        }
        self.cache.len() == 0
    }

    /// Offset of `tick` inside the cache. A tick before the start tick has
    /// no offset and is a caller error.
    fn get_cache_index(&self, tick: &Tick) -> (r: usize)
        requires
            self.spec_start_tick() <= *tick as int,
        ensures
            r as int == *tick as int - self.spec_start_tick(),
    {
        *tick - self.start_tick
    }

    /// The record stored at `tick`, or the destroyed sentinel when `tick`
    /// lies outside the recorded range. Never fails: scrubbing to a tick
    /// before a body's birth or after its destruction is valid.
    pub fn get_cache_data(&self, tick: &Tick) -> (r: Transform)
        ensures
            r == self.spec_record_at(*tick as int),
    {
        if *tick < self.start_tick {
            return Transform::destroyed();
        }
        let cache_index = self.get_cache_index(tick);
        if cache_index < self.cache.len() {
            self.cache[cache_index]
        } else {
            Transform::destroyed()
        }
    }
}

/// Two bodies are the same body exactly when they carry the same
/// identifier; state and history do not enter into body identity.
impl PartialEq for Body {
    fn eq(&self, other: &Body) -> (r: bool) {
        self.id == other.id
    }
}

impl vstd::std_specs::cmp::PartialEqSpecImpl for Body {
    open spec fn obeys_eq_spec() -> bool {
        true
    }

    open spec fn eq_spec(&self, other: &Body) -> bool {
        self.spec_id() == other.spec_id()
    }
}

/// Contiguity of the cache: a record exists for every tick from the start
/// tick through the end tick, and for no tick outside that window. Since
/// every operation describes the cache as one dense run of records, no
/// sequence of record or invalidate calls can open a gap.
pub proof fn lemma_contiguity(b: Body, tick: int)
    ensures
        b.spec_records().len() > 0 ==> (b.spec_has_record(tick) <==> b.spec_start_tick() <= tick
            <= b.spec_end_tick()),
        b.spec_records().len() == 0 ==> !b.spec_has_record(tick),
{
}

/// Replaying is idempotent: applying a tick never touches the history, so
/// applying the same tick a second time finds the same record and yields
/// the same live state, and the body does not change further.
pub proof fn lemma_apply_idempotent(b: Body, tick: int)
    ensures
        b.spec_view().after_apply(tick).record_at(tick) == b.spec_view().record_at(tick),
        b.spec_view().after_apply(tick).after_apply(tick) == b.spec_view().after_apply(tick),
{
}

/// A tick before the start tick or after the end tick resolves to the
/// destroyed sentinel rather than an error.
pub proof fn lemma_out_of_range_is_destroyed(b: Body, tick: int)
    requires
        tick < b.spec_start_tick() || tick > b.spec_end_tick(),
    ensures
        b.spec_record_at(tick) == Transform::spec_destroyed(),
{
}

} // verus!
