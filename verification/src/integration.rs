use vstd::prelude::*;

use crate::body::Body;

verus! {

/// Hook point for the per-tick physics passes (collision detection, force
/// accumulation, force application). Those passes are external
/// collaborators of the state engine: the spec of this engine covers only
/// the interface an orchestrator drives, so the integrator's operations
/// are observationally inert, and its contracts guarantee that it leaves
/// the registry untouched.
#[derive(Debug)]
pub struct Integrator {
}

impl Integrator {
    pub fn new() -> (r: Integrator) {
        Integrator {  }
    }

    /// Called whenever the registry's body collection changes. The
    /// integrator keeps no per-body bookkeeping, so the bodies are left
    /// exactly as they are.
    pub fn sync_bodies(&mut self, bodies: &mut Vec<Body>)
        ensures
            *final(bodies) == *old(bodies),
    {
    }

    /// Runs one integration pass. The physics itself lives with the
    /// outside collaborators, so the pass touches nothing of the engine.
    pub fn tick(&mut self) {
    }
}

} // verus!
