use vstd::prelude::*;

use crate::vector::V2;

verus! {

/// Mass of a body, in integer simulation units.
pub type Mass = i64;

/// Smallest mass a live (non-destroyed) state record may carry.
/// A record below this threshold counts as destroyed.
pub const MASS_MIN: Mass = 1;

/// Base collision radius granted to every live body on top of the
/// cube root of its mass.
pub const RADIUS_MIN: Mass = 1;

/// Largest coordinate magnitude the spatial-bound arithmetic accepts.
/// Positions and velocities within this range can be combined with any
/// collision radius without overflowing a 64-bit signed value.
pub const COORD_LIMIT: i64 = 0x1000_0000_0000_0000;

/// Upper bound on any cube root of a 64-bit mass: the cube of this value
/// already exceeds `i64::MAX`.
pub const CUBE_ROOT_CAP: i64 = 0x20_0000;

pub open spec fn cube(r: int) -> int {
    r * r * r
}

/// `r` is the integer cube root of `m`, rounded toward zero.
pub open spec fn is_cube_root_floor(r: int, m: int) -> bool {
    0 <= r && cube(r) <= m < cube(r + 1)
}

/// The integer cube root of `m`; meaningful for `m >= 0`, where
/// `lemma_cube_root_floor_exists` shows the characterization holds.
pub open spec fn cube_root_floor(m: int) -> int {
    choose|r: int| is_cube_root_floor(r, m)
}

pub proof fn lemma_cube_strictly_monotone(a: int, b: int)
    requires
        0 <= a < b,
    ensures
        cube(a) < cube(b),
{
    assert(a * a * a < b * b * b) by (nonlinear_arith)
        requires
            0 <= a < b,
    ;
}

pub proof fn lemma_cube_monotone(a: int, b: int)
    requires
        0 <= a <= b,
    ensures
        cube(a) <= cube(b),
{
    if a < b {
        lemma_cube_strictly_monotone(a, b);
    }
}

pub proof fn lemma_cube_root_floor_exists(m: int)
    requires
        m >= 0,
    ensures
        is_cube_root_floor(cube_root_floor(m), m),
    decreases m,
{
    if m == 0 {
        assert(is_cube_root_floor(0, 0));
    } else {
        lemma_cube_root_floor_exists(m - 1);
        let r = cube_root_floor(m - 1);
        if m < cube(r + 1) {
            assert(is_cube_root_floor(r, m));
        } else {
            lemma_cube_strictly_monotone(r + 1, r + 2);
            assert(is_cube_root_floor(r + 1, m));
        }
    }
}

pub proof fn lemma_cube_root_floor_unique(r: int, m: int)
    requires
        is_cube_root_floor(r, m),
    ensures
        r == cube_root_floor(m),
{
    let w = cube_root_floor(m);
    assert(is_cube_root_floor(w, m));
    if r < w {
        lemma_cube_monotone(r + 1, w);
        assert(cube(r + 1) <= cube(w));
    }
    if w < r {
        lemma_cube_monotone(w + 1, r);
        assert(cube(w + 1) <= cube(r));
    }
}

/// Integer cube root by bisection: the unique `r` with
/// `r^3 <= m < (r+1)^3`.
fn cube_root(m: i64) -> (r: i64)
    requires
        m >= 0,
    ensures
        is_cube_root_floor(r as int, m as int),
        r == cube_root_floor(m as int),
        0 <= r < CUBE_ROOT_CAP,
{
    let mut lo: i64 = 0;
    let mut hi: i64 = CUBE_ROOT_CAP;
    proof {
        assert(cube(CUBE_ROOT_CAP as int) > i64::MAX);
    }
    while lo + 1 < hi
        invariant
            0 <= lo < hi <= CUBE_ROOT_CAP,
            cube(lo as int) <= m as int,
            (m as int) < cube(hi as int),
        decreases hi - lo,
    {
        let mid = lo + (hi - lo) / 2;
        proof {
            let m_ = mid as int;
            let cap = CUBE_ROOT_CAP as int;
            assert(0 <= m_ * m_ <= cap * cap && 0 <= m_ * m_ * m_ <= cap * cap * cap)
                by (nonlinear_arith)
                requires
                    0 <= m_ <= cap,
            ;
            assert(cap * cap * cap == cube(cap));
        }
        let c: i128 = (mid as i128) * (mid as i128) * (mid as i128);
        if c <= m as i128 {
            lo = mid;
        } else {
            hi = mid;
        }
    }
    proof {
        lemma_cube_root_floor_unique(lo as int, m as int);
    }
    lo
}

/// The mass and kinematic coordinates of a body at one simulation tick.
/// Values of this type serve both as a body's current (live) state and as
/// the entries of its per-tick history cache.
#[derive(Clone, Copy, Debug, PartialEq, Eq, Structural)]
pub struct Transform {
    pub position: V2,
    pub velocity: V2,
    pub mass: Mass,
}

impl Transform {
    /// A record below the minimum mass counts as destroyed.
    pub open spec fn spec_is_destroyed(&self) -> bool {
        self.mass < MASS_MIN
    }

    /// The canonical "body does not exist at this tick" record: zero mass,
    /// zero kinematics.
    pub open spec fn spec_destroyed() -> Transform {
        Transform { position: V2 { x: 0, y: 0 }, velocity: V2 { x: 0, y: 0 }, mass: 0 }
    }

    /// Collision radius: zero for a destroyed record, otherwise the minimum
    /// radius plus the integer cube root of the mass.
    pub open spec fn spec_radius(&self) -> int {
        if self.spec_is_destroyed() {
            0
        } else {
            RADIUS_MIN + cube_root_floor(self.mass as int)
        }
    }

    /// Both coordinates of position and velocity lie within the range the
    /// spatial-bound arithmetic accepts.
    pub open spec fn spec_in_bounds(&self) -> bool {
        &&& -COORD_LIMIT <= self.position.x <= COORD_LIMIT
        &&& -COORD_LIMIT <= self.position.y <= COORD_LIMIT
        &&& -COORD_LIMIT <= self.velocity.x <= COORD_LIMIT
        &&& -COORD_LIMIT <= self.velocity.y <= COORD_LIMIT
    }

    /// Creating a live record below the minimum mass is a caller error;
    /// the destroyed sentinel is obtained from `destroyed` instead.
    pub fn new(mass: Mass, position: V2, velocity: V2) -> (r: Transform)
        requires
            mass >= MASS_MIN,
        ensures
            r == (Transform { position, velocity, mass }),
            !r.spec_is_destroyed(),
    {
        Transform { mass, position, velocity }
    }

    /// The state of a body at a tick where it does not exist: before its
    /// first recorded tick, or after it has been destroyed.
    pub fn destroyed() -> (r: Transform)
        ensures
            r == Transform::spec_destroyed(),
            r.spec_is_destroyed(),
    {
        Transform { position: V2 { x: 0, y: 0 }, velocity: V2 { x: 0, y: 0 }, mass: 0 }
    }

    pub fn radius(&self) -> (r: Mass)
        ensures
            r == self.spec_radius(),
            self.spec_is_destroyed() ==> r == 0,
            !self.spec_is_destroyed() ==> r > 0,
            0 <= r <= RADIUS_MIN + CUBE_ROOT_CAP,
    {
        if self.is_destroyed() {
            0
        } else {
            let c = cube_root(self.mass);
            RADIUS_MIN + c
        }
    }

    #[verifier::when_used_as_spec(spec_is_destroyed)]
    pub fn is_destroyed(&self) -> (r: bool)
        ensures
            r == self.spec_is_destroyed(),
    {
        self.mass < MASS_MIN
    }
}

/// The destroyed predicate and the radius agree: a state below the
/// minimum mass is destroyed and has radius zero; a state at or above the
/// minimum mass is never destroyed and always has a positive radius.
pub proof fn lemma_destroyed_predicate(t: Transform)
    ensures
        t.spec_is_destroyed() <==> t.mass < MASS_MIN,
        t.spec_is_destroyed() ==> t.spec_radius() == 0,
        !t.spec_is_destroyed() ==> t.spec_radius() > 0,
{
    if !t.spec_is_destroyed() {
        lemma_cube_root_floor_exists(t.mass as int);
    }
}

} // verus!
