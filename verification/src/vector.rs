use vstd::prelude::*;

verus! {

/// A two-dimensional vector over integer simulation units.
///
/// Every coordinate in the engine is an exact integer amount of simulation
/// units, so all vector arithmetic here is exact and carries a precise
/// contract. Fractional quantities (magnitudes, normalized directions,
/// rotations) are deliberately not offered by this type: they cannot be
/// represented exactly and belong to an unverified presentation layer.
#[derive(Clone, Copy, Debug, PartialEq, Eq, Structural)]
pub struct V2 {
    pub x: i64,
    pub y: i64,
}

impl V2 {
    pub fn new(x: i64, y: i64) -> (r: V2)
        ensures
            r == (V2 { x, y }),
    {
        V2 { x, y }
    }

    pub fn zero() -> (r: V2)
        ensures
            r == (V2 { x: 0, y: 0 }),
    {
        V2 { x: 0, y: 0 }
    }

    /// Componentwise sum.
    pub fn add(self, other: V2) -> (r: V2)
        requires
            i64::MIN <= self.x + other.x <= i64::MAX,
            i64::MIN <= self.y + other.y <= i64::MAX,
        ensures
            r.x == self.x + other.x,
            r.y == self.y + other.y,
    {
        V2 { x: self.x + other.x, y: self.y + other.y }
    }

    /// Componentwise difference.
    pub fn sub(self, other: V2) -> (r: V2)
        requires
            i64::MIN <= self.x - other.x <= i64::MAX,
            i64::MIN <= self.y - other.y <= i64::MAX,
        ensures
            r.x == self.x - other.x,
            r.y == self.y - other.y,
    {
        V2 { x: self.x - other.x, y: self.y - other.y }
    }

    /// Componentwise product.
    pub fn mul(self, other: V2) -> (r: V2)
        requires
            i64::MIN <= self.x * other.x <= i64::MAX,
            i64::MIN <= self.y * other.y <= i64::MAX,
        ensures
            r.x == self.x * other.x,
            r.y == self.y * other.y,
    {
        V2 { x: self.x * other.x, y: self.y * other.y }
    }

    /// Product with a scalar.
    pub fn mul_scalar(self, s: i64) -> (r: V2)
        requires
            i64::MIN <= self.x * s <= i64::MAX,
            i64::MIN <= self.y * s <= i64::MAX,
        ensures
            r.x == self.x * s,
            r.y == self.y * s,
    {
        V2 { x: self.x * s, y: self.y * s }
    }

    /// Squared Euclidean length; exact, unlike the length itself.
    pub fn sqr_mag(&self) -> (r: i64)
        requires
            self.x * self.x + self.y * self.y <= i64::MAX,
        ensures
            r == self.x * self.x + self.y * self.y,
    {
        proof {
            assert(self.x * self.x >= 0 && self.y * self.y >= 0) by (nonlinear_arith);
        }
        self.x * self.x + self.y * self.y
    }

    /// Squared Euclidean distance between two points.
    pub fn sqr_dist(left: &V2, right: &V2) -> (r: i64)
        requires
            i64::MIN <= left.x - right.x <= i64::MAX,
            i64::MIN <= left.y - right.y <= i64::MAX,
            (left.x - right.x) * (left.x - right.x) + (left.y - right.y) * (left.y - right.y)
                <= i64::MAX,
        ensures
            r == (left.x - right.x) * (left.x - right.x) + (left.y - right.y) * (left.y
                - right.y),
    {
        let dx = left.x - right.x;
        let dy = left.y - right.y;
        proof {
            assert(dx * dx >= 0 && dy * dy >= 0) by (nonlinear_arith);
        }
        dx * dx + dy * dy
    }
}

} // verus!
