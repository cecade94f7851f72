use vstd::prelude::*;

use super::transform::Transform;

verus! {

#[derive(Clone, Copy, Debug, PartialEq, Eq, Structural)]
enum EdgeAxis {
    X,
    Y,
}

#[derive(Clone, Copy, Debug, PartialEq, Eq, Structural)]
enum EdgeLimit {
    Min,
    Max,
}

/// Value of a minimum edge on one axis, swept against the direction of
/// travel: the body's footprint boundary `position - radius`, pushed a
/// further velocity step outward when the body moves toward positive
/// coordinates.
pub open spec fn min_edge_value(position: int, velocity: int, radius: int) -> int {
    position - radius + if velocity > 0 {
        -velocity
    } else {
        0
    }
}

/// Value of a maximum edge on one axis: the footprint boundary
/// `position + radius`, pushed a further velocity step outward when the
/// body moves toward negative coordinates.
pub open spec fn max_edge_value(position: int, velocity: int, radius: int) -> int {
    position + radius + if velocity < 0 {
        -velocity
    } else {
        0
    }
}

/// One edge of a bounding box: a scalar boundary value on one axis.
/// Keeping each edge a single scalar lets a broad phase keep per-axis
/// sorted edge lists, and keeps the box compact.
#[derive(Clone, Copy, Debug, PartialEq, Eq, Structural)]
pub struct Edge {
    value: i64,
    axis: EdgeAxis,
    limit: EdgeLimit,
}

impl Edge {
    /// The scalar boundary value of this edge.
    pub closed spec fn spec_value(&self) -> i64 {
        self.value
    }

    /// A fresh edge is unbounded: a minimum edge starts at the smallest
    /// representable value, a maximum edge at the largest, so an
    /// un-updated box spans everything on both axes.
    fn new(axis: EdgeAxis, limit: EdgeLimit) -> (r: Edge)
        ensures
            r.axis == axis,
            r.limit == limit,
            limit == EdgeLimit::Min ==> r.spec_value() == i64::MIN,
            limit == EdgeLimit::Max ==> r.spec_value() == i64::MAX,
    {
        let value = match limit {
            EdgeLimit::Min => i64::MIN,
            EdgeLimit::Max => i64::MAX,
        };
        Edge { axis, limit, value }
    }

    fn update(&mut self, transform: &Transform)
        requires
            transform.spec_in_bounds(),
        ensures
            final(self).axis == old(self).axis,
            final(self).limit == old(self).limit,
            final(self).spec_value() == ({
                let position: int = if old(self).axis == EdgeAxis::X {
                    transform.position.x as int
                } else {
                    transform.position.y as int
                };
                let velocity: int = if old(self).axis == EdgeAxis::X {
                    transform.velocity.x as int
                } else {
                    transform.velocity.y as int
                };
                if old(self).limit == EdgeLimit::Min {
                    min_edge_value(position, velocity, transform.spec_radius())
                } else {
                    max_edge_value(position, velocity, transform.spec_radius())
                }
            }),
    {
        let velocity: i64;
        let position: i64;
        let mut radius: i64 = transform.radius();
        let mut shift: i64 = 0;

        match self.axis {
            EdgeAxis::X => {
                velocity = transform.velocity.x;
                position = transform.position.x;
            },
            EdgeAxis::Y => {
                velocity = transform.velocity.y;
                position = transform.position.y;
            },
        }

        match self.limit {
            EdgeLimit::Min => {
                radius = -radius;
                if velocity > 0 {
                    shift = -velocity;
                }
            },
            EdgeLimit::Max => {
                if velocity < 0 {
                    shift = -velocity;
                }
            },
        }

        self.value = position + radius + shift;
    }
}

/// Edges order by their scalar value alone, whatever their axis or side:
/// the order a broad phase sorts per-axis edge lists by.
impl PartialOrd for Edge {
    fn partial_cmp(&self, other: &Edge) -> (r: Option<core::cmp::Ordering>) {
        if self.value < other.value {
            Some(core::cmp::Ordering::Less)
        } else if self.value == other.value {
            Some(core::cmp::Ordering::Equal)
        } else {
            Some(core::cmp::Ordering::Greater)
        }
    }
}

impl vstd::std_specs::cmp::PartialOrdSpecImpl for Edge {
    open spec fn obeys_partial_cmp_spec() -> bool {
        true
    }

    open spec fn partial_cmp_spec(&self, other: &Edge) -> Option<core::cmp::Ordering> {
        if self.spec_value() < other.spec_value() {
            Some(core::cmp::Ordering::Less)
        } else if self.spec_value() == other.spec_value() {
            Some(core::cmp::Ordering::Equal)
        } else {
            Some(core::cmp::Ordering::Greater)
        }
    }
}

/// Axis-aligned bounding box of a body, swept to account for its motion.
/// `left`/`right` bound the X axis, `top`/`bottom` the Y axis (`top` is the
/// Y minimum, `bottom` the Y maximum).
#[derive(Clone, Copy, Debug, PartialEq, Eq, Structural)]
pub struct Bounds {
    left: Edge,
    right: Edge,
    top: Edge,
    bottom: Edge,
}

/// Two boxes overlap exactly when their X intervals intersect and their
/// Y intervals intersect; each axis is rejected by a strict separating
/// comparison, so touching boxes count as overlapping.
pub open spec fn spec_overlap(a: Bounds, b: Bounds) -> bool {
    !(a.spec_left() > b.spec_right() || b.spec_left() > a.spec_right() || a.spec_top()
        > b.spec_bottom() || b.spec_top() > a.spec_bottom())
}

/// The bound overlap test treats the two boxes symmetrically: swapping the
/// arguments never changes the answer.
pub proof fn lemma_overlap_symmetric(a: Bounds, b: Bounds)
    ensures
        spec_overlap(a, b) == spec_overlap(b, a),
{
}

/// The swept box is conservative: on each axis it always contains the
/// body's current footprint `position +/- radius`, since the velocity
/// shift only ever pushes an edge outward.
pub proof fn lemma_box_contains_footprint(position: int, velocity: int, radius: int)
    ensures
        min_edge_value(position, velocity, radius) <= position - radius,
        max_edge_value(position, velocity, radius) >= position + radius,
{
}

impl Bounds {
    /// Each edge sits on the axis and side its field name promises.
    pub closed spec fn wf(&self) -> bool {
        &&& self.left.axis == EdgeAxis::X && self.left.limit == EdgeLimit::Min
        &&& self.right.axis == EdgeAxis::X && self.right.limit == EdgeLimit::Max
        &&& self.top.axis == EdgeAxis::Y && self.top.limit == EdgeLimit::Min
        &&& self.bottom.axis == EdgeAxis::Y && self.bottom.limit == EdgeLimit::Max
    }

    pub closed spec fn spec_left(&self) -> i64 {
        self.left.spec_value()
    }

    pub closed spec fn spec_right(&self) -> i64 {
        self.right.spec_value()
    }

    pub closed spec fn spec_top(&self) -> i64 {
        self.top.spec_value()
    }

    pub closed spec fn spec_bottom(&self) -> i64 {
        self.bottom.spec_value()
    }

    /// The box a transform produces: each axis spans the footprint
    /// `position +/- radius`, swept by one velocity step on the edge picked
    /// by the velocity's sign.
    pub open spec fn spec_for_transform(t: Transform) -> Seq<int> {
        seq![
            min_edge_value(t.position.x as int, t.velocity.x as int, t.spec_radius()),
            max_edge_value(t.position.x as int, t.velocity.x as int, t.spec_radius()),
            min_edge_value(t.position.y as int, t.velocity.y as int, t.spec_radius()),
            max_edge_value(t.position.y as int, t.velocity.y as int, t.spec_radius()),
        ]
    }

    /// Whether this box is exactly the one `spec_for_transform` assigns to
    /// the given transform.
    pub open spec fn spec_matches_transform(&self, t: Transform) -> bool {
        &&& self.spec_left() == Bounds::spec_for_transform(t)[0]
        &&& self.spec_right() == Bounds::spec_for_transform(t)[1]
        &&& self.spec_top() == Bounds::spec_for_transform(t)[2]
        &&& self.spec_bottom() == Bounds::spec_for_transform(t)[3]
    }

    /// A fresh box is unbounded on every edge until first updated.
    pub fn new() -> (r: Bounds)
        ensures
            r.wf(),
            r.spec_left() == i64::MIN,
            r.spec_right() == i64::MAX,
            r.spec_top() == i64::MIN,
            r.spec_bottom() == i64::MAX,
    {
        Bounds {
            left: Edge::new(EdgeAxis::X, EdgeLimit::Min),
            right: Edge::new(EdgeAxis::X, EdgeLimit::Max),
            top: Edge::new(EdgeAxis::Y, EdgeLimit::Min),
            bottom: Edge::new(EdgeAxis::Y, EdgeLimit::Max),
        }
    }

    /// Do two boxes overlap? Strict separation on either axis rejects the
    /// pair; everything else overlaps.
    pub fn overlap(a: &Self, b: &Self) -> (r: bool)
        ensures
            r == spec_overlap(*a, *b),
    {
        if a.left.value > b.right.value || b.left.value > a.right.value {
            return false;
        }
        if a.top.value > b.bottom.value || b.top.value > a.bottom.value {
            return false;
        }
        true
    }

    /// Recompute all four edges from a transform.
    pub fn update(&mut self, transform: &Transform)
        requires
            old(self).wf(),
            transform.spec_in_bounds(),
        ensures
            final(self).wf(),
            final(self).spec_matches_transform(*transform),
    {
        self.left.update(transform);
        self.right.update(transform);
        self.top.update(transform);
        self.bottom.update(transform);
    }
}

} // verus!
