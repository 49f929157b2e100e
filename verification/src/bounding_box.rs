//! The outline of an axis-aligned box: its twelve edges, each drawn as one
//! instance of an edge mesh that is moved to a corner and stretched along an
//! axis.

use vstd::prelude::*;

verus! {

/// One of the three axes.
#[derive(Clone, Copy, Debug, PartialEq, Eq, Structural)]
pub enum Axis {
    X,
    Y,
    Z,
}

/// A corner of a box: for each axis, whether the corner lies at the upper
/// bound of the box on that axis, and not at the lower.
#[derive(Clone, Copy, Debug, PartialEq, Eq, Structural)]
pub struct Corner {
    pub x: bool,
    pub y: bool,
    pub z: bool,
}

/// An edge of a box: it starts at the corner `origin` and runs along `axis`
/// for the size of the box on that axis.
#[derive(Clone, Copy, Debug, PartialEq, Eq, Structural)]
pub struct Edge {
    pub origin: Corner,
    pub axis: Axis,
}

impl Corner {
    /// Whether the corner lies at the upper bound on `axis`.
    pub open spec fn upper(self, axis: Axis) -> bool {
        match axis {
            Axis::X => self.x,
            Axis::Y => self.y,
            Axis::Z => self.z,
        }
    }
}

/// Number of edges of a box.
pub const EDGE_COUNT: usize = 12;

/// The edge that instance `i` draws: four edges along the x axis, then four
/// along y, then four along z.
pub open spec fn edge_at(i: int) -> Edge {
    let low = Corner { x: false, y: false, z: false };
    if i == 0 {
        Edge { origin: low, axis: Axis::X }
    } else if i == 1 {
        Edge { origin: Corner { x: false, y: true, z: true }, axis: Axis::X }
    } else if i == 2 {
        Edge { origin: Corner { x: false, y: false, z: true }, axis: Axis::X }
    } else if i == 3 {
        Edge { origin: Corner { x: false, y: true, z: false }, axis: Axis::X }
    } else if i == 4 {
        Edge { origin: low, axis: Axis::Y }
    } else if i == 5 {
        Edge { origin: Corner { x: true, y: false, z: true }, axis: Axis::Y }
    } else if i == 6 {
        Edge { origin: Corner { x: false, y: false, z: true }, axis: Axis::Y }
    } else if i == 7 {
        Edge { origin: Corner { x: true, y: false, z: false }, axis: Axis::Y }
    } else if i == 8 {
        Edge { origin: low, axis: Axis::Z }
    } else if i == 9 {
        Edge { origin: Corner { x: true, y: true, z: false }, axis: Axis::Z }
    } else if i == 10 {
        Edge { origin: Corner { x: false, y: true, z: false }, axis: Axis::Z }
    } else {
        Edge { origin: Corner { x: true, y: false, z: false }, axis: Axis::Z }
    }
}

/// The edges of a box in the order in which the instances draw them.
pub open spec fn box_edges() -> Seq<Edge> {
    Seq::new(EDGE_COUNT as nat, |i: int| edge_at(i))
}

/// Every instance draws an edge of the box: it starts at the lower bound on
/// its own axis, so that it ends at a corner too.
pub proof fn lemma_edges_lie_on_box(i: int)
    requires
        0 <= i < EDGE_COUNT,
    ensures
        !edge_at(i).origin.upper(edge_at(i).axis),
{
}

/// No two instances draw the same edge.
pub proof fn lemma_edges_differ(i: int, j: int)
    requires
        0 <= i < j < EDGE_COUNT,
    ensures
        edge_at(i) != edge_at(j),
{
}

/// Every edge of the box is drawn by one of the instances.
pub proof fn lemma_edges_cover_box(edge: Edge)
    requires
        !edge.origin.upper(edge.axis),
    ensures
        exists|i: int| 0 <= i < EDGE_COUNT && edge_at(i) == edge,
{
    let Corner { x, y, z } = edge.origin;
    let i: int = match edge.axis {
        Axis::X => if y {
            if z {
                1
            } else {
                3
            }
        } else {
            if z {
                2
            } else {
                0
            }
        },
        Axis::Y => if x {
            if z {
                5
            } else {
                7
            }
        } else {
            if z {
                6
            } else {
                4
            }
        },
        Axis::Z => if x {
            if y {
                9
            } else {
                11
            }
        } else {
            if y {
                10
            } else {
                8
            }
        },
    };
    assert(0 <= i < EDGE_COUNT && edge_at(i) == edge);
}

/// The outline of an axis-aligned box, as the list of its edges.
pub struct BoundingBox {
    edges: Vec<Edge>,
}

impl View for BoundingBox {
    type V = Seq<Edge>;

    closed spec fn view(&self) -> Seq<Edge> {
        self.edges@
    }
}

impl BoundingBox {
    #[verifier::type_invariant]
    spec fn holds_box_edges(self) -> bool {
        self.edges@ == box_edges()
    }

    /// The outline of a box: its twelve edges, in the order of `box_edges`.
    pub fn new() -> (outline: Self)
        ensures
            outline@ == box_edges(),
    {
        let mut edges: Vec<Edge> = Vec::new();
        let mut i: usize = 0;
        while i < EDGE_COUNT
            invariant
                i <= EDGE_COUNT,
                edges@ == box_edges().subrange(0, i as int),
            decreases EDGE_COUNT - i,
        {
            // Within the four edges along one axis, the origin takes each
            // pair of bounds on the two other axes once.
            let k: usize = i % 4;
            let first = k == 1 || k == 3;
            let second = k == 1 || k == 2;
            let edge = if i < 4 {
                Edge { origin: Corner { x: false, y: first, z: second }, axis: Axis::X }
            } else if i < 8 {
                Edge { origin: Corner { x: first, y: false, z: second }, axis: Axis::Y }
            } else {
                Edge { origin: Corner { x: first, y: second, z: false }, axis: Axis::Z }
            };
            edges.push(edge);
            i += 1;
        }
        assert(edges@ =~= box_edges());
        BoundingBox { edges }
    }

    /// The edges of the box, one for each instance.
    pub fn edges(&self) -> (edges: &Vec<Edge>)
        ensures
            edges@ == self@,
            edges@ == box_edges(),
    {
        proof {
            use_type_invariant(self);
        }
        &self.edges
    }
}

} // verus!
