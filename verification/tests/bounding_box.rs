use gpu_buffer::bounding_box::EDGE_COUNT;
use gpu_buffer::{Axis, BoundingBox, Corner, Edge};

fn edge(x: bool, y: bool, z: bool, axis: Axis) -> Edge {
    Edge { origin: Corner { x, y, z }, axis }
}

#[test]
fn box_has_its_twelve_edges_in_order() {
    let outline = BoundingBox::new();
    let (lo, hi) = (false, true);
    let expected = vec![
        edge(lo, lo, lo, Axis::X),
        edge(lo, hi, hi, Axis::X),
        edge(lo, lo, hi, Axis::X),
        edge(lo, hi, lo, Axis::X),
        edge(lo, lo, lo, Axis::Y),
        edge(hi, lo, hi, Axis::Y),
        edge(lo, lo, hi, Axis::Y),
        edge(hi, lo, lo, Axis::Y),
        edge(lo, lo, lo, Axis::Z),
        edge(hi, hi, lo, Axis::Z),
        edge(lo, hi, lo, Axis::Z),
        edge(hi, lo, lo, Axis::Z),
    ];
    assert_eq!(outline.edges(), &expected);
    assert_eq!(outline.edges().len(), EDGE_COUNT);
}

#[test]
fn box_edges_differ_and_start_low_on_their_axis() {
    let outline = BoundingBox::new();
    let edges = outline.edges();
    for (i, a) in edges.iter().enumerate() {
        let along = match a.axis {
            Axis::X => a.origin.x,
            Axis::Y => a.origin.y,
            Axis::Z => a.origin.z,
        };
        assert!(!along);
        for b in &edges[i + 1..] {
            assert_ne!(a, b);
        }
    }
}
