use polyline::polyline::{IndexRange, Polyline, Vertex};

fn v(x: f32, y: f32, z: f32) -> Vertex {
    Vertex { x_bits: x.to_bits(), y_bits: y.to_bits(), z_bits: z.to_bits() }
}

fn range(p: &Polyline, i: usize) -> (u32, u32) {
    (p.index_ranges[i].start, p.index_ranges[i].end)
}

#[test]
fn with_capacity_preallocates_both_rings() {
    let p = Polyline::with_capacity(4);
    assert_eq!(p.vertices.len(), 4);
    assert_eq!(p.index_ranges.len(), 4);
    assert_eq!(p.current_vertex_index, 0);
    assert_eq!(p.current_index_index, 0);
    for i in 0..4 {
        assert_eq!(p.vertices[i], Vertex { x_bits: 0, y_bits: 0, z_bits: 0 });
        assert_eq!(range(&p, i), (0, 0));
    }
}

#[test]
fn scenario_one_segment_of_three_vertices() {
    let mut p = Polyline::with_capacity(4);
    p.add_vertex(v(0.0, 0.0, 0.0), false);
    p.add_vertex(v(1.0, 0.0, 0.0), true);
    p.add_vertex(v(2.0, 0.0, 0.0), true);
    assert_eq!(range(&p, 1), (0, 3));
    assert_eq!(range(&p, 0), (0, 0));
    assert_eq!(range(&p, 2), (0, 0));
    assert_eq!(range(&p, 3), (0, 0));
    assert_eq!(p.current_vertex_index, 3);
    assert_eq!(p.current_index_index, 1);
    assert_eq!(p.vertices[0], v(0.0, 0.0, 0.0));
    assert_eq!(p.vertices[1], v(1.0, 0.0, 0.0));
    assert_eq!(p.vertices[2], v(2.0, 0.0, 0.0));
}

#[test]
fn scenario_second_segment_starts_where_first_ended() {
    let mut p = Polyline::with_capacity(4);
    p.add_vertex(v(0.0, 0.0, 0.0), false);
    p.add_vertex(v(1.0, 0.0, 0.0), true);
    p.add_vertex(v(2.0, 0.0, 0.0), true);
    p.add_vertex(v(3.0, 0.0, 0.0), false);
    // The second segment begins at the vertex index reached after the first
    // three appends.
    assert_eq!(p.index_ranges[2].start, 3);
    assert_eq!(p.index_ranges[2].end, 4);
    // The vertex cursor wraps around the ring.
    assert_eq!(p.current_vertex_index, 0);
    // The connected append writes the segment's second vertex into slot 0
    // and moves `end` just past it: the two-vertex segment covers ring
    // slots 3 and 0.
    p.add_vertex(v(4.0, 0.0, 0.0), true);
    assert_eq!(p.index_ranges[2].start, 3);
    assert_eq!(p.index_ranges[2].end, 1);
    assert_eq!(p.vertices[3], v(3.0, 0.0, 0.0));
    assert_eq!(p.vertices[0], v(4.0, 0.0, 0.0));
}

#[test]
fn connected_append_extends_current_range_only() {
    let mut p = Polyline::with_capacity(8);
    p.add_vertex(v(1.0, 2.0, 3.0), false);
    assert_eq!(p.current_index_index, 1);
    assert_eq!(range(&p, 1), (0, 1));
    p.add_vertex(v(4.0, 5.0, 6.0), true);
    // Same range slot, end grown by one.
    assert_eq!(p.current_index_index, 1);
    assert_eq!(range(&p, 1), (0, 2));
}

#[test]
fn disconnected_append_advances_range_cursor_modulo_capacity() {
    let mut p = Polyline::with_capacity(2);
    p.add_vertex(v(1.0, 0.0, 0.0), false);
    assert_eq!(p.current_index_index, 1);
    assert_eq!(range(&p, 1), (0, 1));
    p.add_vertex(v(2.0, 0.0, 0.0), false);
    // The range cursor wraps: (1 + 1) mod 2 == 0.
    assert_eq!(p.current_index_index, 0);
    assert_eq!(range(&p, 0), (1, 2));
}

#[test]
fn capacity_never_changes_under_appends() {
    let mut p = Polyline::with_capacity(3);
    for i in 0..10 {
        p.add_vertex(v(i as f32, 0.0, 0.0), i % 2 == 0);
        assert_eq!(p.vertices.len(), 3);
        assert_eq!(p.index_ranges.len(), 3);
        assert!(p.current_vertex_index < 3);
        assert!(p.current_index_index < 3);
    }
}

#[test]
fn smallest_capacity_keeps_cursors_at_zero() {
    let mut p = Polyline::with_capacity(1);
    p.add_vertex(v(7.0, 8.0, 9.0), false);
    assert_eq!(p.current_vertex_index, 0);
    assert_eq!(p.current_index_index, 0);
    assert_eq!(range(&p, 0), (0, 1));
    assert_eq!(p.vertices[0], v(7.0, 8.0, 9.0));
}

#[test]
fn index_range_is_plain_data() {
    let r = IndexRange { start: 2, end: 5 };
    let s = r;
    assert_eq!(r, s);
    assert_eq!(s.start, 2);
    assert_eq!(s.end, 5);
}
