use polyline::draw::{DrawPolyline, PassCommand, RenderCommandResult, SetPolylineBindGroup};
use polyline::extract::{extract_polylines, PolylineEntity};
use polyline::pipeline::PolylinePipeline;
use polyline::polyline::{IndexRange, Polyline, Vertex};
use polyline::prepare::{prepare_polyline_bind_group, prepare_polyline_view_bind_groups};
use polyline::render_asset::GpuPolyline;

fn v(x: f32, y: f32, z: f32) -> Vertex {
    Vertex { x_bits: x.to_bits(), y_bits: y.to_bits(), z_bits: z.to_bits() }
}

fn identity() -> [u32; 16] {
    let mut m = [0u32; 16];
    for i in 0..4 {
        m[5 * i] = 1.0f32.to_bits();
    }
    m
}

fn entity(id: u64, inherited: bool, view: bool) -> PolylineEntity {
    PolylineEntity {
        entity: id,
        inherited_visibility: inherited,
        view_visibility: view,
        transform: identity(),
        polyline: 100 + id,
    }
}

#[test]
fn prepare_asset_packs_vertices_little_endian() {
    let mut p = Polyline::with_capacity(2);
    p.add_vertex(v(1.0, 2.0, 3.0), false);
    p.add_vertex(v(-1.5, 0.25, 4096.0), true);
    let gpu = p.prepare_asset();
    assert_eq!(gpu.vertex_buffer.len(), 24);
    let mut expected = Vec::new();
    for f in [1.0f32, 2.0, 3.0, -1.5, 0.25, 4096.0] {
        expected.extend_from_slice(&f.to_bits().to_le_bytes());
    }
    assert_eq!(gpu.vertex_buffer, expected);
}

#[test]
fn prepare_asset_snapshots_the_ranges() {
    let mut p = Polyline::with_capacity(3);
    p.add_vertex(v(0.0, 0.0, 0.0), false);
    p.add_vertex(v(1.0, 1.0, 1.0), true);
    let gpu = p.prepare_asset();
    assert_eq!(gpu.index_ranges, p.index_ranges);
    assert_eq!(gpu.index_ranges[1], IndexRange { start: 0, end: 2 });
}

#[test]
fn extraction_keeps_only_fully_visible_entities() {
    let query = vec![
        entity(1, true, true),
        entity(2, false, true),
        entity(3, true, false),
        entity(4, false, false),
        entity(5, true, true),
    ];
    let batch = extract_polylines(&query);
    assert_eq!(batch.len(), 2);
    assert_eq!(batch[0].entity, 1);
    assert_eq!(batch[0].polyline, 101);
    assert_eq!(batch[0].uniform.transform, identity());
    assert_eq!(batch[1].entity, 5);
    assert_eq!(batch[1].polyline, 105);
}

#[test]
fn extraction_of_an_empty_query_is_empty() {
    let batch = extract_polylines(&Vec::new());
    assert!(batch.is_empty());
}

#[test]
fn bind_group_preparation_skips_until_the_uniforms_are_bound() {
    let pipeline = PolylinePipeline::new(400, 64, 7);
    assert!(prepare_polyline_bind_group(&pipeline, None).is_none());
    let groups = prepare_polyline_view_bind_groups(&pipeline, None, &vec![10, 11]);
    assert!(groups.is_empty());
}

#[test]
fn polyline_bind_group_binds_the_uniforms_at_slot_zero() {
    let pipeline = PolylinePipeline::new(400, 64, 7);
    let group = prepare_polyline_bind_group(&pipeline, Some(42)).unwrap();
    assert_eq!(group.value.label, "polyline_bind_group");
    assert_eq!(group.value.layout, pipeline.polyline_layout);
    assert_eq!(group.value.entries.len(), 1);
    assert_eq!(group.value.entries[0].binding, 0);
    assert_eq!(group.value.entries[0].resource, 42);
}

#[test]
fn view_bind_groups_cover_every_extracted_view() {
    let pipeline = PolylinePipeline::new(400, 64, 7);
    let groups = prepare_polyline_view_bind_groups(&pipeline, Some(9), &vec![20, 21, 22]);
    assert_eq!(groups.len(), 3);
    for (i, (entity, group)) in groups.iter().enumerate() {
        assert_eq!(*entity, 20 + i as u64);
        assert_eq!(group.value.label, "polyline_view_bind_group");
        assert_eq!(group.value.layout, pipeline.view_layout);
        assert_eq!(group.value.entries.len(), 1);
        assert_eq!(group.value.entries[0].resource, 9);
    }
}

#[test]
fn set_bind_group_passes_the_dynamic_offset() {
    let pipeline = PolylinePipeline::new(400, 64, 7);
    let group = prepare_polyline_bind_group(&pipeline, Some(1)).unwrap();
    let mut pass = Vec::new();
    let r = SetPolylineBindGroup::<2>::render(Some(256), &group, &mut pass);
    assert_eq!(r, RenderCommandResult::Success);
    assert_eq!(pass, vec![PassCommand::SetBindGroup { index: 2, dynamic_offset: 256 }]);
}

#[test]
fn scenario_draw_skips_the_sentinel_and_draws_the_rest() {
    let gpu = GpuPolyline {
        vertex_buffer: Vec::new(),
        index_ranges: vec![IndexRange { start: 0, end: 0 }, IndexRange { start: 0, end: 3 }],
    };
    let mut pass = Vec::new();
    let r = DrawPolyline::render(Some(&gpu), &mut pass);
    assert_eq!(r, RenderCommandResult::Success);
    assert_eq!(
        pass,
        vec![
            PassCommand::SetVertexBuffer { slot: 0 },
            PassCommand::Draw { vertex_start: 0, vertex_end: 6, instance_start: 0, instance_end: 3 },
        ]
    );
}

#[test]
fn draw_issues_one_call_per_non_sentinel_range() {
    let gpu = GpuPolyline {
        vertex_buffer: Vec::new(),
        index_ranges: vec![
            IndexRange { start: 1, end: 4 },
            IndexRange { start: 0, end: 0 },
            IndexRange { start: 4, end: 6 },
        ],
    };
    let mut pass = Vec::new();
    let r = DrawPolyline::render(Some(&gpu), &mut pass);
    assert_eq!(r, RenderCommandResult::Success);
    assert_eq!(
        pass,
        vec![
            PassCommand::SetVertexBuffer { slot: 0 },
            PassCommand::Draw { vertex_start: 0, vertex_end: 6, instance_start: 1, instance_end: 4 },
            PassCommand::Draw { vertex_start: 0, vertex_end: 6, instance_start: 4, instance_end: 6 },
        ]
    );
}

#[test]
fn draw_without_a_prepared_asset_fails_transiently() {
    let mut pass = Vec::new();
    let r = DrawPolyline::render(None, &mut pass);
    assert_eq!(r, RenderCommandResult::Failure);
    assert!(pass.is_empty());
}
