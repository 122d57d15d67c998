use polyline::pipeline::PolylinePipeline;
use polyline::pipeline_key::{
    PolylinePipelineKey, HDR, MSAA_SHIFT_BITS, PERSPECTIVE, TRANSPARENT_MAIN_PASS,
};
use polyline::render_resource::{
    BindingType, BlendState, BufferBindingType, CompareFunction, PrimitiveTopology, ShaderStages,
    TextureFormat, VertexStepMode,
};

fn pipeline() -> PolylinePipeline {
    PolylinePipeline::new(400, 64, 7)
}

fn key(bits: u32) -> PolylinePipelineKey {
    PolylinePipelineKey::from_bits_retain(bits)
}

#[test]
fn msaa_round_trip_for_every_supported_count() {
    for k in 0..8u32 {
        let n = 1u32 << k;
        assert_eq!(PolylinePipelineKey::from_msaa_samples(n).msaa_samples(), n);
    }
}

#[test]
fn scenario_msaa_four_samples() {
    assert_eq!(PolylinePipelineKey::from_msaa_samples(4).msaa_samples(), 4);
}

#[test]
fn msaa_field_sits_in_the_top_three_bits() {
    let k = PolylinePipelineKey::from_msaa_samples(8);
    assert_eq!(k.bits(), 3 << MSAA_SHIFT_BITS);
    // The feature bits are untouched by the MSAA field.
    assert_eq!(k.bits() & (PERSPECTIVE | TRANSPARENT_MAIN_PASS | HDR), 0);
}

#[test]
fn from_hdr_sets_only_the_hdr_bit() {
    assert_eq!(PolylinePipelineKey::from_hdr(true).bits(), HDR);
    assert_eq!(PolylinePipelineKey::from_hdr(false).bits(), 0);
}

#[test]
fn contains_and_union_follow_the_bits() {
    let k = key(PERSPECTIVE).union(key(HDR));
    assert_eq!(k.bits(), PERSPECTIVE | HDR);
    assert!(k.contains(key(PERSPECTIVE)));
    assert!(k.contains(key(HDR)));
    assert!(!k.contains(key(TRANSPARENT_MAIN_PASS)));
    assert!(PolylinePipelineKey::none().bits() == 0);
}

#[test]
fn scenario_specialize_transparent_main_pass() {
    let d = pipeline().specialize(key(TRANSPARENT_MAIN_PASS));
    assert_eq!(d.label, "transparent_polyline_pipeline");
    let target = d.fragment.as_ref().unwrap().targets[0].unwrap();
    assert_eq!(target.blend, Some(BlendState::AlphaBlending));
    assert!(!d.depth_stencil.as_ref().unwrap().depth_write_enabled);
}

#[test]
fn scenario_specialize_perspective_without_transparent() {
    let d = pipeline().specialize(key(PERSPECTIVE));
    assert_eq!(d.label, "transparent_polyline_pipeline");
    let target = d.fragment.as_ref().unwrap().targets[0].unwrap();
    assert_eq!(target.blend, Some(BlendState::AlphaBlending));
    assert!(d.depth_stencil.as_ref().unwrap().depth_write_enabled);
}

#[test]
fn scenario_specialize_no_features() {
    let d = pipeline().specialize(PolylinePipelineKey::none());
    assert_eq!(d.label, "opaque_polyline_pipeline");
    let target = d.fragment.as_ref().unwrap().targets[0].unwrap();
    assert_eq!(target.blend, Some(BlendState::Replace));
    assert!(d.depth_stencil.as_ref().unwrap().depth_write_enabled);
    assert_eq!(target.format, TextureFormat::Rgba8UnormSrgb);
}

#[test]
fn specialize_hdr_selects_the_hdr_color_format() {
    let d = pipeline().specialize(key(HDR));
    let target = d.fragment.as_ref().unwrap().targets[0].unwrap();
    assert_eq!(target.format, TextureFormat::Rgba16Float);
}

#[test]
fn specialize_is_deterministic_on_equal_keys() {
    let k = key(TRANSPARENT_MAIN_PASS | HDR).union(PolylinePipelineKey::from_msaa_samples(4));
    let d1 = pipeline().specialize(k);
    let d2 = pipeline().specialize(k);
    assert_eq!(d1, d2);
}

#[test]
fn specialize_fixed_state_is_key_independent() {
    let d = pipeline().specialize(key(TRANSPARENT_MAIN_PASS | PERSPECTIVE));
    // One instance-stepped vertex buffer of stride 12 with two attributes.
    assert_eq!(d.vertex.buffers.len(), 1);
    assert_eq!(d.vertex.buffers[0].array_stride, 12);
    assert_eq!(d.vertex.buffers[0].step_mode, VertexStepMode::Instance);
    assert_eq!(d.vertex.buffers[0].attributes.len(), 2);
    assert_eq!(d.vertex.buffers[0].attributes[0].offset, 0);
    assert_eq!(d.vertex.buffers[0].attributes[1].offset, 12);
    assert_eq!(d.vertex.buffers[0].attributes[0].shader_location, 0);
    assert_eq!(d.vertex.buffers[0].attributes[1].shader_location, 1);
    assert_eq!(d.vertex.entry_point, "vertex");
    let f = d.fragment.as_ref().unwrap();
    assert_eq!(f.entry_point, "fragment");
    assert_eq!(d.primitive.topology, PrimitiveTopology::TriangleList);
    assert_eq!(d.primitive.cull_mode, None);
    let ds = d.depth_stencil.as_ref().unwrap();
    assert_eq!(ds.format, TextureFormat::Depth32Float);
    assert_eq!(ds.depth_compare, CompareFunction::Greater);
    assert_eq!(ds.stencil.read_mask, 0);
    assert_eq!(ds.stencil.write_mask, 0);
    assert!(d.layout.is_empty());
    assert!(d.push_constant_ranges.is_empty());
}

#[test]
fn specialize_msaa_count_comes_from_the_key() {
    let k = key(HDR).union(PolylinePipelineKey::from_msaa_samples(8));
    let d = pipeline().specialize(k);
    assert_eq!(d.multisample.count, 8);
    assert_eq!(d.multisample.mask, !0u64);
    assert!(!d.multisample.alpha_to_coverage_enabled);
}

#[test]
fn pipeline_layouts_describe_dynamic_uniform_buffers() {
    let p = pipeline();
    assert_eq!(p.view_layout.label, "polyline_view_layout");
    assert_eq!(p.polyline_layout.label, "polyline_layout");
    assert_eq!(p.shader, 7);
    for (layout, size) in [(&p.view_layout, 400u64), (&p.polyline_layout, 64u64)] {
        assert_eq!(layout.entries.len(), 1);
        let e = layout.entries[0];
        assert_eq!(e.binding, 0);
        assert_eq!(e.visibility, ShaderStages::Vertex);
        assert_eq!(e.count, None);
        assert_eq!(
            e.ty,
            BindingType::Buffer {
                ty: BufferBindingType::Uniform,
                has_dynamic_offset: true,
                min_binding_size: Some(size),
            }
        );
    }
}
