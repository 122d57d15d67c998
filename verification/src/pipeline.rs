//! The polyline render pipeline: the two bind-group layouts it owns and the
//! pure specialization function from a [`PolylinePipelineKey`] to a full
//! render-pipeline descriptor.

use vstd::prelude::*;

use crate::pipeline_key::{
    spec_msaa_samples, PolylinePipelineKey, HDR, PERSPECTIVE, TRANSPARENT_MAIN_PASS,
};
use crate::render_resource::{
    stencil_face_ignore, BindGroupLayout, BindGroupLayoutEntry, BindingType, BlendState,
    BufferBindingType, ColorTargetState, CompareFunction, DepthBiasState, DepthStencilState,
    FragmentState, FrontFace, MultisampleState, PolygonMode, PrimitiveState, PrimitiveTopology,
    PushConstantRange, RenderPipelineDescriptor, ShaderStages, StencilFaceState, StencilOperation,
    StencilState, TextureFormat, VertexAttribute, VertexBufferLayout, VertexFormat, VertexState,
    VertexStepMode, COLOR_WRITES_ALL,
};

verus! {

/// Whether every bit of `flag` is set in `key`.
pub open spec fn has_flag(key: PolylinePipelineKey, flag: u32) -> bool {
    key.bits & flag == flag
}

/// Keys rendered through the transparent pipeline variant: those in the
/// transparent main pass, and perspective keys (thin-line fading needs
/// blending even over an opaque material).
pub open spec fn spec_uses_transparent_pipeline(key: PolylinePipelineKey) -> bool {
    has_flag(key, TRANSPARENT_MAIN_PASS) || has_flag(key, PERSPECTIVE)
}

/// The descriptor label the key selects.
pub open spec fn spec_label(key: PolylinePipelineKey) -> Seq<char> {
    if spec_uses_transparent_pipeline(key) {
        "transparent_polyline_pipeline"@
    } else {
        "opaque_polyline_pipeline"@
    }
}

/// The blend preset the key selects.
pub open spec fn spec_blend(key: PolylinePipelineKey) -> BlendState {
    if spec_uses_transparent_pipeline(key) {
        BlendState::AlphaBlending
    } else {
        BlendState::Replace
    }
}

/// Depth writes stay on except in the transparent main pass, where closer
/// fragments blend over farther ones instead of replacing them.
pub open spec fn spec_depth_write(key: PolylinePipelineKey) -> bool {
    !has_flag(key, TRANSPARENT_MAIN_PASS)
}

/// The color target format: the HDR bit selects the host's HDR view-target
/// format, otherwise the host's default surface format.
pub open spec fn spec_color_format(key: PolylinePipelineKey) -> TextureFormat {
    if has_flag(key, HDR) {
        TextureFormat::Rgba16Float
    } else {
        TextureFormat::Rgba8UnormSrgb
    }
}

/// The primitive state every specialization uses: triangle list, CCW front
/// faces, no culling, fill mode, no primitive restart.
pub open spec fn spec_primitive_state() -> PrimitiveState {
    PrimitiveState {
        topology: PrimitiveTopology::TriangleList,
        strip_index_format: None,
        front_face: FrontFace::Ccw,
        cull_mode: None,
        unclipped_depth: false,
        polygon_mode: PolygonMode::Fill,
        conservative: false,
    }
}

/// The depth-stencil state for a key: reverse-Z depth (`Greater` passes for
/// nearer fragments) on `Depth32Float`, stencil fully masked out, no bias;
/// only the depth-write switch varies with the key.
pub open spec fn spec_depth_stencil_state(key: PolylinePipelineKey) -> DepthStencilState {
    DepthStencilState {
        format: TextureFormat::Depth32Float,
        depth_write_enabled: spec_depth_write(key),
        depth_compare: CompareFunction::Greater,
        stencil: StencilState {
            front: stencil_face_ignore(),
            back: stencil_face_ignore(),
            read_mask: 0,
            write_mask: 0,
        },
        bias: DepthBiasState { constant: 0, slope_scale_bits: 0, clamp_bits: 0 },
    }
}

/// The two instance attributes: segment start at offset 0 and segment end
/// one vertex (12 bytes) later, at shader locations 0 and 1.
pub open spec fn spec_vertex_attributes() -> Seq<VertexAttribute> {
    seq![
        VertexAttribute { format: VertexFormat::Float32x3, offset: 0, shader_location: 0 },
        VertexAttribute { format: VertexFormat::Float32x3, offset: 12, shader_location: 1 },
    ]
}

/// Everything `specialize` promises of its result: each field of the
/// descriptor as a function of the shader and the key alone.
pub open spec fn descriptor_matches(
    shader: u64,
    key: PolylinePipelineKey,
    r: RenderPipelineDescriptor,
) -> bool {
    &&& r.label@ == spec_label(key)
    &&& r.layout@ == Seq::<u64>::empty()
    &&& r.push_constant_ranges@ == Seq::<PushConstantRange>::empty()
    &&& r.vertex.shader == shader
    &&& r.vertex.entry_point@ == "vertex"@
    &&& r.vertex.buffers@.len() == 1
    &&& r.vertex.buffers@[0].array_stride == 12
    &&& r.vertex.buffers@[0].step_mode == VertexStepMode::Instance
    &&& r.vertex.buffers@[0].attributes@ == spec_vertex_attributes()
    &&& r.fragment matches Some(f) && {
        &&& f.shader == shader
        &&& f.entry_point@ == "fragment"@
        &&& f.targets@ == seq![
            Some(
                ColorTargetState {
                    format: spec_color_format(key),
                    blend: Some(spec_blend(key)),
                    write_mask: COLOR_WRITES_ALL,
                },
            ),
        ]
    }
    &&& r.primitive == spec_primitive_state()
    &&& r.depth_stencil == Some(spec_depth_stencil_state(key))
    &&& r.multisample == (MultisampleState {
        count: spec_msaa_samples(key.bits),
        mask: 0xFFFF_FFFF_FFFF_FFFFu64,
        alpha_to_coverage_enabled: false,
    })
}

/// The polyline pipeline resource: its view and per-instance bind-group
/// layouts and its shader (by host asset id).
#[derive(Clone, Debug)]
pub struct PolylinePipeline {
    pub view_layout: BindGroupLayout,
    pub polyline_layout: BindGroupLayout,
    pub shader: u64,
}

/// The single entry both layouts share in shape: binding 0, vertex stage, a
/// dynamically offset uniform buffer of at least `min_size` bytes.
pub open spec fn uniform_layout_entry(min_size: u64) -> BindGroupLayoutEntry {
    BindGroupLayoutEntry {
        binding: 0,
        visibility: ShaderStages::Vertex,
        ty: BindingType::Buffer {
            ty: BufferBindingType::Uniform,
            has_dynamic_offset: true,
            min_binding_size: Some(min_size),
        },
        count: None,
    }
}

impl PolylinePipeline {
    /// Builds the pipeline resource from what the host supplies: the minimum
    /// sizes of its view uniform and of the per-instance polyline uniform,
    /// and the shader asset id.
    pub fn new(view_uniform_min_size: u64, polyline_uniform_min_size: u64, shader: u64) -> (p:
        Self)
        ensures
            p.view_layout.label@ == "polyline_view_layout"@,
            p.view_layout.entries@ == seq![uniform_layout_entry(view_uniform_min_size)],
            p.polyline_layout.label@ == "polyline_layout"@,
            p.polyline_layout.entries@ == seq![uniform_layout_entry(polyline_uniform_min_size)],
            p.shader == shader,
    {
        let mut view_entries: Vec<BindGroupLayoutEntry> = Vec::new();
        view_entries.push(BindGroupLayoutEntry {
            binding: 0,
            visibility: ShaderStages::Vertex,
            ty: BindingType::Buffer {
                ty: BufferBindingType::Uniform,
                has_dynamic_offset: true,
                min_binding_size: Some(view_uniform_min_size),
            },
            count: None,
        });
        let view_layout = BindGroupLayout { label: "polyline_view_layout", entries: view_entries };

        let mut polyline_entries: Vec<BindGroupLayoutEntry> = Vec::new();
        polyline_entries.push(BindGroupLayoutEntry {
            binding: 0,
            visibility: ShaderStages::Vertex,
            ty: BindingType::Buffer {
                ty: BufferBindingType::Uniform,
                has_dynamic_offset: true,
                min_binding_size: Some(polyline_uniform_min_size),
            },
            count: None,
        });
        let polyline_layout = BindGroupLayout { label: "polyline_layout", entries: polyline_entries };

        proof {
            assert(view_layout.entries@ =~= seq![uniform_layout_entry(view_uniform_min_size)]);
            assert(polyline_layout.entries@ =~= seq![
                uniform_layout_entry(polyline_uniform_min_size),
            ]);
        }
        PolylinePipeline { view_layout, polyline_layout, shader }
    }

    /// Pure specialization: the full pipeline descriptor for a key. The key
    /// decides the label, blending, depth writes, color format and sample
    /// count; everything else is the same for every variant.
    pub fn specialize(&self, key: PolylinePipelineKey) -> (r: RenderPipelineDescriptor)
        ensures
            descriptor_matches(self.shader, key, r),
    {
        let mut vertex_attributes: Vec<VertexAttribute> = Vec::new();
        vertex_attributes.push(VertexAttribute {
            format: VertexFormat::Float32x3,
            offset: 0,
            shader_location: 0,
        });
        vertex_attributes.push(VertexAttribute {
            format: VertexFormat::Float32x3,
            offset: 12,
            shader_location: 1,
        });
        proof {
            assert(vertex_attributes@ =~= spec_vertex_attributes());
        }

        let label: &'static str;
        let blend: BlendState;
        let depth_write_enabled: bool;
        if key.contains(PolylinePipelineKey { bits: TRANSPARENT_MAIN_PASS }) {
            // Transparent pass: closer fragments are alpha blended, and
            // their depth is not written to the depth buffer.
            label = "transparent_polyline_pipeline";
            blend = BlendState::AlphaBlending;
            depth_write_enabled = false;
        } else if key.contains(PolylinePipelineKey { bits: PERSPECTIVE }) {
            // Perspective needs the transparent variant to support thin-line
            // fading, but over an opaque material depth writes stay on.
            label = "transparent_polyline_pipeline";
            blend = BlendState::AlphaBlending;
            depth_write_enabled = true;
        } else {
            // Opaque pass: closer fragments replace the output and write
            // their depth.
            label = "opaque_polyline_pipeline";
            blend = BlendState::Replace;
            depth_write_enabled = true;
        }

        let format = if key.contains(PolylinePipelineKey { bits: HDR }) {
            TextureFormat::Rgba16Float
        } else {
            TextureFormat::Rgba8UnormSrgb
        };

        let mut buffers: Vec<VertexBufferLayout> = Vec::new();
        buffers.push(VertexBufferLayout {
            array_stride: 12,
            step_mode: VertexStepMode::Instance,
            attributes: vertex_attributes,
        });

        let mut targets: Vec<Option<ColorTargetState>> = Vec::new();
        targets.push(Some(ColorTargetState {
            format,
            blend: Some(blend),
            write_mask: COLOR_WRITES_ALL,
        }));
        proof {
            assert(targets@ =~= seq![
                Some(
                    ColorTargetState {
                        format: spec_color_format(key),
                        blend: Some(spec_blend(key)),
                        write_mask: COLOR_WRITES_ALL,
                    },
                ),
            ]);
        }

        let r = RenderPipelineDescriptor {
            label,
            layout: Vec::new(),
            push_constant_ranges: Vec::new(),
            vertex: VertexState { shader: self.shader, entry_point: "vertex", buffers },
            primitive: PrimitiveState {
                topology: PrimitiveTopology::TriangleList,
                strip_index_format: None,
                front_face: FrontFace::Ccw,
                cull_mode: None,
                unclipped_depth: false,
                polygon_mode: PolygonMode::Fill,
                conservative: false,
            },
            depth_stencil: Some(DepthStencilState {
                format: TextureFormat::Depth32Float,
                depth_write_enabled,
                depth_compare: CompareFunction::Greater,
                stencil: StencilState {
                    front: StencilFaceState {
                        compare: CompareFunction::Always,
                        fail_op: StencilOperation::Keep,
                        depth_fail_op: StencilOperation::Keep,
                        pass_op: StencilOperation::Keep,
                    },
                    back: StencilFaceState {
                        compare: CompareFunction::Always,
                        fail_op: StencilOperation::Keep,
                        depth_fail_op: StencilOperation::Keep,
                        pass_op: StencilOperation::Keep,
                    },
                    read_mask: 0,
                    write_mask: 0,
                },
                bias: DepthBiasState { constant: 0, slope_scale_bits: 0, clamp_bits: 0 },
            }),
            multisample: MultisampleState {
                count: key.msaa_samples(),
                mask: !0u64,
                alpha_to_coverage_enabled: false,
            },
            fragment: Some(FragmentState {
                shader: self.shader,
                entry_point: "fragment",
                targets,
            }),
        };
        proof {
            assert(!0u64 == 0xFFFF_FFFF_FFFF_FFFFu64) by (bit_vector);
        }
        r
    }
}

/// Specialization is deterministic: any two descriptors that `specialize`
/// can return for the same shader and key agree on every field.
pub proof fn lemma_specialize_deterministic(
    shader: u64,
    key: PolylinePipelineKey,
    r1: RenderPipelineDescriptor,
    r2: RenderPipelineDescriptor,
)
    requires
        descriptor_matches(shader, key, r1),
        descriptor_matches(shader, key, r2),
    ensures
        r1.label@ == r2.label@,
        r1.layout@ == r2.layout@,
        r1.push_constant_ranges@ == r2.push_constant_ranges@,
        r1.vertex.shader == r2.vertex.shader,
        r1.vertex.entry_point@ == r2.vertex.entry_point@,
        r1.vertex.buffers@.len() == r2.vertex.buffers@.len(),
        r1.vertex.buffers@[0].array_stride == r2.vertex.buffers@[0].array_stride,
        r1.vertex.buffers@[0].step_mode == r2.vertex.buffers@[0].step_mode,
        r1.vertex.buffers@[0].attributes@ == r2.vertex.buffers@[0].attributes@,
        r1.fragment matches Some(f1) && r2.fragment matches Some(f2) ==> f1.shader == f2.shader
            && f1.entry_point@ == f2.entry_point@ && f1.targets@ == f2.targets@,
        r1.primitive == r2.primitive,
        r1.depth_stencil == r2.depth_stencil,
        r1.multisample == r2.multisample,
{
}

} // verus!
