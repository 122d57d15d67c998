//! Plain-value models of the GPU pipeline and bind-group descriptors that
//! the specialization and preparation logic builds. The host's GPU layer
//! turns them into device objects; every field here is data the logic
//! decides, so the descriptors can carry exact contracts.

use vstd::prelude::*;

verus! {

/// Data format of one vertex attribute.
#[derive(Clone, Copy, PartialEq, Eq, Structural, Debug)]
pub enum VertexFormat {
    Float32,
    Float32x2,
    Float32x3,
    Float32x4,
}

/// Whether a vertex buffer advances per vertex or per instance.
#[derive(Clone, Copy, PartialEq, Eq, Structural, Debug)]
pub enum VertexStepMode {
    Vertex,
    Instance,
}

/// One attribute read from a vertex buffer.
#[derive(Clone, Copy, PartialEq, Eq, Structural, Debug)]
pub struct VertexAttribute {
    pub format: VertexFormat,
    pub offset: u64,
    pub shader_location: u32,
}

/// Layout of one vertex buffer slot.
#[derive(Clone, Debug, PartialEq)]
pub struct VertexBufferLayout {
    pub array_stride: u64,
    pub step_mode: VertexStepMode,
    pub attributes: Vec<VertexAttribute>,
}

/// The vertex stage of a pipeline: a shader (by host asset id), its entry
/// point, and the vertex buffer layouts it reads.
#[derive(Clone, Debug, PartialEq)]
pub struct VertexState {
    pub shader: u64,
    pub entry_point: &'static str,
    pub buffers: Vec<VertexBufferLayout>,
}

/// Color blending preset for a target.
#[derive(Clone, Copy, PartialEq, Eq, Structural, Debug)]
pub enum BlendState {
    /// Source replaces destination.
    Replace,
    /// Standard source-alpha blending.
    AlphaBlending,
}

/// Texture formats this pipeline can address: the host's default surface
/// format, its HDR view-target format, and the depth format.
#[derive(Clone, Copy, PartialEq, Eq, Structural, Debug)]
pub enum TextureFormat {
    Rgba8UnormSrgb,
    Rgba16Float,
    Depth32Float,
}

/// All four color channels are written.
pub const COLOR_WRITES_ALL: u32 = 0xFu32;

/// One color target of the fragment stage.
#[derive(Clone, Copy, PartialEq, Eq, Structural, Debug)]
pub struct ColorTargetState {
    pub format: TextureFormat,
    pub blend: Option<BlendState>,
    pub write_mask: u32,
}

/// The fragment stage of a pipeline.
#[derive(Clone, Debug, PartialEq)]
pub struct FragmentState {
    pub shader: u64,
    pub entry_point: &'static str,
    pub targets: Vec<Option<ColorTargetState>>,
}

/// Primitive assembly topology.
#[derive(Clone, Copy, PartialEq, Eq, Structural, Debug)]
pub enum PrimitiveTopology {
    PointList,
    LineList,
    LineStrip,
    TriangleList,
    TriangleStrip,
}

/// Winding order that counts as front-facing.
#[derive(Clone, Copy, PartialEq, Eq, Structural, Debug)]
pub enum FrontFace {
    Ccw,
    Cw,
}

/// A face that can be culled.
#[derive(Clone, Copy, PartialEq, Eq, Structural, Debug)]
pub enum Face {
    Front,
    Back,
}

/// How polygons are rasterized.
#[derive(Clone, Copy, PartialEq, Eq, Structural, Debug)]
pub enum PolygonMode {
    Fill,
    Line,
    Point,
}

/// Index element width for strip primitive restart.
#[derive(Clone, Copy, PartialEq, Eq, Structural, Debug)]
pub enum IndexFormat {
    Uint16,
    Uint32,
}

/// Primitive assembly and rasterization state.
#[derive(Clone, Copy, PartialEq, Eq, Structural, Debug)]
pub struct PrimitiveState {
    pub topology: PrimitiveTopology,
    pub strip_index_format: Option<IndexFormat>,
    pub front_face: FrontFace,
    pub cull_mode: Option<Face>,
    pub unclipped_depth: bool,
    pub polygon_mode: PolygonMode,
    pub conservative: bool,
}

/// Depth/stencil comparison function.
#[derive(Clone, Copy, PartialEq, Eq, Structural, Debug)]
pub enum CompareFunction {
    Never,
    Less,
    Equal,
    LessEqual,
    Greater,
    NotEqual,
    GreaterEqual,
    Always,
}

/// Stencil operation.
#[derive(Clone, Copy, PartialEq, Eq, Structural, Debug)]
pub enum StencilOperation {
    Keep,
    Zero,
    Replace,
    Invert,
}

/// Stencil behaviour of one face.
#[derive(Clone, Copy, PartialEq, Eq, Structural, Debug)]
pub struct StencilFaceState {
    pub compare: CompareFunction,
    pub fail_op: StencilOperation,
    pub depth_fail_op: StencilOperation,
    pub pass_op: StencilOperation,
}

/// The stencil face state that ignores the stencil entirely.
pub open spec fn stencil_face_ignore() -> StencilFaceState {
    StencilFaceState {
        compare: CompareFunction::Always,
        fail_op: StencilOperation::Keep,
        depth_fail_op: StencilOperation::Keep,
        pass_op: StencilOperation::Keep,
    }
}

/// Full stencil state: both faces plus the access masks.
#[derive(Clone, Copy, PartialEq, Eq, Structural, Debug)]
pub struct StencilState {
    pub front: StencilFaceState,
    pub back: StencilFaceState,
    pub read_mask: u32,
    pub write_mask: u32,
}

/// Depth bias. The two scale factors are IEEE-754 `f32` bit patterns, which
/// this pipeline always leaves at zero.
#[derive(Clone, Copy, PartialEq, Eq, Structural, Debug)]
pub struct DepthBiasState {
    pub constant: i32,
    pub slope_scale_bits: u32,
    pub clamp_bits: u32,
}

/// Depth and stencil stage state.
#[derive(Clone, Copy, PartialEq, Eq, Structural, Debug)]
pub struct DepthStencilState {
    pub format: TextureFormat,
    pub depth_write_enabled: bool,
    pub depth_compare: CompareFunction,
    pub stencil: StencilState,
    pub bias: DepthBiasState,
}

/// Multisampling state.
#[derive(Clone, Copy, PartialEq, Eq, Structural, Debug)]
pub struct MultisampleState {
    pub count: u32,
    pub mask: u64,
    pub alpha_to_coverage_enabled: bool,
}

/// Shader stages a resource is visible to.
#[derive(Clone, Copy, PartialEq, Eq, Structural, Debug)]
pub enum ShaderStages {
    Vertex,
    Fragment,
    VertexFragment,
}

/// A push-constant range; this pipeline declares none.
#[derive(Clone, Copy, PartialEq, Eq, Structural, Debug)]
pub struct PushConstantRange {
    pub stages: ShaderStages,
    pub range_start: u32,
    pub range_end: u32,
}

/// What a bind-group slot binds.
#[derive(Clone, Copy, PartialEq, Eq, Structural, Debug)]
pub enum BufferBindingType {
    Uniform,
    Storage,
}

/// The type of one bind-group layout entry.
#[derive(Clone, Copy, PartialEq, Eq, Structural, Debug)]
pub enum BindingType {
    Buffer {
        ty: BufferBindingType,
        has_dynamic_offset: bool,
        min_binding_size: Option<u64>,
    },
    Sampler,
    Texture,
}

/// One entry of a bind-group layout.
#[derive(Clone, Copy, PartialEq, Eq, Structural, Debug)]
pub struct BindGroupLayoutEntry {
    pub binding: u32,
    pub visibility: ShaderStages,
    pub ty: BindingType,
    pub count: Option<u32>,
}

/// A bind-group layout: a label and its entries.
#[derive(Clone, Debug, PartialEq)]
pub struct BindGroupLayout {
    pub label: &'static str,
    pub entries: Vec<BindGroupLayoutEntry>,
}

impl BindGroupLayout {
    /// An exact copy; entries are plain values, so the copy equals the
    /// original entry for entry.
    pub fn duplicate(&self) -> (r: Self)
        ensures
            r.label == self.label,
            r.entries@ == self.entries@,
    {
        let mut entries: Vec<BindGroupLayoutEntry> = Vec::new();
        let mut i: usize = 0;
        while i < self.entries.len()
            invariant
                i <= self.entries@.len(),
                entries@ == self.entries@.take(i as int),
            decreases self.entries@.len() - i,
        {
            entries.push(self.entries[i]);
            proof {
                assert(entries@ =~= self.entries@.take(i + 1));
            }
            i = i + 1;
        }
        proof {
            assert(entries@ =~= self.entries@);
        }
        BindGroupLayout { label: self.label, entries }
    }
}

/// One entry of a bind group: a slot and the host resource (by id) bound
/// into it.
#[derive(Clone, Copy, PartialEq, Eq, Structural, Debug)]
pub struct BindGroupEntry {
    pub binding: u32,
    pub resource: u64,
}

/// A bind group: resources bound as a unit against a layout.
#[derive(Clone, Debug, PartialEq)]
pub struct BindGroup {
    pub label: &'static str,
    pub layout: BindGroupLayout,
    pub entries: Vec<BindGroupEntry>,
}

/// A complete render-pipeline descriptor.
#[derive(Clone, Debug, PartialEq)]
pub struct RenderPipelineDescriptor {
    pub label: &'static str,
    pub layout: Vec<u64>,
    pub push_constant_ranges: Vec<PushConstantRange>,
    pub vertex: VertexState,
    pub primitive: PrimitiveState,
    pub depth_stencil: Option<DepthStencilState>,
    pub multisample: MultisampleState,
    pub fragment: Option<FragmentState>,
}

} // verus!
