//! What the passes ask of the graphics API, as plain values.
use vstd::prelude::*;

use crate::bytes::FloatBits;

verus! {

/// The texture formats that the passes render to or test depth in.
#[derive(Clone, Copy, Debug, PartialEq, Eq, Structural)]
pub enum TextureFormat {
    R8Unorm,
    Rgba8Unorm,
    Rgba16Float,
    Rgba32Uint,
    Depth24Plus,
    Depth32Float,
}

impl TextureFormat {
    /// Whether a texel of this format is a depth.
    pub open spec fn is_depth(self) -> bool {
        self is Depth24Plus || self is Depth32Float
    }

    /// Whether a shader reads a texel of this format as floats.
    pub open spec fn is_float_color(self) -> bool {
        self is R8Unorm || self is Rgba8Unorm || self is Rgba16Float
    }
}

#[derive(Clone, Copy, Debug, PartialEq, Eq, Structural)]
pub enum TextureDimension {
    D1,
    D2,
    D3,
}

/// What a texture may be used for.
#[derive(Clone, Copy, Debug, PartialEq, Eq, Structural)]
pub struct TextureUsages {
    pub texture_binding: bool,
    pub render_attachment: bool,
    pub copy_src: bool,
}

/// What a buffer may be used for.
#[derive(Clone, Copy, Debug, PartialEq, Eq, Structural)]
pub struct BufferUsages {
    pub uniform: bool,
    pub storage: bool,
    pub copy_dst: bool,
}

#[derive(Clone, Copy, Debug, PartialEq, Eq, Structural)]
pub struct Extent3d {
    pub width: u32,
    pub height: u32,
    pub depth_or_array_layers: u32,
}

/// The shader stage that sees a binding.
#[derive(Clone, Copy, Debug, PartialEq, Eq, Structural)]
pub enum ShaderStage {
    Vertex,
    Fragment,
}

#[derive(Clone, Copy, Debug, PartialEq, Eq, Structural)]
pub enum TextureSampleType {
    Depth,
    Float { filterable: bool },
}

#[derive(Clone, Copy, Debug, PartialEq, Eq, Structural)]
pub enum BufferBindingType {
    Uniform,
    Storage { read_only: bool },
}

/// What a shader expects at a binding. Textures are two-dimensional.
#[derive(Clone, Copy, Debug, PartialEq, Eq)]
pub enum BindingType {
    Texture { sample_type: TextureSampleType, multisampled: bool },
    Buffer {
        ty: BufferBindingType,
        has_dynamic_offset: bool,
        /// The least size a bound buffer must have, if it is checked up front.
        min_binding_size: Option<u64>,
    },
}

/// One binding of a bind group layout. No binding is an array.
#[derive(Clone, Copy, Debug, PartialEq, Eq)]
pub struct BindGroupLayoutEntry {
    pub binding: u32,
    pub visibility: ShaderStage,
    pub ty: BindingType,
}

#[derive(Clone, Copy, Debug, PartialEq, Eq, Structural)]
pub enum BlendState {
    /// Adds what the source's alpha leaves of the target to the source.
    PremultipliedAlpha,
}

#[derive(Clone, Copy, Debug, PartialEq, Eq, Structural)]
pub enum ColorWrites {
    /// All four channels are written.
    All,
}

/// How a pipeline writes to one of its color targets.
#[derive(Clone, Copy, Debug, PartialEq, Eq)]
pub struct ColorTargetState {
    pub format: TextureFormat,
    pub blend: Option<BlendState>,
    pub write_mask: ColorWrites,
}

impl ColorTargetState {
    /// A target of the given format that is overwritten in all its channels.
    pub open spec fn spec_overwrite(format: TextureFormat) -> ColorTargetState {
        ColorTargetState { format, blend: None, write_mask: ColorWrites::All }
    }

    /// A target of the given format that is overwritten in all its channels.
    #[verifier::when_used_as_spec(spec_overwrite)]
    pub fn overwrite(format: TextureFormat) -> (r: ColorTargetState)
        ensures
            r == ColorTargetState::overwrite(format),
    {
        ColorTargetState { format, blend: None, write_mask: ColorWrites::All }
    }
}

/// Overwriting a target keeps nothing of what it held, in any channel.
pub proof fn law_overwriting_blends_nothing(format: TextureFormat)
    ensures
        ColorTargetState::overwrite(format).format == format,
        ColorTargetState::overwrite(format).blend is None,
        ColorTargetState::overwrite(format).write_mask is All,
{
}

#[derive(Clone, Copy, Debug, PartialEq, Eq, Structural)]
pub enum PrimitiveTopology {
    PointList,
    LineList,
    LineStrip,
    TriangleList,
    TriangleStrip,
}

#[derive(Clone, Copy, Debug, PartialEq, Eq, Structural)]
pub enum Face {
    Front,
    Back,
}

/// How vertices become primitives. Everything that is not named here is as the
/// graphics API has it by default.
#[derive(Clone, Copy, Debug, PartialEq, Eq)]
pub struct PrimitiveState {
    pub topology: PrimitiveTopology,
    /// The faces that are left out, if any.
    pub cull_mode: Option<Face>,
}

/// The graphics API's default primitive state: `wgpu::PrimitiveState::default`.
///
/// It draws a list of triangles and culls none of them.
#[verifier::external_body]
pub(crate) fn default_primitive_state() -> (r: PrimitiveState)
    ensures
        r == (PrimitiveState { topology: PrimitiveTopology::TriangleList, cull_mode: None }),
{
    let state = wgpu::PrimitiveState::default();
    let topology = match state.topology {
        wgpu::PrimitiveTopology::PointList => PrimitiveTopology::PointList,
        wgpu::PrimitiveTopology::LineList => PrimitiveTopology::LineList,
        wgpu::PrimitiveTopology::LineStrip => PrimitiveTopology::LineStrip,
        wgpu::PrimitiveTopology::TriangleList => PrimitiveTopology::TriangleList,
        wgpu::PrimitiveTopology::TriangleStrip => PrimitiveTopology::TriangleStrip,
    };
    let cull_mode = match state.cull_mode {
        Some(wgpu::Face::Front) => Some(Face::Front),
        Some(wgpu::Face::Back) => Some(Face::Back),
        None => None,
    };
    PrimitiveState { topology, cull_mode }
}

#[derive(Clone, Copy, Debug, PartialEq, Eq, Structural)]
pub enum CompareFunction {
    Never,
    Less,
    Equal,
    LessEqual,
    Greater,
    NotEqual,
    GreaterEqual,
    Always,
}

/// How a pipeline tests and writes depth. It neither tests a stencil nor
/// biases depth.
#[derive(Clone, Copy, Debug, PartialEq, Eq)]
pub struct DepthStencilState {
    pub format: TextureFormat,
    pub depth_write_enabled: Option<bool>,
    pub depth_compare: Option<CompareFunction>,
}

#[derive(Clone, Copy, Debug, PartialEq, Eq, Structural)]
pub struct MultisampleState {
    pub count: u32,
    pub mask: u64,
    pub alpha_to_coverage_enabled: bool,
}

/// The graphics API's default multisample state:
/// `wgpu::MultisampleState::default`.
///
/// It takes one sample per pixel, masks none, and does not look at alpha.
#[verifier::external_body]
pub(crate) fn default_multisample_state() -> (r: MultisampleState)
    ensures
        r == (MultisampleState { count: 1, mask: u64::MAX, alpha_to_coverage_enabled: false }),
{
    let state = wgpu::MultisampleState::default();
    MultisampleState {
        count: state.count,
        mask: state.mask,
        alpha_to_coverage_enabled: state.alpha_to_coverage_enabled,
    }
}

/// A color that a pass clears a target to.
#[derive(Clone, Copy, Debug, PartialEq, Eq, Structural)]
pub enum ClearColor {
    /// 1 in all four channels.
    White,
    /// 0 in all four channels.
    Transparent,
}

/// What becomes of a depth target when a pass begins.
#[derive(Clone, Copy, Debug, PartialEq, Eq, Structural)]
pub enum DepthLoadOp {
    Clear(FloatBits),
    Load,
}

/// What becomes of a target when a pass ends.
#[derive(Clone, Copy, Debug, PartialEq, Eq, Structural)]
pub enum StoreOp {
    Store,
    Discard,
}

} // verus!
