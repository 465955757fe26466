//! Screen-space ambient occlusion.
//!
//! A matcap bakes a lighting environment into an image of a sphere. It knows
//! nothing about the scene, so two parts that touch show no contact darkening
//! and an assembly reads as floating shells. This supplies what the matcap
//! cannot.
//!
//! Three passes, all before the main pass:
//!
//! 1. A prepass draws opaque meshes into a single-sampled depth target and a
//!    view-space normal target. The main depth buffer cannot serve: it is
//!    multisampled, and no shader may sample it.
//! 2. An estimate pass reads both and writes raw occlusion. [`OcclusionMethod`]
//!    picks how: disk sampling, or a horizon search that also yields a bent
//!    normal.
//! 3. A depth-aware blur removes the per-pixel sampling pattern and applies
//!    the strength exponent.
//!
//! Neither fullscreen pass binds the global bind group. The blur writes the
//! very textures that group carries, and a texture cannot be an attachment and
//! a binding in one pass. The camera terms they need travel in their own
//! uniform instead.
use vstd::prelude::*;

use crate::bytes::{bytes_in_order, words_to_bytes, FloatBits};
use crate::commands::{
    with_pass, with_passes, CommandEncoder, DepthAttachment, DrawRange,
    GpuRenderPipelinePoolAccessor, PassCommand, PoolError, RenderPass, RenderPassDescriptor,
    RenderPassDescriptorView, RenderPassView,
};
use crate::gpu_types::{
    default_multisample_state, default_primitive_state, BindGroupLayoutEntry, BindingType,
    BufferBindingType, ClearColor, ColorTargetState, DepthLoadOp, Extent3d, MultisampleState,
    PrimitiveState, PrimitiveTopology, ShaderStage, StoreOp, TextureDimension, TextureFormat,
    TextureSampleType, TextureUsages,
};
use crate::handles::{
    BindGroupEntry, ColorAttachment, GpuBindGroup, GpuBindGroupLayoutHandle,
    GpuPipelineLayoutHandle, GpuRenderPipelineHandle, GpuShaderModuleHandle, GpuTexture,
    GpuTextureHandle, GpuUniformHandle,
};
use crate::inline_vec::{BindGroupEntries, ColorAttachments, ColorTargets};
use crate::occlusion_laws::{law_bind_groups_can_be_made, law_requests_can_be_served};
use crate::resources::{
    all_fit, all_resolve, BindGroupDesc, BindGroupDescView, BindGroupLayoutDesc,
    BindGroupLayoutDescView, Label, PipelineLayoutDesc, PipelineLayoutDescView, RenderContext,
    RenderContextView, RenderPipelineDesc, RenderPipelineDescView, RequestView, ShaderModule,
    TextureDesc, TextureDescView,
};
use crate::uniforms::{OcclusionUniformBuffer, OCCLUSION_UNIFORM_SIZE};

verus! {

/// How the estimate pass finds occlusion.
#[derive(Clone, Copy, Debug, PartialEq, Eq, Structural)]
pub enum OcclusionMethod {
    /// Normal-oriented disk sampling. Specular occlusion then comes from an
    /// analytic formula.
    Disk {
        /// Samples per pixel.
        sample_count: u32,
    },
    /// Horizon-based occlusion. It also yields a bent normal, so specular
    /// occlusion comes from the overlap of the reflection cone with the open
    /// cone around it.
    Horizon {
        /// Directions searched per pixel.
        slice_count: u32,
        /// Samples along each direction, on each side of the pixel.
        steps_per_slice: u32,
    },
}

/// The number, or 1 if it is 0.
pub open spec fn at_least_one(n: u32) -> u32 {
    if n == 0 {
        1
    } else {
        n
    }
}

impl OcclusionMethod {
    /// How many samples or directions the shader takes: at least one.
    pub open spec fn effective_sample_count(self) -> u32 {
        match self {
            OcclusionMethod::Disk { sample_count } => at_least_one(sample_count),
            OcclusionMethod::Horizon { slice_count, .. } => at_least_one(slice_count),
        }
    }

    /// How many steps the shader takes along a direction: at least one for the
    /// horizon method, none for the other.
    pub open spec fn effective_steps_per_slice(self) -> u32 {
        match self {
            OcclusionMethod::Disk { .. } => 0,
            OcclusionMethod::Horizon { steps_per_slice, .. } => at_least_one(steps_per_slice),
        }
    }

    /// How many samples or directions the shader takes, how many steps along
    /// each direction, and whether the method yields a bent normal.
    fn sampling(self) -> (r: (u32, u32, bool))
        ensures
            r.0 == self.effective_sample_count(),
            r.1 == self.effective_steps_per_slice(),
            r.2 == (self is Horizon),
    {
        let (sample_count, steps_per_slice, horizon): (u32, u32, bool) = match self {
            OcclusionMethod::Disk { sample_count } => (sample_count, 0, false),
            OcclusionMethod::Horizon { slice_count, steps_per_slice } => (
                slice_count,
                if steps_per_slice == 0 {
                    1
                } else {
                    steps_per_slice
                },
                true,
            ),
        };
        if sample_count == 0 {
            (1, steps_per_slice, horizon)
        } else {
            (sample_count, steps_per_slice, horizon)
        }
    }
}

/// Which occlusion term the mesh shader shows instead of the shading.
///
/// A debug view. It costs no pass: the choice travels in the frame uniform, and
/// the mesh shader returns the term as grey.
#[derive(Clone, Copy, Debug, PartialEq, Eq, Structural)]
pub enum OcclusionDebugView {
    /// Shade as usual.
    Off,
    /// The ambient occlusion the fragment reads, which darkens the diffuse
    /// lobe.
    Ambient,
    /// The reflection occlusion the specular lobe is masked by. A surface with
    /// no specular lobe shows white: it has nothing to occlude.
    Specular,
}

impl Default for OcclusionDebugView {
    fn default() -> (r: Self)
        ensures
            r == OcclusionDebugView::Off,
    {
        OcclusionDebugView::Off
    }
}

impl OcclusionDebugView {
    /// The number by which the mesh shader knows the view.
    pub fn code(self) -> (r: u32)
        ensures
            r == (match self {
                OcclusionDebugView::Off => 0u32,
                OcclusionDebugView::Ambient => 1u32,
                OcclusionDebugView::Specular => 2u32,
            }),
    {
        match self {
            OcclusionDebugView::Off => 0,
            OcclusionDebugView::Ambient => 1,
            OcclusionDebugView::Specular => 2,
        }
    }
}

/// How a view estimates ambient occlusion.
#[derive(Clone, Copy, Debug)]
pub struct OcclusionConfig {
    pub method: OcclusionMethod,
    /// Sampling radius in world units.
    pub world_radius: FloatBits,
    /// The pixel radius the world radius is clamped to, as `[min, max]`.
    ///
    /// Too small degenerates to noise. Too large reads most of the screen when
    /// the camera is close, and the cost falls off a cliff.
    pub pixel_radius_range: [FloatBits; 2],
    /// Exponent on the occlusion term. 1 leaves it unchanged.
    pub strength: FloatBits,
}

/// Two configurations are equal if they have the same method and their floats
/// are equal as numbers. So one that holds a NaN does not even equal itself.
impl PartialEq for OcclusionConfig {
    fn eq(&self, other: &Self) -> (r: bool) {
        self.method == other.method && self.world_radius.compares_equal(other.world_radius)
            && self.pixel_radius_range[0].compares_equal(other.pixel_radius_range[0])
            && self.pixel_radius_range[1].compares_equal(other.pixel_radius_range[1])
            && self.strength.compares_equal(other.strength)
    }
}

impl vstd::std_specs::cmp::PartialEqSpecImpl for OcclusionConfig {
    open spec fn obeys_eq_spec() -> bool {
        true
    }

    open spec fn eq_spec(&self, other: &Self) -> bool {
        &&& self.method == other.method
        &&& self.world_radius.compares_equal(other.world_radius)
        &&& self.pixel_radius_range@[0].compares_equal(other.pixel_radius_range@[0])
        &&& self.pixel_radius_range@[1].compares_equal(other.pixel_radius_range@[1])
        &&& self.strength.compares_equal(other.strength)
    }
}

/// What the occlusion shaders have to know of the camera.
#[derive(Clone, Copy, Debug, PartialEq, Eq)]
pub struct OcclusionCamera {
    /// The inverse of the projection matrix, column by column.
    pub view_from_projection: [FloatBits; 16],
    /// The last component of the third column of the projection matrix.
    ///
    /// A perspective matrix carries -1 there; an orthographic one carries 0.
    pub projection_z_axis_w: FloatBits,
    /// Clip-space y per view-space unit, in pixels. Unlike a focal length this
    /// includes the viewport zoom, which the projection matrix carries.
    pub pixels_per_world_unit: FloatBits,
    /// The size of the targets in pixels.
    pub framebuffer_resolution: [FloatBits; 2],
}

/// What the occlusion shaders read for this configuration and camera.
pub open spec fn occlusion_uniform(
    config: OcclusionConfig,
    camera: OcclusionCamera,
) -> OcclusionUniformBuffer {
    OcclusionUniformBuffer {
        view_from_projection: camera.view_from_projection,
        framebuffer_resolution: camera.framebuffer_resolution,
        pixels_per_world_unit: camera.pixels_per_world_unit,
        perspective: if camera.projection_z_axis_w.is_zero() {
            0
        } else {
            1
        },
        world_radius: config.world_radius,
        pixel_radius_min: config.pixel_radius_range@[0],
        pixel_radius_max: config.pixel_radius_range@[1],
        strength: config.strength,
        sample_count: config.method.effective_sample_count(),
        steps_per_slice: config.method.effective_steps_per_slice(),
    }
}

/// The textures that carry bent normals.
#[derive(Clone, Copy, Debug, PartialEq, Eq, Structural)]
pub struct BentNormals {
    pub raw: GpuTexture,
    pub blurred: GpuTexture,
}

/// The textures of the passes.
#[derive(Clone, Copy, Debug, PartialEq, Eq)]
pub struct OcclusionTextures {
    pub prepass_normal: GpuTexture,
    pub prepass_depth: GpuTexture,
    pub raw_occlusion: GpuTexture,
    pub occlusion: GpuTexture,
    /// For the horizon method only.
    pub bent_normals: Option<BentNormals>,
}

/// Estimates the occlusion of one view.
pub struct OcclusionProcessor {
    label: Label,
    /// What the main pass does to its depth target when it begins.
    depth_load: DepthLoadOp,
    textures: OcclusionTextures,
    bind_group_estimate: GpuBindGroup,
    bind_group_blur: GpuBindGroup,
    render_pipeline_estimate: GpuRenderPipelineHandle,
    render_pipeline_blur: GpuRenderPipelineHandle,
}

#[verifier::ext_equal]
pub struct OcclusionProcessorView {
    pub label: Seq<char>,
    pub depth_load: DepthLoadOp,
    pub textures: OcclusionTextures,
    pub bind_group_estimate: GpuBindGroup,
    pub bind_group_blur: GpuBindGroup,
    pub render_pipeline_estimate: GpuRenderPipelineHandle,
    pub render_pipeline_blur: GpuRenderPipelineHandle,
}

impl View for OcclusionProcessor {
    type V = OcclusionProcessorView;

    closed spec fn view(&self) -> OcclusionProcessorView {
        OcclusionProcessorView {
            label: self.label@,
            depth_load: self.depth_load,
            textures: self.textures,
            bind_group_estimate: self.bind_group_estimate,
            bind_group_blur: self.bind_group_blur,
            render_pipeline_estimate: self.render_pipeline_estimate,
            render_pipeline_blur: self.render_pipeline_blur,
        }
    }
}

/// A texture that a pass draws to and another one reads.
pub open spec fn target_usage() -> TextureUsages {
    TextureUsages { texture_binding: true, render_attachment: true, copy_src: false }
}

/// The same, and copyable, so a test can read the results back.
pub open spec fn result_usage() -> TextureUsages {
    TextureUsages { texture_binding: true, render_attachment: true, copy_src: true }
}

/// A single-sampled texture of the size of the view.
pub open spec fn target_desc(
    label: Seq<char>,
    resolution: Seq<u32>,
    format: TextureFormat,
    usage: TextureUsages,
) -> TextureDescView {
    TextureDescView {
        label,
        size: Extent3d {
            width: resolution[0],
            height: resolution[1],
            depth_or_array_layers: 1,
        },
        mip_level_count: 1,
        sample_count: 1,
        dimension: TextureDimension::D2,
        format,
        usage,
    }
}

fn new_target_desc(
    label: Label,
    resolution_in_pixel: [u32; 2],
    format: TextureFormat,
    usage: TextureUsages,
) -> (r: TextureDesc)
    ensures
        r@ == target_desc(label@, resolution_in_pixel@, format, usage),
{
    TextureDesc {
        label,
        size: Extent3d {
            width: resolution_in_pixel[0],
            height: resolution_in_pixel[1],
            depth_or_array_layers: 1,
        },
        mip_level_count: 1,
        sample_count: 1,
        dimension: TextureDimension::D2,
        format,
        usage,
    }
}

/// The requests for the textures of the passes.
pub open spec fn texture_requests(
    label: Seq<char>,
    resolution: Seq<u32>,
    depth_format: TextureFormat,
    horizon: bool,
) -> Seq<RequestView> {
    seq![
        RequestView::Texture(
            target_desc(
                label + "::prepass_normal"@,
                resolution,
                OcclusionProcessor::NORMAL_FORMAT,
                target_usage(),
            ),
        ),
        RequestView::Texture(
            target_desc(label + "::prepass_depth"@, resolution, depth_format, target_usage()),
        ),
        RequestView::Texture(
            target_desc(
                label + "::raw_occlusion"@,
                resolution,
                OcclusionProcessor::OCCLUSION_FORMAT,
                result_usage(),
            ),
        ),
        RequestView::Texture(
            target_desc(
                label + "::occlusion"@,
                resolution,
                OcclusionProcessor::OCCLUSION_FORMAT,
                result_usage(),
            ),
        ),
    ] + if horizon {
        seq![
            RequestView::Texture(
                target_desc(
                    label + "::raw_bent_normal"@,
                    resolution,
                    OcclusionProcessor::BENT_NORMAL_FORMAT,
                    result_usage(),
                ),
            ),
            RequestView::Texture(
                target_desc(
                    label + "::bent_normal"@,
                    resolution,
                    OcclusionProcessor::BENT_NORMAL_FORMAT,
                    result_usage(),
                ),
            ),
        ]
    } else {
        Seq::empty()
    }
}

/// The texture that the request at `index` asks for.
pub open spec fn texture_at(index: int) -> GpuTexture {
    GpuTexture { handle: GpuTextureHandle { index: index as usize } }
}

/// The textures that [`texture_requests`] asks for, the first of them at `base`.
pub open spec fn textures_at(base: int, horizon: bool) -> OcclusionTextures {
    OcclusionTextures {
        prepass_normal: texture_at(base),
        prepass_depth: texture_at(base + 1),
        raw_occlusion: texture_at(base + 2),
        occlusion: texture_at(base + 3),
        bent_normals: if horizon {
            Some(BentNormals { raw: texture_at(base + 4), blurred: texture_at(base + 5) })
        } else {
            None
        },
    }
}

/// Asks for the textures of the passes.
fn alloc_textures(
    ctx: &mut RenderContext,
    label: &Label,
    resolution_in_pixel: [u32; 2],
    horizon: bool,
) -> (r: OcclusionTextures)
    ensures
        r == textures_at(old(ctx)@.requests.len() as int, horizon),
        final(ctx)@ == old(ctx)@.with_requests(
            texture_requests(
                label@,
                resolution_in_pixel@,
                old(ctx)@.targets.main_depth_format,
                horizon,
            ),
        ),
{
    let target_usage = TextureUsages {
        texture_binding: true,
        render_attachment: true,
        copy_src: false,
    };
    // Copyable, so a test can read the results back.
    let result_usage = TextureUsages {
        texture_binding: true,
        render_attachment: true,
        copy_src: true,
    };
    let depth_format = ctx.targets().main_depth_format;
    let prepass_normal = ctx.alloc_texture(
        new_target_desc(
            label.with_suffix("::prepass_normal"),
            resolution_in_pixel,
            OcclusionProcessor::NORMAL_FORMAT,
            target_usage,
        ),
    );
    let prepass_depth = ctx.alloc_texture(
        new_target_desc(
            label.with_suffix("::prepass_depth"),
            resolution_in_pixel,
            depth_format,
            target_usage,
        ),
    );
    let raw_occlusion = ctx.alloc_texture(
        new_target_desc(
            label.with_suffix("::raw_occlusion"),
            resolution_in_pixel,
            OcclusionProcessor::OCCLUSION_FORMAT,
            result_usage,
        ),
    );
    let occlusion = ctx.alloc_texture(
        new_target_desc(
            label.with_suffix("::occlusion"),
            resolution_in_pixel,
            OcclusionProcessor::OCCLUSION_FORMAT,
            result_usage,
        ),
    );
    let bent_normals = if horizon {
        let raw = ctx.alloc_texture(
            new_target_desc(
                label.with_suffix("::raw_bent_normal"),
                resolution_in_pixel,
                OcclusionProcessor::BENT_NORMAL_FORMAT,
                result_usage,
            ),
        );
        let blurred = ctx.alloc_texture(
            new_target_desc(
                label.with_suffix("::bent_normal"),
                resolution_in_pixel,
                OcclusionProcessor::BENT_NORMAL_FORMAT,
                result_usage,
            ),
        );
        Some(BentNormals { raw, blurred })
    } else {
        None
    };
    assert(ctx@.requests =~= old(ctx)@.requests + texture_requests(
        label@,
        resolution_in_pixel@,
        old(ctx)@.targets.main_depth_format,
        horizon,
    ));
    OcclusionTextures { prepass_normal, prepass_depth, raw_occlusion, occlusion, bent_normals }
}

/// A depth texture that the fragment shader reads.
pub open spec fn spec_depth_entry(binding: u32) -> BindGroupLayoutEntry {
    BindGroupLayoutEntry {
        binding,
        visibility: ShaderStage::Fragment,
        ty: BindingType::Texture { sample_type: TextureSampleType::Depth, multisampled: false },
    }
}

/// A depth texture that the fragment shader reads.
#[verifier::when_used_as_spec(spec_depth_entry)]
pub fn depth_entry(binding: u32) -> (r: BindGroupLayoutEntry)
    ensures
        r == depth_entry(binding),
{
    BindGroupLayoutEntry {
        binding,
        visibility: ShaderStage::Fragment,
        ty: BindingType::Texture { sample_type: TextureSampleType::Depth, multisampled: false },
    }
}

/// A color texture that the fragment shader reads texel by texel.
pub open spec fn spec_float_entry(binding: u32) -> BindGroupLayoutEntry {
    BindGroupLayoutEntry {
        binding,
        visibility: ShaderStage::Fragment,
        ty: BindingType::Texture {
            sample_type: TextureSampleType::Float { filterable: false },
            multisampled: false,
        },
    }
}

/// A color texture that the fragment shader reads texel by texel.
#[verifier::when_used_as_spec(spec_float_entry)]
pub fn float_entry(binding: u32) -> (r: BindGroupLayoutEntry)
    ensures
        r == float_entry(binding),
{
    BindGroupLayoutEntry {
        binding,
        visibility: ShaderStage::Fragment,
        ty: BindingType::Texture {
            sample_type: TextureSampleType::Float { filterable: false },
            multisampled: false,
        },
    }
}

/// The occlusion uniform, which the fragment shader reads.
pub open spec fn spec_uniform_entry(binding: u32) -> BindGroupLayoutEntry {
    BindGroupLayoutEntry {
        binding,
        visibility: ShaderStage::Fragment,
        ty: BindingType::Buffer {
            ty: BufferBindingType::Uniform,
            has_dynamic_offset: false,
            min_binding_size: Some(OCCLUSION_UNIFORM_SIZE),
        },
    }
}

/// The occlusion uniform, which the fragment shader reads.
#[verifier::when_used_as_spec(spec_uniform_entry)]
pub fn uniform_entry(binding: u32) -> (r: BindGroupLayoutEntry)
    ensures
        r == uniform_entry(binding),
{
    BindGroupLayoutEntry {
        binding,
        visibility: ShaderStage::Fragment,
        ty: BindingType::Buffer {
            ty: BufferBindingType::Uniform,
            has_dynamic_offset: false,
            min_binding_size: Some(OCCLUSION_UNIFORM_SIZE),
        },
    }
}

/// What the estimate pass binds.
pub open spec fn estimate_layout() -> BindGroupLayoutDescView {
    BindGroupLayoutDescView {
        label: "OcclusionProcessor::layout_estimate"@,
        entries: seq![depth_entry(0), float_entry(1), uniform_entry(2)],
    }
}

/// What the blur pass binds.
///
/// The prepass normal at 3, so the blur can reject a neighbour across a convex
/// edge, where the depth weight alone could not see one. The horizon-only bent
/// normal comes last: a bind group numbers its entries by position, so an
/// optional binding anywhere else would leave a gap that the disk method's bind
/// group cannot match.
pub open spec fn blur_layout(horizon: bool) -> BindGroupLayoutDescView {
    BindGroupLayoutDescView {
        label: if horizon {
            "OcclusionProcessor::layout_blur_bent"@
        } else {
            "OcclusionProcessor::layout_blur"@
        },
        entries: seq![float_entry(0), depth_entry(1), uniform_entry(2), float_entry(3)]
            + if horizon {
            seq![float_entry(4)]
        } else {
            Seq::empty()
        },
    }
}

/// What the estimate pass reads: the results of the prepass.
pub open spec fn estimate_bindings(
    textures: OcclusionTextures,
    uniform: GpuUniformHandle,
) -> Seq<BindGroupEntry> {
    seq![
        BindGroupEntry::DefaultTextureView(textures.prepass_depth.handle),
        BindGroupEntry::DefaultTextureView(textures.prepass_normal.handle),
        BindGroupEntry::Uniform(uniform),
    ]
}

/// What the blur pass reads: the results of the estimate, and those of the
/// prepass.
pub open spec fn blur_bindings(
    textures: OcclusionTextures,
    uniform: GpuUniformHandle,
) -> Seq<BindGroupEntry> {
    seq![
        BindGroupEntry::DefaultTextureView(textures.raw_occlusion.handle),
        BindGroupEntry::DefaultTextureView(textures.prepass_depth.handle),
        BindGroupEntry::Uniform(uniform),
        BindGroupEntry::DefaultTextureView(textures.prepass_normal.handle),
    ] + match textures.bent_normals {
        Some(bent_normals) => seq![BindGroupEntry::DefaultTextureView(bent_normals.raw.handle)],
        None => Seq::empty(),
    }
}

/// The requests for what the passes read, the first of them at `base`.
pub open spec fn binding_requests(
    label: Seq<char>,
    textures: OcclusionTextures,
    contents: Seq<u8>,
    base: int,
) -> Seq<RequestView> {
    let uniform = GpuUniformHandle { index: base as usize };
    seq![
        RequestView::UniformBuffer { label: label + "::uniform"@, contents },
        RequestView::BindGroupLayout(estimate_layout()),
        RequestView::BindGroupLayout(blur_layout(textures.bent_normals is Some)),
        RequestView::BindGroup(
            BindGroupDescView {
                label: label + "::estimate"@,
                entries: estimate_bindings(textures, uniform),
                layout: GpuBindGroupLayoutHandle::Requested((base + 1) as usize),
            },
        ),
        RequestView::BindGroup(
            BindGroupDescView {
                label: label + "::blur"@,
                entries: blur_bindings(textures, uniform),
                layout: GpuBindGroupLayoutHandle::Requested((base + 2) as usize),
            },
        ),
    ]
}

/// What the passes read, and how it is laid out.
struct OcclusionBindings {
    layout_estimate: GpuBindGroupLayoutHandle,
    layout_blur: GpuBindGroupLayoutHandle,
    bind_group_estimate: GpuBindGroup,
    bind_group_blur: GpuBindGroup,
}

/// Asks for what the passes read.
fn create_bindings(
    ctx: &mut RenderContext,
    label: &Label,
    textures: &OcclusionTextures,
    contents: Vec<u8>,
) -> (r: OcclusionBindings)
    ensures
        ({
            let base = old(ctx)@.requests.len() as int;
            &&& r.layout_estimate == GpuBindGroupLayoutHandle::Requested((base + 1) as usize)
            &&& r.layout_blur == GpuBindGroupLayoutHandle::Requested((base + 2) as usize)
            &&& r.bind_group_estimate.index == base + 3
            &&& r.bind_group_blur.index == base + 4
            &&& final(ctx)@ == old(ctx)@.with_requests(
                binding_requests(label@, *textures, contents@, base),
            )
        }),
{
    let horizon = textures.bent_normals.is_some();
    let uniform = ctx.create_and_fill_uniform_buffer(label.with_suffix("::uniform"), contents);

    let layout_estimate = ctx.get_or_create_bind_group_layout(
        BindGroupLayoutDesc {
            label: Label::new("OcclusionProcessor::layout_estimate"),
            entries: vec![depth_entry(0), float_entry(1), uniform_entry(2)],
        },
    );
    let mut blur_entries: Vec<BindGroupLayoutEntry> = vec![
        float_entry(0),
        depth_entry(1),
        uniform_entry(2),
        float_entry(3),
    ];
    if horizon {
        blur_entries.push(float_entry(4));
    }
    assert(blur_entries@ =~= blur_layout(horizon).entries);
    let layout_blur = ctx.get_or_create_bind_group_layout(
        BindGroupLayoutDesc {
            label: Label::new(
                if horizon {
                    "OcclusionProcessor::layout_blur_bent"
                } else {
                    "OcclusionProcessor::layout_blur"
                },
            ),
            entries: blur_entries,
        },
    );

    let mut entries = BindGroupEntries::new();
    entries.push(BindGroupEntry::DefaultTextureView(textures.prepass_depth.handle));
    entries.push(BindGroupEntry::DefaultTextureView(textures.prepass_normal.handle));
    entries.push(uniform);
    assert(entries@ =~= estimate_bindings(*textures, uniform->Uniform_0));
    let bind_group_estimate = ctx.alloc_bind_group(
        BindGroupDesc { label: label.with_suffix("::estimate"), entries, layout: layout_estimate },
    );

    let mut entries = BindGroupEntries::new();
    entries.push(BindGroupEntry::DefaultTextureView(textures.raw_occlusion.handle));
    entries.push(BindGroupEntry::DefaultTextureView(textures.prepass_depth.handle));
    entries.push(uniform);
    entries.push(BindGroupEntry::DefaultTextureView(textures.prepass_normal.handle));
    if let Some(bent_normals) = textures.bent_normals {
        entries.push(BindGroupEntry::DefaultTextureView(bent_normals.raw.handle));
    }
    assert(entries@ =~= blur_bindings(*textures, uniform->Uniform_0));
    let bind_group_blur = ctx.alloc_bind_group(
        BindGroupDesc { label: label.with_suffix("::blur"), entries, layout: layout_blur },
    );

    assert(ctx@.requests =~= old(ctx)@.requests + binding_requests(
        label@,
        *textures,
        contents@,
        old(ctx)@.requests.len() as int,
    ));
    OcclusionBindings { layout_estimate, layout_blur, bind_group_estimate, bind_group_blur }
}

/// What the fullscreen passes draw to: occlusion, and bent normals for the
/// horizon method.
pub open spec fn pass_targets(horizon: bool) -> Seq<Option<ColorTargetState>> {
    seq![Some(ColorTargetState::overwrite(OcclusionProcessor::OCCLUSION_FORMAT))] + if horizon {
        seq![Some(ColorTargetState::overwrite(OcclusionProcessor::BENT_NORMAL_FORMAT))]
    } else {
        Seq::empty()
    }
}

/// A pipeline that covers the screen with one triangle, and tests no depth.
pub open spec fn fullscreen_pipeline(
    label: Seq<char>,
    pipeline_layout: int,
    vertex: int,
    fragment_entrypoint: Seq<char>,
    fragment: int,
    horizon: bool,
) -> RenderPipelineDescView {
    RenderPipelineDescView {
        label,
        pipeline_layout: GpuPipelineLayoutHandle { index: pipeline_layout as usize },
        vertex_entrypoint: "main"@,
        vertex_handle: GpuShaderModuleHandle { index: vertex as usize },
        fragment_entrypoint,
        fragment_handle: GpuShaderModuleHandle { index: fragment as usize },
        render_targets: pass_targets(horizon),
        primitive: PrimitiveState {
            topology: PrimitiveTopology::TriangleList,
            cull_mode: None,
        },
        depth_stencil: None,
        multisample: MultisampleState {
            count: 1,
            mask: u64::MAX,
            alpha_to_coverage_enabled: false,
        },
    }
}

/// The requests for the pipelines of the fullscreen passes, the first of them
/// at `base`.
pub open spec fn pipeline_requests(
    layout_estimate: GpuBindGroupLayoutHandle,
    layout_blur: GpuBindGroupLayoutHandle,
    horizon: bool,
    base: int,
) -> Seq<RequestView> {
    seq![
        RequestView::PipelineLayout(
            PipelineLayoutDescView {
                label: "OcclusionProcessor::estimate"@,
                entries: seq![layout_estimate],
            },
        ),
        RequestView::ShaderModule(ShaderModule::ScreenTriangle),
        RequestView::ShaderModule(
            if horizon {
                ShaderModule::OcclusionHorizon
            } else {
                ShaderModule::OcclusionEstimate
            },
        ),
        RequestView::RenderPipeline(
            fullscreen_pipeline(
                "OcclusionProcessor::estimate"@,
                base,
                base + 1,
                "main"@,
                base + 2,
                horizon,
            ),
        ),
        RequestView::PipelineLayout(
            PipelineLayoutDescView {
                label: "OcclusionProcessor::blur"@,
                entries: seq![layout_blur],
            },
        ),
        RequestView::ShaderModule(ShaderModule::OcclusionBlur),
        RequestView::RenderPipeline(
            fullscreen_pipeline(
                "OcclusionProcessor::blur"@,
                base + 4,
                base + 1,
                if horizon {
                    "main_with_bent_normal"@
                } else {
                    "main"@
                },
                base + 5,
                horizon,
            ),
        ),
    ]
}

/// Asks for the pipelines of the fullscreen passes: that of the estimate and
/// that of the blur.
fn create_pipelines(
    ctx: &mut RenderContext,
    layout_estimate: GpuBindGroupLayoutHandle,
    layout_blur: GpuBindGroupLayoutHandle,
    horizon: bool,
) -> (r: (GpuRenderPipelineHandle, GpuRenderPipelineHandle))
    ensures
        r.0.index == old(ctx)@.requests.len() + 3,
        r.1.index == old(ctx)@.requests.len() + 6,
        final(ctx)@ == old(ctx)@.with_requests(
            pipeline_requests(
                layout_estimate,
                layout_blur,
                horizon,
                old(ctx)@.requests.len() as int,
            ),
        ),
{
    let mut targets = ColorTargets::new();
    targets.push(Some(ColorTargetState::overwrite(OcclusionProcessor::OCCLUSION_FORMAT)));
    if horizon {
        targets.push(Some(ColorTargetState::overwrite(OcclusionProcessor::BENT_NORMAL_FORMAT)));
    }
    assert(targets@ =~= pass_targets(horizon));
    let blur_targets = targets.duplicate();
    let primitive = default_primitive_state();
    let multisample = default_multisample_state();

    let pipeline_layout = ctx.get_or_create_pipeline_layout(
        PipelineLayoutDesc {
            label: Label::new("OcclusionProcessor::estimate"),
            entries: vec![layout_estimate],
        },
    );
    let vertex_handle = ctx.get_or_create_shader_module(ShaderModule::ScreenTriangle);
    let fragment_handle = ctx.get_or_create_shader_module(
        if horizon {
            ShaderModule::OcclusionHorizon
        } else {
            ShaderModule::OcclusionEstimate
        },
    );
    let estimate = ctx.get_or_create_render_pipeline(
        RenderPipelineDesc {
            label: Label::new("OcclusionProcessor::estimate"),
            pipeline_layout,
            vertex_entrypoint: "main".to_owned(),
            vertex_handle,
            fragment_entrypoint: "main".to_owned(),
            fragment_handle,
            render_targets: targets,
            primitive,
            depth_stencil: None,
            multisample,
        },
    );

    let pipeline_layout = ctx.get_or_create_pipeline_layout(
        PipelineLayoutDesc {
            label: Label::new("OcclusionProcessor::blur"),
            entries: vec![layout_blur],
        },
    );
    let fragment_handle = ctx.get_or_create_shader_module(ShaderModule::OcclusionBlur);
    let blur = ctx.get_or_create_render_pipeline(
        RenderPipelineDesc {
            label: Label::new("OcclusionProcessor::blur"),
            pipeline_layout,
            vertex_entrypoint: "main".to_owned(),
            vertex_handle,
            fragment_entrypoint: if horizon {
                "main_with_bent_normal".to_owned()
            } else {
                "main".to_owned()
            },
            fragment_handle,
            render_targets: blur_targets,
            primitive,
            depth_stencil: None,
            multisample,
        },
    );

    assert(ctx@.requests =~~= old(ctx)@.requests + pipeline_requests(
        layout_estimate,
        layout_blur,
        horizon,
        old(ctx)@.requests.len() as int,
    ));
    (estimate, blur)
}

/// What a fullscreen pass draws to. Where it draws nothing, nothing is occluded
/// and there is no bent normal.
pub open spec fn fullscreen_pass(
    label: Seq<char>,
    occlusion: GpuTexture,
    bent_normal: Option<GpuTexture>,
) -> RenderPassDescriptorView {
    RenderPassDescriptorView {
        label,
        color_attachments: seq![
            Some(
                ColorAttachment {
                    view: occlusion.handle,
                    clear: ClearColor::White,
                    store: StoreOp::Store,
                },
            ),
        ] + match bent_normal {
            Some(bent_normal) => seq![
                Some(
                    ColorAttachment {
                        view: bent_normal.handle,
                        clear: ClearColor::Transparent,
                        store: StoreOp::Store,
                    },
                ),
            ],
            None => Seq::empty(),
        },
        depth_attachment: None,
    }
}

/// What a fullscreen pass draws: one triangle.
pub open spec fn fullscreen_commands(
    pipeline: GpuRenderPipelineHandle,
    bind_group: GpuBindGroup,
) -> Seq<PassCommand> {
    seq![
        PassCommand::SetPipeline(pipeline),
        PassCommand::SetBindGroup { index: 0, bind_group },
        PassCommand::Draw {
            vertices: DrawRange { start: 0, end: 3 },
            instances: DrawRange { start: 0, end: 1 },
        },
    ]
}

impl OcclusionProcessorView {
    /// What the prepass draws to: the normals, and a depth that begins as the
    /// main pass's does, so the two depths agree.
    pub open spec fn prepass(self) -> RenderPassDescriptorView {
        RenderPassDescriptorView {
            label: self.label + " - prepass"@,
            color_attachments: seq![
                Some(
                    ColorAttachment {
                        view: self.textures.prepass_normal.handle,
                        clear: ClearColor::Transparent,
                        store: StoreOp::Store,
                    },
                ),
            ],
            depth_attachment: Some(
                DepthAttachment {
                    view: self.textures.prepass_depth.handle,
                    load: self.depth_load,
                    store: StoreOp::Store,
                },
            ),
        }
    }

    /// The pass that writes raw occlusion and raw bent normals.
    pub open spec fn estimate_pass(self) -> RenderPassView {
        RenderPassView {
            desc: fullscreen_pass(
                self.label + " - "@ + "estimate"@,
                self.textures.raw_occlusion,
                match self.textures.bent_normals {
                    Some(bent_normals) => Some(bent_normals.raw),
                    None => None,
                },
            ),
            commands: fullscreen_commands(self.render_pipeline_estimate, self.bind_group_estimate),
        }
    }

    /// The pass that writes the finished occlusion and bent normals.
    pub open spec fn blur_pass(self) -> RenderPassView {
        RenderPassView {
            desc: fullscreen_pass(
                self.label + " - "@ + "blur"@,
                self.textures.occlusion,
                match self.textures.bent_normals {
                    Some(bent_normals) => Some(bent_normals.blurred),
                    None => None,
                },
            ),
            commands: fullscreen_commands(self.render_pipeline_blur, self.bind_group_blur),
        }
    }
}

impl OcclusionProcessorView {
    /// Whether occlusion is computed with the pipelines that are ready, and the
    /// passes that are drawn. A pass whose pipeline is not ready begins, draws
    /// nothing, and is the last.
    pub open spec fn computed(self, pipelines: GpuRenderPipelinePoolAccessor) -> (
        Result<(), PoolError>,
        Seq<RenderPassView>,
    ) {
        if !pipelines.has(self.render_pipeline_estimate) {
            (
                Err(PoolError { pipeline: self.render_pipeline_estimate }),
                seq![RenderPassView::begun(self.estimate_pass().desc)],
            )
        } else if !pipelines.has(self.render_pipeline_blur) {
            (
                Err(PoolError { pipeline: self.render_pipeline_blur }),
                seq![self.estimate_pass(), RenderPassView::begun(self.blur_pass().desc)],
            )
        } else {
            (Ok(()), seq![self.estimate_pass(), self.blur_pass()])
        }
    }

    /// The texture that holds the finished occlusion.
    pub open spec fn finished_occlusion(self) -> GpuTexture {
        self.textures.occlusion
    }

    /// The texture that holds the finished bent normals, if there are any.
    pub open spec fn finished_bent_normal(self) -> Option<GpuTexture> {
        match self.textures.bent_normals {
            Some(bent_normals) => Some(bent_normals.blurred),
            None => None,
        }
    }
}

/// How many textures a method draws to.
pub open spec fn texture_count(horizon: bool) -> int {
    if horizon {
        6
    } else {
        4
    }
}

/// What a new processor asks for, the first request at `base`.
pub open spec fn processor_requests(
    label: Seq<char>,
    resolution: Seq<u32>,
    depth_format: TextureFormat,
    horizon: bool,
    contents: Seq<u8>,
    base: int,
) -> Seq<RequestView> {
    let bindings = base + texture_count(horizon);
    texture_requests(label, resolution, depth_format, horizon) + binding_requests(
        label,
        textures_at(base, horizon),
        contents,
        bindings,
    ) + pipeline_requests(
        GpuBindGroupLayoutHandle::Requested((bindings + 1) as usize),
        GpuBindGroupLayoutHandle::Requested((bindings + 2) as usize),
        horizon,
        bindings + 5,
    )
}

/// The context after a new processor has asked for what it needs.
pub open spec fn asked_for_processor(
    ctx: RenderContextView,
    config: OcclusionConfig,
    view_name: Seq<char>,
    resolution: Seq<u32>,
    camera: OcclusionCamera,
) -> RenderContextView {
    ctx.with_requests(
        processor_requests(
            view_name + " - OcclusionProcessor"@,
            resolution,
            ctx.targets.main_depth_format,
            config.method is Horizon,
            words_to_bytes(occlusion_uniform(config, camera).spec_words(), ctx.byte_order),
            ctx.requests.len() as int,
        ),
    )
}

/// The processor whose requests begin at `base`.
pub open spec fn processor_at(
    label: Seq<char>,
    depth_load: DepthLoadOp,
    horizon: bool,
    base: int,
) -> OcclusionProcessorView {
    let bindings = base + texture_count(horizon);
    OcclusionProcessorView {
        label,
        depth_load,
        textures: textures_at(base, horizon),
        bind_group_estimate: GpuBindGroup { index: (bindings + 3) as usize },
        bind_group_blur: GpuBindGroup { index: (bindings + 4) as usize },
        render_pipeline_estimate: GpuRenderPipelineHandle { index: (bindings + 8) as usize },
        render_pipeline_blur: GpuRenderPipelineHandle { index: (bindings + 11) as usize },
    }
}

/// The processor that [`asked_for_processor`] asks on behalf of.
pub open spec fn asking_processor(
    ctx: RenderContextView,
    config: OcclusionConfig,
    view_name: Seq<char>,
) -> OcclusionProcessorView {
    processor_at(
        view_name + " - OcclusionProcessor"@,
        ctx.targets.main_depth_load,
        config.method is Horizon,
        ctx.requests.len() as int,
    )
}

impl OcclusionProcessor {
    /// Format of the prepass normal target: the view-space normal mapped from
    /// `[-1, 1]` to `[0, 1]`.
    ///
    /// Eight bits per axis are plenty for occlusion, and the format renders on
    /// WebGL 2 without float extensions.
    pub const NORMAL_FORMAT: TextureFormat = TextureFormat::Rgba8Unorm;

    /// Format of the occlusion targets: one value per pixel.
    pub const OCCLUSION_FORMAT: TextureFormat = TextureFormat::R8Unorm;

    /// Format of the bent-normal targets: the view-space bent normal mapped to
    /// `[0, 1]` in `.rgb`, and 1 in `.a` where it was computed.
    ///
    /// The alpha is how the mesh shader tells a bent normal from none: a view
    /// without one binds an all-zero texture.
    pub const BENT_NORMAL_FORMAT: TextureFormat = TextureFormat::Rgba8Unorm;

    /// Asks for all that the passes of a view need.
    pub fn new(
        ctx: &mut RenderContext,
        config: &OcclusionConfig,
        view_name: &Label,
        resolution_in_pixel: [u32; 2],
        camera: &OcclusionCamera,
    ) -> (r: Self)
        ensures
            r@ == asking_processor(old(ctx)@, *config, view_name@),
            final(ctx)@ == asked_for_processor(
                old(ctx)@,
                *config,
                view_name@,
                resolution_in_pixel@,
                *camera,
            ),
            old(ctx)@.requests.len() + texture_count(config.method is Horizon) + 11 <= usize::MAX,
            all_resolve(old(ctx)@.requests) ==> all_resolve(final(ctx)@.requests),
            all_resolve(old(ctx)@.requests) && all_fit(old(ctx)@.requests)
                && old(ctx)@.targets.main_depth_format.is_depth() ==> all_fit(
                final(ctx)@.requests,
            ),
    {
        let label = view_name.with_suffix(" - OcclusionProcessor");
        let depth_load = ctx.targets().main_depth_load;
        let (sample_count, steps_per_slice, horizon) = config.method.sampling();

        let textures = alloc_textures(ctx, &label, resolution_in_pixel, horizon);

        let perspective = !camera.projection_z_axis_w.is_zero();
        let uniform = OcclusionUniformBuffer {
            view_from_projection: camera.view_from_projection,
            framebuffer_resolution: camera.framebuffer_resolution,
            pixels_per_world_unit: camera.pixels_per_world_unit,
            perspective: if perspective {
                1
            } else {
                0
            },
            world_radius: config.world_radius,
            pixel_radius_min: config.pixel_radius_range[0],
            pixel_radius_max: config.pixel_radius_range[1],
            strength: config.strength,
            sample_count,
            steps_per_slice,
        };
        assert(uniform == occlusion_uniform(*config, *camera));
        let contents = bytes_in_order(&uniform.words(), ctx.byte_order());

        let bindings = create_bindings(ctx, &label, &textures, contents);
        let (render_pipeline_estimate, render_pipeline_blur) = create_pipelines(
            ctx,
            bindings.layout_estimate,
            bindings.layout_blur,
            horizon,
        );

        proof {
            let depth_format = old(ctx)@.targets.main_depth_format;
            assert(ctx@ =~= asked_for_processor(
                old(ctx)@,
                *config,
                view_name@,
                resolution_in_pixel@,
                *camera,
            ));
            if all_resolve(old(ctx)@.requests) {
                law_requests_can_be_served(
                    old(ctx)@,
                    *config,
                    view_name@,
                    resolution_in_pixel@,
                    *camera,
                );
                if all_fit(old(ctx)@.requests) && depth_format.is_depth() {
                    law_bind_groups_can_be_made(
                        old(ctx)@,
                        *config,
                        view_name@,
                        resolution_in_pixel@,
                        *camera,
                    );
                }
            }
        }
        OcclusionProcessor {
            label,
            depth_load,
            textures,
            bind_group_estimate: bindings.bind_group_estimate,
            bind_group_blur: bindings.bind_group_blur,
            render_pipeline_estimate,
            render_pipeline_blur,
        }
    }

    /// Begins the prepass. The opaque meshes of the view are drawn into it.
    pub fn begin_prepass<'a>(&'a self, encoder: &'a mut CommandEncoder) -> (r: &'a mut RenderPass)
        ensures
            r@ == RenderPassView::begun(self@.prepass()),
            final(encoder)@ == with_pass(old(encoder)@, final(r)@),
    {
        let mut color_attachments = ColorAttachments::new();
        // The estimate skips pixels nothing was drawn to by depth, so the
        // normal's clear value is never read.
        color_attachments.push(
            Some(
                ColorAttachment {
                    view: self.textures.prepass_normal.handle,
                    clear: ClearColor::Transparent,
                    store: StoreOp::Store,
                },
            ),
        );
        let desc = RenderPassDescriptor {
            label: self.label.with_suffix(" - prepass"),
            color_attachments,
            depth_attachment: Some(
                DepthAttachment {
                    view: self.textures.prepass_depth.handle,
                    load: self.depth_load,
                    store: StoreOp::Store,
                },
            ),
        };
        assert(desc@ =~= self@.prepass());
        encoder.begin_render_pass(desc)
    }

    /// Draws one fullscreen pass.
    fn draw_fullscreen(
        &self,
        pipelines: &GpuRenderPipelinePoolAccessor,
        encoder: &mut CommandEncoder,
        name: &str,
        pipeline: GpuRenderPipelineHandle,
        bind_group: GpuBindGroup,
        occlusion_target: GpuTexture,
        bent_target: Option<GpuTexture>,
    ) -> (r: Result<(), PoolError>)
        ensures
            ({
                let pass = RenderPassView::begun(
                    fullscreen_pass(self@.label + " - "@ + name@, occlusion_target, bent_target),
                );
                if pipelines.has(pipeline) {
                    &&& r == Ok::<(), PoolError>(())
                    &&& final(encoder)@ == old(encoder)@.push(
                        pass.with_commands(fullscreen_commands(pipeline, bind_group)),
                    )
                } else {
                    &&& r == Err::<(), PoolError>(PoolError { pipeline })
                    &&& final(encoder)@ == old(encoder)@.push(pass)
                }
            }),
    {
        let mut color_attachments = ColorAttachments::new();
        color_attachments.push(
            Some(
                ColorAttachment {
                    view: occlusion_target.handle,
                    clear: ClearColor::White,
                    store: StoreOp::Store,
                },
            ),
        );
        if let Some(bent_target) = bent_target {
            // Alpha 0 reads as "no bent normal".
            color_attachments.push(
                Some(
                    ColorAttachment {
                        view: bent_target.handle,
                        clear: ClearColor::Transparent,
                        store: StoreOp::Store,
                    },
                ),
            );
        }
        let desc = RenderPassDescriptor {
            label: self.label.with_suffix(" - ").with_suffix(name),
            color_attachments,
            depth_attachment: None,
        };
        assert(desc@ =~= fullscreen_pass(
            self@.label + " - "@ + name@,
            occlusion_target,
            bent_target,
        ));
        let pass = encoder.begin_render_pass(desc);
        let ghost begun = pass@;
        let pipeline = match pipelines.get(pipeline) {
            Ok(pipeline) => pipeline,
            Err(err) => {
                return Err(err);
            },
        };
        pass.set_pipeline(pipeline);
        pass.set_bind_group(0, bind_group);
        pass.draw(DrawRange { start: 0, end: 3 }, DrawRange { start: 0, end: 1 });
        assert(pass@ =~= begun.with_commands(fullscreen_commands(pipeline, bind_group)));
        Ok(())
    }

    /// Estimates occlusion from the prepass, then blurs it into
    /// [`Self::occlusion_texture`] and, for the horizon method,
    /// [`Self::bent_normal_texture`].
    ///
    /// A pass whose pipeline is not ready clears its targets all the same.
    pub fn compute_occlusion(
        &self,
        pipelines: &GpuRenderPipelinePoolAccessor,
        encoder: &mut CommandEncoder,
    ) -> (r: Result<(), PoolError>)
        ensures
            r == self@.computed(*pipelines).0,
            final(encoder)@ == with_passes(old(encoder)@, self@.computed(*pipelines).1),
    {
        let (raw_bent_normal, blurred_bent_normal) = match self.textures.bent_normals {
            Some(bent_normals) => (Some(bent_normals.raw), Some(bent_normals.blurred)),
            None => (None, None),
        };
        match self.draw_fullscreen(
            pipelines,
            encoder,
            "estimate",
            self.render_pipeline_estimate,
            self.bind_group_estimate,
            self.textures.raw_occlusion,
            raw_bent_normal,
        ) {
            Ok(()) => {},
            Err(err) => {
                return Err(err);
            },
        }
        self.draw_fullscreen(
            pipelines,
            encoder,
            "blur",
            self.render_pipeline_blur,
            self.bind_group_blur,
            self.textures.occlusion,
            blurred_bent_normal,
        )
    }

    /// The finished occlusion, one value per pixel in `.r`.
    pub fn occlusion_texture(&self) -> (r: &GpuTexture)
        ensures
            *r == self@.finished_occlusion(),
    {
        &self.textures.occlusion
    }

    /// The finished bent normal, for the horizon method. See
    /// [`Self::BENT_NORMAL_FORMAT`] for the encoding.
    pub fn bent_normal_texture(&self) -> (r: Option<&GpuTexture>)
        ensures
            r == (match self@.finished_bent_normal() {
                Some(bent_normal) => Some(&bent_normal),
                None => None,
            }),
    {
        match &self.textures.bent_normals {
            Some(bent_normals) => Some(&bent_normals.blurred),
            None => None,
        }
    }
}

} // verus!
