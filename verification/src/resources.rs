//! The record of what the passes ask the GPU for.
//!
//! A pass does not make its textures, buffers and pipelines itself. It asks a
//! [`RenderContext`] for them, which keeps the requests in order. A handle is
//! the place of its request, so whoever serves the requests one after the other
//! finds everything that a request refers to already made.
use vstd::prelude::*;
use vstd::string::StringExecFns;

use crate::bytes::ByteOrder;
use crate::gpu_types::{
    BindGroupLayoutEntry, BindingType, BufferBindingType, BufferUsages, ColorTargetState,
    DepthLoadOp, DepthStencilState, Extent3d, MultisampleState, PrimitiveState, TextureDimension,
    TextureFormat, TextureSampleType, TextureUsages,
};
use crate::handles::{
    BindGroupEntry, GpuBindGroup, GpuBindGroupLayoutHandle, GpuBufferHandle,
    GpuPipelineLayoutHandle, GpuRenderPipelineHandle, GpuShaderModuleHandle, GpuTexture,
    GpuTextureHandle, GpuUniformHandle,
};
use crate::inline_vec::{bind_group_entries, color_targets, BindGroupEntries, ColorTargets};

verus! {

/// What something is called in a graphics debugger.
pub struct Label {
    pub text: String,
}

impl View for Label {
    type V = Seq<char>;

    open spec fn view(&self) -> Seq<char> {
        self.text@
    }
}

impl Label {
    pub fn new(text: &str) -> (r: Label)
        ensures
            r@ == text@,
    {
        Label { text: text.to_owned() }
    }

    /// The label with `suffix` behind it.
    pub fn with_suffix(&self, suffix: &str) -> (r: Label)
        ensures
            r@ == self@ + suffix@,
    {
        Label { text: self.text.clone().concat(suffix) }
    }
}

pub struct TextureDesc {
    pub label: Label,
    pub size: Extent3d,
    pub mip_level_count: u32,
    pub sample_count: u32,
    pub dimension: TextureDimension,
    pub format: TextureFormat,
    pub usage: TextureUsages,
}

#[verifier::ext_equal]
pub struct TextureDescView {
    pub label: Seq<char>,
    pub size: Extent3d,
    pub mip_level_count: u32,
    pub sample_count: u32,
    pub dimension: TextureDimension,
    pub format: TextureFormat,
    pub usage: TextureUsages,
}

impl View for TextureDesc {
    type V = TextureDescView;

    open spec fn view(&self) -> TextureDescView {
        TextureDescView {
            label: self.label@,
            size: self.size,
            mip_level_count: self.mip_level_count,
            sample_count: self.sample_count,
            dimension: self.dimension,
            format: self.format,
            usage: self.usage,
        }
    }
}

pub struct BufferDesc {
    pub label: Label,
    pub size: u64,
    pub usage: BufferUsages,
    pub mapped_at_creation: bool,
}

#[verifier::ext_equal]
pub struct BufferDescView {
    pub label: Seq<char>,
    pub size: u64,
    pub usage: BufferUsages,
    pub mapped_at_creation: bool,
}

impl View for BufferDesc {
    type V = BufferDescView;

    open spec fn view(&self) -> BufferDescView {
        BufferDescView {
            label: self.label@,
            size: self.size,
            usage: self.usage,
            mapped_at_creation: self.mapped_at_creation,
        }
    }
}

pub struct BindGroupLayoutDesc {
    pub label: Label,
    pub entries: Vec<BindGroupLayoutEntry>,
}

#[verifier::ext_equal]
pub struct BindGroupLayoutDescView {
    pub label: Seq<char>,
    pub entries: Seq<BindGroupLayoutEntry>,
}

impl View for BindGroupLayoutDesc {
    type V = BindGroupLayoutDescView;

    open spec fn view(&self) -> BindGroupLayoutDescView {
        BindGroupLayoutDescView { label: self.label@, entries: self.entries@ }
    }
}

pub struct BindGroupDesc {
    pub label: Label,
    pub entries: BindGroupEntries,
    pub layout: GpuBindGroupLayoutHandle,
}

#[verifier::ext_equal]
pub struct BindGroupDescView {
    pub label: Seq<char>,
    pub entries: Seq<BindGroupEntry>,
    pub layout: GpuBindGroupLayoutHandle,
}

impl View for BindGroupDesc {
    type V = BindGroupDescView;

    open spec fn view(&self) -> BindGroupDescView {
        BindGroupDescView { label: self.label@, entries: self.entries@, layout: self.layout }
    }
}

pub struct PipelineLayoutDesc {
    pub label: Label,
    pub entries: Vec<GpuBindGroupLayoutHandle>,
}

#[verifier::ext_equal]
pub struct PipelineLayoutDescView {
    pub label: Seq<char>,
    pub entries: Seq<GpuBindGroupLayoutHandle>,
}

impl View for PipelineLayoutDesc {
    type V = PipelineLayoutDescView;

    open spec fn view(&self) -> PipelineLayoutDescView {
        PipelineLayoutDescView { label: self.label@, entries: self.entries@ }
    }
}

/// The shader modules that the pipelines are made of.
#[derive(Clone, Copy, Debug, PartialEq, Eq, Structural)]
pub enum ShaderModule {
    /// The vertex shader that covers the screen with one triangle.
    ScreenTriangle,
    /// `occlusion/estimate.wgsl`
    OcclusionEstimate,
    /// `occlusion/horizon.wgsl`
    OcclusionHorizon,
    /// `occlusion/blur.wgsl`
    OcclusionBlur,
    /// `mesh_elements.wgsl`
    MeshElements,
}

/// A render pipeline. It reads no vertex buffers: its vertex shader makes or
/// pulls the vertices.
pub struct RenderPipelineDesc {
    pub label: Label,
    pub pipeline_layout: GpuPipelineLayoutHandle,
    pub vertex_entrypoint: String,
    pub vertex_handle: GpuShaderModuleHandle,
    pub fragment_entrypoint: String,
    pub fragment_handle: GpuShaderModuleHandle,
    pub render_targets: ColorTargets,
    pub primitive: PrimitiveState,
    pub depth_stencil: Option<DepthStencilState>,
    pub multisample: MultisampleState,
}

#[verifier::ext_equal]
pub struct RenderPipelineDescView {
    pub label: Seq<char>,
    pub pipeline_layout: GpuPipelineLayoutHandle,
    pub vertex_entrypoint: Seq<char>,
    pub vertex_handle: GpuShaderModuleHandle,
    pub fragment_entrypoint: Seq<char>,
    pub fragment_handle: GpuShaderModuleHandle,
    pub render_targets: Seq<Option<ColorTargetState>>,
    pub primitive: PrimitiveState,
    pub depth_stencil: Option<DepthStencilState>,
    pub multisample: MultisampleState,
}

impl View for RenderPipelineDesc {
    type V = RenderPipelineDescView;

    open spec fn view(&self) -> RenderPipelineDescView {
        RenderPipelineDescView {
            label: self.label@,
            pipeline_layout: self.pipeline_layout,
            vertex_entrypoint: self.vertex_entrypoint@,
            vertex_handle: self.vertex_handle,
            fragment_entrypoint: self.fragment_entrypoint@,
            fragment_handle: self.fragment_handle,
            render_targets: self.render_targets@,
            primitive: self.primitive,
            depth_stencil: self.depth_stencil,
            multisample: self.multisample,
        }
    }
}

/// One thing that is asked of the GPU.
pub enum Request {
    /// A texture of its own.
    Texture(TextureDesc),
    /// A uniform buffer of its own that holds `contents`.
    UniformBuffer { label: Label, contents: Vec<u8> },
    /// A buffer of its own.
    Buffer(BufferDesc),
    /// That `contents` be written into a buffer, from `offset` on.
    BufferWrite { buffer: GpuBufferHandle, offset: u64, contents: Vec<u8> },
    /// A bind group layout like this one.
    BindGroupLayout(BindGroupLayoutDesc),
    /// A bind group of its own.
    BindGroup(BindGroupDesc),
    /// A pipeline layout like this one.
    PipelineLayout(PipelineLayoutDesc),
    /// The shader module.
    ShaderModule(ShaderModule),
    /// A render pipeline like this one.
    RenderPipeline(RenderPipelineDesc),
}

#[verifier::ext_equal]
pub enum RequestView {
    Texture(TextureDescView),
    UniformBuffer { label: Seq<char>, contents: Seq<u8> },
    Buffer(BufferDescView),
    BufferWrite { buffer: GpuBufferHandle, offset: u64, contents: Seq<u8> },
    BindGroupLayout(BindGroupLayoutDescView),
    BindGroup(BindGroupDescView),
    PipelineLayout(PipelineLayoutDescView),
    ShaderModule(ShaderModule),
    RenderPipeline(RenderPipelineDescView),
}

impl View for Request {
    type V = RequestView;

    open spec fn view(&self) -> RequestView {
        match *self {
            Request::Texture(desc) => RequestView::Texture(desc@),
            Request::UniformBuffer { label, contents } => RequestView::UniformBuffer {
                label: label@,
                contents: contents@,
            },
            Request::Buffer(desc) => RequestView::Buffer(desc@),
            Request::BufferWrite { buffer, offset, contents } => RequestView::BufferWrite {
                buffer,
                offset,
                contents: contents@,
            },
            Request::BindGroupLayout(desc) => RequestView::BindGroupLayout(desc@),
            Request::BindGroup(desc) => RequestView::BindGroup(desc@),
            Request::PipelineLayout(desc) => RequestView::PipelineLayout(desc@),
            Request::ShaderModule(module) => RequestView::ShaderModule(module),
            Request::RenderPipeline(desc) => RequestView::RenderPipeline(desc@),
        }
    }
}

/// What each of the requests asks for.
pub open spec fn request_views(requests: Seq<Request>) -> Seq<RequestView> {
    requests.map_values(|request: Request| request@)
}

/// What a texture, a buffer or a layout is described as is what is asked for.
pub proof fn law_descriptions_are_taken_at_their_word(
    texture: TextureDesc,
    buffer: BufferDesc,
    layout: BindGroupLayoutDesc,
    group: BindGroupDesc,
    pipeline_layout: PipelineLayoutDesc,
)
    ensures
        texture@.label == texture.label.text@,
        texture@.size == texture.size,
        texture@.mip_level_count == texture.mip_level_count,
        texture@.sample_count == texture.sample_count,
        texture@.dimension == texture.dimension,
        texture@.format == texture.format,
        texture@.usage == texture.usage,
        buffer@.label == buffer.label.text@,
        buffer@.size == buffer.size,
        buffer@.usage == buffer.usage,
        buffer@.mapped_at_creation == buffer.mapped_at_creation,
        layout@.label == layout.label.text@,
        layout@.entries == layout.entries@,
        group@.label == group.label.text@,
        group@.entries == bind_group_entries(group.entries),
        group@.layout == group.layout,
        pipeline_layout@.label == pipeline_layout.label.text@,
        pipeline_layout@.entries == pipeline_layout.entries@,
{
}

/// What a pipeline is described as is what is asked for.
pub proof fn law_pipelines_are_taken_at_their_word(pipeline: RenderPipelineDesc)
    ensures
        pipeline@.label == pipeline.label.text@,
        pipeline@.pipeline_layout == pipeline.pipeline_layout,
        pipeline@.vertex_entrypoint == pipeline.vertex_entrypoint@,
        pipeline@.vertex_handle == pipeline.vertex_handle,
        pipeline@.fragment_entrypoint == pipeline.fragment_entrypoint@,
        pipeline@.fragment_handle == pipeline.fragment_handle,
        pipeline@.render_targets == color_targets(pipeline.render_targets),
        pipeline@.primitive == pipeline.primitive,
        pipeline@.depth_stencil == pipeline.depth_stencil,
        pipeline@.multisample == pipeline.multisample,
{
}

/// A request asks for what it is made with, and nothing else.
pub proof fn law_requests_are_taken_at_their_word(requests: Seq<Request>, i: int)
    requires
        0 <= i < requests.len(),
    ensures
        request_views(requests).len() == requests.len(),
        ({
            let seen = request_views(requests)[i];
            match requests[i] {
                Request::Texture(desc) => seen == RequestView::Texture(desc@),
                Request::UniformBuffer { label, contents } => {
                    &&& seen is UniformBuffer
                    &&& seen->UniformBuffer_label == label.text@
                    &&& seen->UniformBuffer_contents == contents@
                },
                Request::Buffer(desc) => seen == RequestView::Buffer(desc@),
                Request::BufferWrite { buffer, offset, contents } => {
                    &&& seen is BufferWrite
                    &&& seen->buffer == buffer
                    &&& seen->offset == offset
                    &&& seen->BufferWrite_contents == contents@
                },
                Request::BindGroupLayout(desc) => seen == RequestView::BindGroupLayout(desc@),
                Request::BindGroup(desc) => seen == RequestView::BindGroup(desc@),
                Request::PipelineLayout(desc) => seen == RequestView::PipelineLayout(desc@),
                Request::ShaderModule(module) => seen == RequestView::ShaderModule(module),
                Request::RenderPipeline(desc) => seen == RequestView::RenderPipeline(desc@),
            }
        }),
{
}

/// What the frame's other passes fix for the ones that share targets with them.
#[derive(Clone, Copy, Debug, PartialEq, Eq)]
pub struct FrameTargets {
    /// Format of the main pass's color target.
    pub main_color_format: TextureFormat,
    /// Format of the main pass's depth target.
    pub main_depth_format: TextureFormat,
    /// What the main pass does to its depth target when it begins.
    pub main_depth_load: DepthLoadOp,
    /// How the main pass samples.
    pub main_multisample: MultisampleState,
    /// Format of the picking layer's target.
    pub picking_format: TextureFormat,
    /// How the picking layer tests and writes depth.
    pub picking_depth: Option<DepthStencilState>,
    /// How the picking layer samples.
    pub picking_multisample: MultisampleState,
}

/// The requests so far, the targets of the frame they are for, and the order in
/// which the GPU has the bytes of a word: that of the machine it belongs to.
pub struct RenderContext {
    targets: FrameTargets,
    byte_order: ByteOrder,
    requests: Vec<Request>,
}

#[verifier::ext_equal]
pub struct RenderContextView {
    pub targets: FrameTargets,
    pub byte_order: ByteOrder,
    pub requests: Seq<RequestView>,
}

impl View for RenderContext {
    type V = RenderContextView;

    closed spec fn view(&self) -> RenderContextView {
        RenderContextView {
            targets: self.targets,
            byte_order: self.byte_order,
            requests: request_views(self.requests@),
        }
    }
}

impl RenderContextView {
    /// A context in which nothing has been asked for.
    pub open spec fn fresh(targets: FrameTargets, byte_order: ByteOrder) -> RenderContextView {
        RenderContextView { targets, byte_order, requests: Seq::empty() }
    }

    /// The same with `more` behind the requests.
    pub open spec fn with_requests(self, more: Seq<RequestView>) -> RenderContextView {
        RenderContextView { requests: self.requests + more, ..self }
    }

    /// The same with one more request.
    pub open spec fn with_request(self, request: RequestView) -> RenderContextView {
        RenderContextView { requests: self.requests.push(request), ..self }
    }
}

/// A fresh context is for the targets and the byte order it is made with.
pub proof fn law_nothing_has_been_asked_for_at_first(targets: FrameTargets, byte_order: ByteOrder)
    ensures
        RenderContextView::fresh(targets, byte_order).targets == targets,
        RenderContextView::fresh(targets, byte_order).byte_order == byte_order,
        RenderContextView::fresh(targets, byte_order).requests.len() == 0,
{
}

/// Asking for more keeps all that was asked for before, in its place, and puts
/// the rest behind it in order. Targets and byte order stay what they are.
pub proof fn law_asking_keeps_what_was_asked_for(
    ctx: RenderContextView,
    more: Seq<RequestView>,
    request: RequestView,
)
    ensures
        ctx.with_requests(more).targets == ctx.targets,
        ctx.with_requests(more).byte_order == ctx.byte_order,
        ctx.with_requests(more).requests.len() == ctx.requests.len() + more.len(),
        forall|i: int|
            0 <= i < ctx.requests.len() ==> #[trigger] ctx.with_requests(more).requests[i]
                == ctx.requests[i],
        forall|i: int|
            0 <= i < more.len() ==> ctx.with_requests(more).requests[ctx.requests.len() + i]
                == #[trigger] more[i],
        ctx.with_request(request).targets == ctx.targets,
        ctx.with_request(request).byte_order == ctx.byte_order,
        ctx.with_request(request).requests.len() == ctx.requests.len() + 1,
        ctx.with_request(request).requests.last() == request,
        ctx.with_request(request).requests.drop_last() == ctx.requests,
{
    assert(ctx.with_request(request).requests.drop_last() =~= ctx.requests);
}

/// Whether the texture is one that was asked for before the request at `i`.
pub open spec fn texture_resolves(
    requests: Seq<RequestView>,
    i: int,
    handle: GpuTextureHandle,
) -> bool {
    handle.index < i && requests[handle.index as int] is Texture
}

/// Whether the buffer is resident, or was asked for before the request at `i`.
pub open spec fn buffer_resolves(
    requests: Seq<RequestView>,
    i: int,
    handle: GpuBufferHandle,
) -> bool {
    handle matches GpuBufferHandle::Requested(index) ==> index < i
        && requests[index as int] is Buffer
}

/// Whether the layout is the shared one, or was asked for before the request
/// at `i`.
pub open spec fn layout_resolves(
    requests: Seq<RequestView>,
    i: int,
    handle: GpuBindGroupLayoutHandle,
) -> bool {
    handle matches GpuBindGroupLayoutHandle::Requested(index) ==> index < i
        && requests[index as int] is BindGroupLayout
}

/// Whether what the entry binds can be found before the request at `i`.
pub open spec fn entry_resolves(
    requests: Seq<RequestView>,
    i: int,
    entry: BindGroupEntry,
) -> bool {
    match entry {
        BindGroupEntry::DefaultTextureView(handle) => texture_resolves(requests, i, handle),
        BindGroupEntry::Uniform(handle) => handle.index < i
            && requests[handle.index as int] is UniformBuffer,
        BindGroupEntry::Buffer { handle, .. } => buffer_resolves(requests, i, handle),
    }
}

/// Whether all that the request at `i` refers to was asked for before it, and
/// is of the kind that it is used as.
pub open spec fn request_resolves(requests: Seq<RequestView>, i: int) -> bool {
    match requests[i] {
        RequestView::BufferWrite { buffer, .. } => buffer_resolves(requests, i, buffer),
        RequestView::BindGroup(desc) => {
            &&& layout_resolves(requests, i, desc.layout)
            &&& forall|k: int|
                0 <= k < desc.entries.len() ==> #[trigger] entry_resolves(
                    requests,
                    i,
                    desc.entries[k],
                )
        },
        RequestView::PipelineLayout(desc) => forall|k: int|
            0 <= k < desc.entries.len() ==> #[trigger] layout_resolves(
                requests,
                i,
                desc.entries[k],
            ),
        RequestView::RenderPipeline(desc) => {
            &&& desc.pipeline_layout.index < i
            &&& requests[desc.pipeline_layout.index as int] is PipelineLayout
            &&& desc.vertex_handle.index < i
            &&& requests[desc.vertex_handle.index as int] is ShaderModule
            &&& desc.fragment_handle.index < i
            &&& requests[desc.fragment_handle.index as int] is ShaderModule
        },
        _ => true,
    }
}

/// Whether the requests can be served one after the other: each refers only to
/// what was asked for before it.
pub open spec fn all_resolve(requests: Seq<RequestView>) -> bool {
    forall|i: int| 0 <= i < requests.len() ==> #[trigger] request_resolves(requests, i)
}

/// Whether a part of a buffer can be bound as this type. What a resident buffer
/// was made for is its owner's to know.
pub open spec fn buffer_fits(
    requests: Seq<RequestView>,
    ty: BufferBindingType,
    handle: GpuBufferHandle,
    offset: u64,
    size: Option<u64>,
) -> bool {
    handle matches GpuBufferHandle::Requested(index) ==> {
        &&& requests[index as int] matches RequestView::Buffer(desc)
        &&& match ty {
            BufferBindingType::Uniform => desc.usage.uniform,
            BufferBindingType::Storage { .. } => desc.usage.storage,
        }
        &&& match size {
            Some(size) => offset + size <= desc.size,
            None => offset < desc.size,
        }
    }
}

/// Whether an entry can be bound where the layout has this binding.
pub open spec fn entry_fits(
    requests: Seq<RequestView>,
    binding: BindGroupLayoutEntry,
    entry: BindGroupEntry,
) -> bool {
    match binding.ty {
        // A texture that may be bound, and of the kind that the shader samples.
        BindingType::Texture { sample_type, multisampled } => {
            &&& entry matches BindGroupEntry::DefaultTextureView(handle)
            &&& requests[handle.index as int] matches RequestView::Texture(desc)
            &&& desc.usage.texture_binding
            &&& desc.dimension is D2
            &&& match sample_type {
                TextureSampleType::Depth => desc.format.is_depth(),
                TextureSampleType::Float { .. } => desc.format.is_float_color(),
            }
            &&& multisampled <==> desc.sample_count > 1
        },
        // A buffer that may be bound so, and holds at least what the shader
        // reads.
        BindingType::Buffer { ty, min_binding_size, .. } => match entry {
            BindGroupEntry::DefaultTextureView(_) => false,
            BindGroupEntry::Uniform(handle) => {
                &&& ty is Uniform
                &&& requests[handle.index as int] matches RequestView::UniformBuffer {
                    contents,
                    ..
                }
                &&& min_binding_size matches Some(least) ==> least <= contents.len()
            },
            BindGroupEntry::Buffer { handle, offset, size } => {
                &&& buffer_fits(requests, ty, handle, offset, size)
                &&& min_binding_size matches Some(least) ==> {
                    &&& size matches Some(size)
                    &&& least <= size
                }
            },
        },
    }
}

/// Whether the layout numbers its binding at `k` by its place, and the entry
/// there can be bound to it.
pub open spec fn binding_fits(
    requests: Seq<RequestView>,
    layout: BindGroupLayoutDescView,
    entries: Seq<BindGroupEntry>,
    k: int,
) -> bool {
    &&& layout.entries[k].binding == k
    &&& entry_fits(requests, layout.entries[k], entries[k])
}

/// Whether a bind group with these entries can be made for this layout.
///
/// An entry's place is its binding number. So the layout has to number its
/// bindings by their places too, and to have as many of them.
pub open spec fn group_fits(
    requests: Seq<RequestView>,
    layout: BindGroupLayoutDescView,
    entries: Seq<BindGroupEntry>,
) -> bool {
    &&& entries.len() == layout.entries.len()
    &&& forall|k: int|
        0 <= k < entries.len() ==> #[trigger] binding_fits(requests, layout, entries, k)
}

/// Whether the request at `i`, if it asks for a bind group, asks for one that
/// can be made.
pub open spec fn request_fits(requests: Seq<RequestView>, i: int) -> bool {
    requests[i] matches RequestView::BindGroup(desc) ==> (
    desc.layout matches GpuBindGroupLayoutHandle::Requested(index) ==> {
        &&& requests[index as int] matches RequestView::BindGroupLayout(layout)
        &&& group_fits(requests, layout, desc.entries)
    })
}

/// Whether all bind groups that are asked for can be made.
pub open spec fn all_fit(requests: Seq<RequestView>) -> bool {
    forall|i: int| 0 <= i < requests.len() ==> #[trigger] request_fits(requests, i)
}

/// Requests that can be served still can be when others follow them.
pub(crate) proof fn lemma_resolves_when_more_follow(
    requests: Seq<RequestView>,
    more: Seq<RequestView>,
)
    ensures
        forall|i: int|
            0 <= i < requests.len() && request_resolves(requests, i)
                ==> #[trigger] request_resolves(requests + more, i),
        forall|i: int|
            0 <= i < requests.len() && request_resolves(requests, i) && request_fits(requests, i)
                ==> #[trigger] request_fits(requests + more, i),
{
    let all = requests + more;
    assert forall|i: int|
        0 <= i < requests.len() && request_resolves(
            requests,
            i,
        ) implies #[trigger] request_resolves(all, i) by {
        assert(all[i] == requests[i]);
        match requests[i] {
            RequestView::BindGroup(desc) => {
                assert forall|k: int| 0 <= k < desc.entries.len() implies #[trigger] entry_resolves(
                    all,
                    i,
                    desc.entries[k],
                ) by {
                    assert(entry_resolves(requests, i, desc.entries[k]));
                }
            },
            RequestView::PipelineLayout(desc) => {
                assert forall|k: int|
                    0 <= k < desc.entries.len() implies #[trigger] layout_resolves(
                    all,
                    i,
                    desc.entries[k],
                ) by {
                    assert(layout_resolves(requests, i, desc.entries[k]));
                }
            },
            _ => {},
        }
    }
    assert forall|i: int|
        0 <= i < requests.len() && request_resolves(requests, i) && request_fits(
            requests,
            i,
        ) implies #[trigger] request_fits(all, i) by {
        assert(all[i] == requests[i]);
        if let RequestView::BindGroup(desc) = requests[i] {
            if let GpuBindGroupLayoutHandle::Requested(index) = desc.layout {
                let layout = requests[index as int]->BindGroupLayout_0;
                assert(all[index as int] == requests[index as int]);
                assert forall|k: int| 0 <= k < desc.entries.len() implies #[trigger] binding_fits(
                    all,
                    layout,
                    desc.entries,
                    k,
                ) by {
                    assert(entry_resolves(requests, i, desc.entries[k]));
                    assert(binding_fits(requests, layout, desc.entries, k));
                }
            }
        }
    }
}

impl RenderContext {
    /// A context in which nothing has been asked for.
    pub fn new(targets: FrameTargets, byte_order: ByteOrder) -> (r: RenderContext)
        ensures
            r@ == RenderContextView::fresh(targets, byte_order),
            all_resolve(r@.requests),
            all_fit(r@.requests),
    {
        let r = RenderContext { targets, byte_order, requests: Vec::new() };
        assert(r@.requests =~= Seq::empty());
        r
    }

    /// What the frame's other passes fix.
    pub fn targets(&self) -> (r: FrameTargets)
        ensures
            r == self@.targets,
    {
        self.targets
    }

    /// The order in which the GPU has the bytes of a word.
    pub fn byte_order(&self) -> (r: ByteOrder)
        ensures
            r == self@.byte_order,
    {
        self.byte_order
    }

    /// The requests so far, in order.
    pub fn requests(&self) -> (r: &Vec<Request>)
        ensures
            request_views(r@) == self@.requests,
    {
        &self.requests
    }

    /// Puts a request behind the others and gives its place.
    fn request(&mut self, request: Request) -> (index: usize)
        ensures
            index == old(self)@.requests.len(),
            final(self)@ == old(self)@.with_request(request@),
    {
        let index = self.requests.len();
        self.requests.push(request);
        assert(self@.requests =~= old(self)@.requests.push(request@));
        index
    }

    /// Asks for a texture.
    pub fn alloc_texture(&mut self, desc: TextureDesc) -> (r: GpuTexture)
        ensures
            r.handle.index == old(self)@.requests.len(),
            final(self)@ == old(self)@.with_request(RequestView::Texture(desc@)),
    {
        GpuTexture { handle: GpuTextureHandle { index: self.request(Request::Texture(desc)) } }
    }

    /// Asks for a uniform buffer that holds `contents`, and gives the entry
    /// that binds it.
    pub fn create_and_fill_uniform_buffer(&mut self, label: Label, contents: Vec<u8>) -> (r:
        BindGroupEntry)
        ensures
            r == BindGroupEntry::Uniform(
                GpuUniformHandle { index: old(self)@.requests.len() as usize },
            ),
            old(self)@.requests.len() <= usize::MAX,
            final(self)@ == old(self)@.with_request(
                RequestView::UniformBuffer { label: label@, contents: contents@ },
            ),
    {
        let index = self.request(Request::UniformBuffer { label, contents });
        BindGroupEntry::Uniform(GpuUniformHandle { index })
    }

    /// Asks for a buffer.
    pub fn alloc_buffer(&mut self, desc: BufferDesc) -> (r: GpuBufferHandle)
        ensures
            r == GpuBufferHandle::Requested(old(self)@.requests.len() as usize),
            old(self)@.requests.len() <= usize::MAX,
            final(self)@ == old(self)@.with_request(RequestView::Buffer(desc@)),
    {
        GpuBufferHandle::Requested(self.request(Request::Buffer(desc)))
    }

    /// Asks that `contents` be written into a buffer, from `offset` on.
    pub fn write_buffer(&mut self, buffer: GpuBufferHandle, offset: u64, contents: Vec<u8>)
        ensures
            final(self)@ == old(self)@.with_request(
                RequestView::BufferWrite { buffer, offset, contents: contents@ },
            ),
    {
        let _index: usize = self.request(Request::BufferWrite { buffer, offset, contents });
    }

    /// Asks for a bind group layout.
    pub fn get_or_create_bind_group_layout(&mut self, desc: BindGroupLayoutDesc) -> (r:
        GpuBindGroupLayoutHandle)
        ensures
            r == GpuBindGroupLayoutHandle::Requested(old(self)@.requests.len() as usize),
            old(self)@.requests.len() <= usize::MAX,
            final(self)@ == old(self)@.with_request(RequestView::BindGroupLayout(desc@)),
    {
        GpuBindGroupLayoutHandle::Requested(self.request(Request::BindGroupLayout(desc)))
    }

    /// Asks for a bind group.
    pub fn alloc_bind_group(&mut self, desc: BindGroupDesc) -> (r: GpuBindGroup)
        ensures
            r.index == old(self)@.requests.len(),
            final(self)@ == old(self)@.with_request(RequestView::BindGroup(desc@)),
    {
        GpuBindGroup { index: self.request(Request::BindGroup(desc)) }
    }

    /// Asks for a pipeline layout.
    pub fn get_or_create_pipeline_layout(&mut self, desc: PipelineLayoutDesc) -> (r:
        GpuPipelineLayoutHandle)
        ensures
            r.index == old(self)@.requests.len(),
            final(self)@ == old(self)@.with_request(RequestView::PipelineLayout(desc@)),
    {
        GpuPipelineLayoutHandle { index: self.request(Request::PipelineLayout(desc)) }
    }

    /// Asks for a shader module.
    pub fn get_or_create_shader_module(&mut self, module: ShaderModule) -> (r:
        GpuShaderModuleHandle)
        ensures
            r.index == old(self)@.requests.len(),
            final(self)@ == old(self)@.with_request(RequestView::ShaderModule(module)),
    {
        GpuShaderModuleHandle { index: self.request(Request::ShaderModule(module)) }
    }

    /// Asks for a render pipeline.
    pub fn get_or_create_render_pipeline(&mut self, desc: RenderPipelineDesc) -> (r:
        GpuRenderPipelineHandle)
        ensures
            r.index == old(self)@.requests.len(),
            final(self)@ == old(self)@.with_request(RequestView::RenderPipeline(desc@)),
    {
        GpuRenderPipelineHandle { index: self.request(Request::RenderPipeline(desc)) }
    }
}

} // verus!
