//! Draws a mesh's cage edges and vertices from the mesh already on the GPU.
//!
//! Building whole-mesh line geometry on the CPU and uploading it every frame
//! freezes the viewport on a dense mesh as soon as the wireframe is on: camera
//! motion means redraw, and every redraw walks and uploads millions of segments
//! again. This pass draws the same edges from the resident mesh, so the
//! per-frame cost is a draw call.
use std::sync::Arc;
use vstd::prelude::*;

use crate::bytes::{bytes_in_order, words_to_bytes, ByteOrder, FloatBits};
use crate::commands::{
    DrawRange, GpuRenderPipelinePoolAccessor, PassCommand, PoolError, RenderPass,
};
use crate::gpu_types::{
    BindGroupLayoutEntry, BindingType, BlendState, BufferBindingType, BufferUsages, ColorTargetState,
    ColorWrites, CompareFunction, DepthStencilState, PrimitiveState, PrimitiveTopology,
    ShaderStage,
};
use crate::handles::{
    BindGroupEntry, GpuBindGroup, GpuBindGroupLayoutHandle, GpuBufferHandle,
    GpuPipelineLayoutHandle, GpuRenderPipelineHandle, GpuShaderModuleHandle,
};
use crate::inline_vec::{BindGroupEntries, ColorTargets};
use crate::resources::{
    BindGroupDesc, BindGroupDescView, BindGroupLayoutDesc, BindGroupLayoutDescView, BufferDesc,
    BufferDescView, FrameTargets, Label, PipelineLayoutDesc, PipelineLayoutDescView, RenderContext,
    RenderContextView, RenderPipelineDesc, RenderPipelineDescView, RequestView, ShaderModule,
};
use crate::uniforms::{ElementStyleUniform, ELEMENT_STYLE_SIZE};

verus! {

/// The bytes of a buffer from `start` up to `end`.
#[derive(Clone, Copy, Debug, PartialEq, Eq, Structural)]
pub struct BufferRange {
    pub start: u64,
    pub end: u64,
}

impl BufferRange {
    /// Whether the range ends no sooner than it starts.
    pub open spec fn valid(self) -> bool {
        self.start <= self.end
    }

    /// The entry that binds the range of a buffer. An empty range binds without
    /// a size.
    pub open spec fn binding(self, handle: GpuBufferHandle) -> BindGroupEntry {
        BindGroupEntry::Buffer {
            handle,
            offset: self.start,
            size: if self.start == self.end {
                None
            } else {
                Some((self.end - self.start) as u64)
            },
        }
    }

    fn bind(self, handle: GpuBufferHandle) -> (r: BindGroupEntry)
        requires
            self.valid(),
        ensures
            r == self.binding(handle),
    {
        let size: u64 = self.end - self.start;
        BindGroupEntry::Buffer {
            handle,
            offset: self.start,
            size: if size == 0 {
                None
            } else {
                Some(size)
            },
        }
    }
}

/// A mesh on the GPU: the buffers that hold it, and the part of them that is
/// its own.
#[derive(Clone, Copy, Debug, PartialEq, Eq, Structural)]
pub struct GpuMesh {
    pub index_buffer: GpuBufferHandle,
    /// Three 32-bit indices per triangle.
    pub index_buffer_range: BufferRange,
    pub vertex_buffer_combined: GpuBufferHandle,
    pub vertex_buffer_positions_range: BufferRange,
    pub vertex_buffer_edge_ids_range: BufferRange,
    pub vertex_buffer_topology_ids_range: BufferRange,
}

impl GpuMesh {
    /// Whether none of the ranges ends before it starts.
    pub open spec fn valid(self) -> bool {
        &&& self.index_buffer_range.valid()
        &&& self.vertex_buffer_positions_range.valid()
        &&& self.vertex_buffer_edge_ids_range.valid()
        &&& self.vertex_buffer_topology_ids_range.valid()
    }

    /// How many whole indices the mesh has.
    pub open spec fn index_count(self) -> int {
        (self.index_buffer_range.end - self.index_buffer_range.start) / 4
    }
}

/// How one mesh should be stroked.
#[derive(Clone, Copy, Debug)]
pub struct MeshElementStyle {
    pub edge_color: [FloatBits; 4],
    pub hover_color: [FloatBits; 4],
    pub edge_half_width_px: FloatBits,
    pub hover_half_width_px: FloatBits,
    /// 0 draws no vertex markers.
    pub vertex_radius_px: FloatBits,
    /// Encoded id of the hovered element, or 0. Compared per fragment, so
    /// hovering costs nothing beyond a uniform write.
    pub hover_element_id: u32,
}

impl MeshElementStyle {
    /// The style as the shader reads it.
    pub open spec fn spec_uniform(self) -> ElementStyleUniform {
        ElementStyleUniform {
            edge_color: self.edge_color,
            hover_color: self.hover_color,
            edge_half_width_px: self.edge_half_width_px,
            hover_half_width_px: self.hover_half_width_px,
            vertex_radius_px: self.vertex_radius_px,
            hover_element_id: self.hover_element_id,
        }
    }

    /// What is written for the shader to read.
    pub open spec fn written(self, order: ByteOrder) -> Seq<u8> {
        words_to_bytes(self.spec_uniform().spec_words(), order)
    }

    /// The style as the shader reads it.
    pub fn uniform(&self) -> (r: ElementStyleUniform)
        ensures
            r == self.spec_uniform(),
    {
        ElementStyleUniform {
            edge_color: self.edge_color,
            hover_color: self.hover_color,
            edge_half_width_px: self.edge_half_width_px,
            hover_half_width_px: self.hover_half_width_px,
            vertex_radius_px: self.vertex_radius_px,
            hover_element_id: self.hover_element_id,
        }
    }
}

/// What one mesh contributes to the pass.
#[derive(Clone, Copy, Debug, PartialEq, Eq, Structural)]
pub struct MeshElementBatch {
    pub bind_group: GpuBindGroup,
    /// `3 * triangle_count`, modulo 2^32: the pass pulls vertices rather than
    /// indexing.
    pub num_vertices: u32,
}

/// What all meshes of a frame contribute to the pass.
pub struct MeshElementDrawData {
    batches: Arc<Vec<MeshElementBatch>>,
}

impl Clone for MeshElementDrawData {
    /// The same batches, shared.
    fn clone(&self) -> (r: Self)
        ensures
            r@ == self@,
    {
        MeshElementDrawData { batches: self.batches.clone() }
    }
}

impl View for MeshElementDrawData {
    type V = Seq<MeshElementBatch>;

    closed spec fn view(&self) -> Seq<MeshElementBatch> {
        self.batches@
    }
}

/// The pipelines that draw mesh elements.
#[derive(Clone, Copy, Debug, PartialEq, Eq, Structural)]
pub struct MeshElementRenderer {
    pub render_pipeline: GpuRenderPipelineHandle,
    pub picking_pipeline: GpuRenderPipelineHandle,
    pub bind_group_layout: GpuBindGroupLayoutHandle,
}

/// The buffer that holds a mesh's style.
pub open spec fn style_buffer_desc() -> BufferDescView {
    BufferDescView {
        label: "MeshElementDrawData::style"@,
        size: ELEMENT_STYLE_SIZE,
        usage: BufferUsages { uniform: true, storage: false, copy_dst: true },
        mapped_at_creation: false,
    }
}

/// What the shader reads of a mesh.
pub open spec fn mesh_bindings(mesh: GpuMesh, style_buffer: GpuBufferHandle) -> Seq<
    BindGroupEntry,
> {
    seq![
        mesh.index_buffer_range.binding(mesh.index_buffer),
        mesh.vertex_buffer_positions_range.binding(mesh.vertex_buffer_combined),
        mesh.vertex_buffer_edge_ids_range.binding(mesh.vertex_buffer_combined),
        mesh.vertex_buffer_topology_ids_range.binding(mesh.vertex_buffer_combined),
        BindGroupEntry::Buffer { handle: style_buffer, offset: 0, size: Some(ELEMENT_STYLE_SIZE) },
    ]
}

/// What is asked for to draw one mesh, the first request at `base`.
pub open spec fn mesh_requests(
    mesh: GpuMesh,
    contents: Seq<u8>,
    layout: GpuBindGroupLayoutHandle,
    base: int,
) -> Seq<RequestView> {
    let style_buffer = GpuBufferHandle::Requested(base as usize);
    seq![
        RequestView::Buffer(style_buffer_desc()),
        RequestView::BufferWrite { buffer: style_buffer, offset: 0, contents },
        RequestView::BindGroup(
            BindGroupDescView {
                label: "MeshElementDrawData::bind_group"@,
                entries: mesh_bindings(mesh, style_buffer),
                layout,
            },
        ),
    ]
}

/// The batch of a mesh whose requests begin at `base`. It counts the indices
/// modulo 2^32.
pub open spec fn batch_at(mesh: GpuMesh, base: int) -> MeshElementBatch {
    MeshElementBatch {
        bind_group: GpuBindGroup { index: (base + 2) as usize },
        num_vertices: (mesh.index_count() % 0x1_0000_0000) as u32,
    }
}

/// The low 32 bits of a number are its remainder modulo 2^32.
proof fn lemma_low_word(n: u64)
    ensures
        n as u32 == n % 0x1_0000_0000,
{
    assert(n as u32 == n % 0x1_0000_0000) by (bit_vector);
}

/// Asks for what is needed to draw one mesh.
fn request_mesh(
    ctx: &mut RenderContext,
    layout: GpuBindGroupLayoutHandle,
    mesh: &GpuMesh,
    style: &MeshElementStyle,
) -> (r: MeshElementBatch)
    requires
        mesh.valid(),
    ensures
        r == batch_at(*mesh, old(ctx)@.requests.len() as int),
        final(ctx)@ == old(ctx)@.with_requests(
            mesh_requests(
                *mesh,
                style.written(old(ctx)@.byte_order),
                layout,
                old(ctx)@.requests.len() as int,
            ),
        ),
        old(ctx)@.requests.len() + 2 <= usize::MAX,
{
    let contents = bytes_in_order(&style.uniform().words(), ctx.byte_order());
    let style_buffer = ctx.alloc_buffer(
        BufferDesc {
            label: Label::new("MeshElementDrawData::style"),
            size: ELEMENT_STYLE_SIZE,
            usage: BufferUsages { uniform: true, storage: false, copy_dst: true },
            mapped_at_creation: false,
        },
    );
    ctx.write_buffer(style_buffer, 0, contents);

    let mut entries = BindGroupEntries::new();
    entries.push(mesh.index_buffer_range.bind(mesh.index_buffer));
    entries.push(mesh.vertex_buffer_positions_range.bind(mesh.vertex_buffer_combined));
    entries.push(mesh.vertex_buffer_edge_ids_range.bind(mesh.vertex_buffer_combined));
    entries.push(mesh.vertex_buffer_topology_ids_range.bind(mesh.vertex_buffer_combined));
    entries.push(
        BindGroupEntry::Buffer { handle: style_buffer, offset: 0, size: Some(ELEMENT_STYLE_SIZE) },
    );
    assert(entries@ =~= mesh_bindings(*mesh, style_buffer));
    let bind_group = ctx.alloc_bind_group(
        BindGroupDesc { label: Label::new("MeshElementDrawData::bind_group"), entries, layout },
    );

    let num_indices: u64 = (mesh.index_buffer_range.end - mesh.index_buffer_range.start) / 4;
    proof {
        lemma_low_word(num_indices);
        assert(ctx@ =~= old(ctx)@.with_requests(
            mesh_requests(
                *mesh,
                style.written(old(ctx)@.byte_order),
                layout,
                old(ctx)@.requests.len() as int,
            ),
        ));
    }
    MeshElementBatch {
        bind_group,
        num_vertices: #[verifier::truncate]
        (num_indices as u32),
    }
}

/// Whether the requests from `base` on are those for this mesh in this style.
pub open spec fn mesh_is_asked_for(
    requests: Seq<RequestView>,
    mesh: GpuMesh,
    style: MeshElementStyle,
    layout: GpuBindGroupLayoutHandle,
    base: int,
    order: ByteOrder,
) -> bool {
    requests.subrange(base, base + 3) == mesh_requests(mesh, style.written(order), layout, base)
}

/// Whether `after` is `before` with the requests for these meshes, one mesh
/// after the other, behind the others.
pub open spec fn meshes_are_asked_for(
    before: RenderContextView,
    after: RenderContextView,
    meshes: Seq<(Arc<GpuMesh>, MeshElementStyle)>,
    layout: GpuBindGroupLayoutHandle,
) -> bool {
    &&& after.targets == before.targets
    &&& after.byte_order == before.byte_order
    &&& after.requests.len() == before.requests.len() + 3 * meshes.len()
    &&& after.requests.subrange(0, before.requests.len() as int) == before.requests
    &&& forall|i: int|
        0 <= i < meshes.len() ==> mesh_is_asked_for(
            after.requests,
            *(#[trigger] meshes[i]).0,
            meshes[i].1,
            layout,
            before.requests.len() + 3 * i,
            before.byte_order,
        )
}

/// The batches of meshes whose requests begin at `base`.
pub open spec fn batches_at(meshes: Seq<(Arc<GpuMesh>, MeshElementStyle)>, base: int) -> Seq<
    MeshElementBatch,
> {
    Seq::new(meshes.len(), |i: int| batch_at(*meshes[i].0, base + 3 * i))
}

/// A phase of a frame.
#[derive(Clone, Copy, Debug, PartialEq, Eq, Structural)]
pub enum DrawPhase {
    /// What occlusion is estimated from.
    OcclusionPrepass,
    /// What lies on top of the opaque surfaces.
    Transparent,
    /// What tells which element lies under a pixel.
    PickingLayer,
    /// Any other phase, by its number in the frame.
    Other(u32),
}

/// One thing to draw in a phase.
#[derive(Clone, Copy, Debug, PartialEq, Eq, Structural)]
pub struct DrawDataDrawable {
    pub distance_sort_key: FloatBits,
    pub secondary_sort_key: FloatBits,
    pub draw_data_payload: u32,
}

/// The drawables of a frame, with their phases, in order.
pub struct DrawableCollector {
    pub drawables: Vec<(DrawPhase, DrawDataDrawable)>,
}

/// The drawables with `more` behind them.
pub open spec fn with_drawables(
    drawables: Seq<(DrawPhase, DrawDataDrawable)>,
    more: Seq<(DrawPhase, DrawDataDrawable)>,
) -> Seq<(DrawPhase, DrawDataDrawable)> {
    drawables + more
}

impl DrawableCollector {
    pub fn add_drawable(&mut self, phase: DrawPhase, drawable: DrawDataDrawable)
        ensures
            final(self).drawables@ == with_drawables(
                old(self).drawables@,
                seq![(phase, drawable)],
            ),
    {
        self.drawables.push((phase, drawable));
        assert(self.drawables@ =~= old(self).drawables@ + seq![(phase, drawable)]);
    }
}

/// The one drawable of the mesh elements: nothing about it needs sorting.
pub open spec fn element_drawable() -> DrawDataDrawable {
    DrawDataDrawable {
        distance_sort_key: FloatBits { bits: 0 },
        secondary_sort_key: FloatBits { bits: 0 },
        draw_data_payload: 0,
    }
}

/// What is to be drawn of these batches, with the phases.
pub open spec fn drawables_of(batches: Seq<MeshElementBatch>) -> Seq<
    (DrawPhase, DrawDataDrawable),
> {
    if batches.len() == 0 {
        Seq::empty()
    } else {
        seq![
            (DrawPhase::Transparent, element_drawable()),
            (DrawPhase::PickingLayer, element_drawable()),
        ]
    }
}

impl MeshElementDrawData {
    /// Asks for what is needed to draw the elements of the meshes, each in its
    /// style.
    pub fn new(
        ctx: &mut RenderContext,
        renderer: &MeshElementRenderer,
        meshes: &[(Arc<GpuMesh>, MeshElementStyle)],
    ) -> (r: Self)
        requires
            forall|i: int| 0 <= i < meshes@.len() ==> (#[trigger] meshes@[i]).0.valid(),
        ensures
            meshes_are_asked_for(old(ctx)@, final(ctx)@, meshes@, renderer.bind_group_layout),
            r@ == batches_at(meshes@, old(ctx)@.requests.len() as int),
            meshes@.len() > 0 ==> final(ctx)@.requests.len() - 1 <= usize::MAX,
    {
        let mut batches: Vec<MeshElementBatch> = Vec::new();
        let ghost before = old(ctx)@;
        let ghost base = before.requests.len() as int;
        let mut i: usize = 0;
        assert(before.requests.subrange(0, base) =~= before.requests);
        while i < meshes.len()
            invariant
                i <= meshes@.len(),
                base == before.requests.len(),
                forall|k: int| 0 <= k < meshes@.len() ==> (#[trigger] meshes@[k]).0.valid(),
                meshes_are_asked_for(
                    before,
                    ctx@,
                    meshes@.take(i as int),
                    renderer.bind_group_layout,
                ),
                batches@ == batches_at(meshes@.take(i as int), base),
                i > 0 ==> ctx@.requests.len() - 1 <= usize::MAX,
            decreases meshes@.len() - i,
        {
            let ghost asked = ctx@.requests;
            let batch = request_mesh(
                ctx,
                renderer.bind_group_layout,
                &meshes[i].0,
                &meshes[i].1,
            );
            batches.push(batch);
            proof {
                let done = meshes@.take(i as int);
                let more = meshes@.take(i + 1);
                assert(ctx@.requests.subrange(0, base) =~= before.requests) by {
                    assert(asked.subrange(0, base) == before.requests);
                }
                assert forall|k: int| 0 <= k < more.len() implies mesh_is_asked_for(
                    ctx@.requests,
                    *(#[trigger] more[k]).0,
                    more[k].1,
                    renderer.bind_group_layout,
                    base + 3 * k,
                    before.byte_order,
                ) by {
                    let place = base + 3 * k;
                    if k < i {
                        assert(done[k] == more[k]);
                        assert(ctx@.requests.subrange(place, place + 3) =~= asked.subrange(
                            place,
                            place + 3,
                        ));
                    } else {
                        assert(ctx@.requests.subrange(place, place + 3) =~= mesh_requests(
                            *more[k].0,
                            more[k].1.written(before.byte_order),
                            renderer.bind_group_layout,
                            place,
                        ));
                    }
                }
                assert(batches@ =~= batches_at(more, base));
            }
            i += 1;
        }
        assert(meshes@.take(meshes@.len() as int) =~= meshes@);
        MeshElementDrawData { batches: Arc::new(batches) }
    }

    /// The batches, in the order of the meshes.
    pub fn batches(&self) -> (r: &Vec<MeshElementBatch>)
        ensures
            r@ == self@,
    {
        &self.batches
    }

    /// Has the mesh elements drawn, if there are any, in the phases they belong
    /// to.
    ///
    /// Transparent: edges sit on top of the shaded surface, and stroking
    /// discards everywhere else, so depth-writing them would punch holes.
    pub fn collect_drawables(&self, collector: &mut DrawableCollector)
        ensures
            final(collector).drawables@ == with_drawables(
                old(collector).drawables@,
                drawables_of(self@),
            ),
    {
        if self.batches.len() == 0 {
            assert(collector.drawables@ =~= old(collector).drawables@ + Seq::<
                (DrawPhase, DrawDataDrawable),
            >::empty());
            return;
        }
        let drawable = DrawDataDrawable {
            distance_sort_key: FloatBits { bits: 0 },
            secondary_sort_key: FloatBits { bits: 0 },
            draw_data_payload: 0,
        };
        collector.add_drawable(DrawPhase::Transparent, drawable);
        collector.add_drawable(DrawPhase::PickingLayer, drawable);
        assert(collector.drawables@ =~= old(collector).drawables@ + seq![
            (DrawPhase::Transparent, element_drawable()),
            (DrawPhase::PickingLayer, element_drawable()),
        ]);
    }
}

/// A buffer that the vertex shader pulls from.
pub open spec fn spec_storage_entry(binding: u32) -> BindGroupLayoutEntry {
    BindGroupLayoutEntry {
        binding,
        visibility: ShaderStage::Vertex,
        ty: BindingType::Buffer {
            ty: BufferBindingType::Storage { read_only: true },
            has_dynamic_offset: false,
            min_binding_size: None,
        },
    }
}

/// A buffer that the vertex shader pulls from.
#[verifier::when_used_as_spec(spec_storage_entry)]
pub fn storage_entry(binding: u32) -> (r: BindGroupLayoutEntry)
    ensures
        r == storage_entry(binding),
{
    BindGroupLayoutEntry {
        binding,
        visibility: ShaderStage::Vertex,
        ty: BindingType::Buffer {
            ty: BufferBindingType::Storage { read_only: true },
            has_dynamic_offset: false,
            min_binding_size: None,
        },
    }
}

/// What the shader reads of a mesh: indices, positions, edge ids and topology
/// ids, and the style.
pub open spec fn element_layout() -> BindGroupLayoutDescView {
    BindGroupLayoutDescView {
        label: "MeshElementRenderer::bind_group_layout"@,
        entries: seq![
            storage_entry(0),
            storage_entry(1),
            storage_entry(2),
            storage_entry(3),
            BindGroupLayoutEntry {
                binding: 4,
                visibility: ShaderStage::Fragment,
                ty: BindingType::Buffer {
                    ty: BufferBindingType::Uniform,
                    has_dynamic_offset: false,
                    min_binding_size: Some(ELEMENT_STYLE_SIZE),
                },
            },
        ],
    }
}

/// The pipeline that colors the elements. Its layout and its shader are the
/// ones asked for at the given places.
pub open spec fn color_pipeline(
    targets: FrameTargets,
    pipeline_layout: int,
    shader: int,
) -> RenderPipelineDescView {
    RenderPipelineDescView {
        label: "MeshElementRenderer::render_pipeline"@,
        pipeline_layout: GpuPipelineLayoutHandle { index: pipeline_layout as usize },
        vertex_entrypoint: "vs_main"@,
        vertex_handle: GpuShaderModuleHandle { index: shader as usize },
        fragment_entrypoint: "fs_main"@,
        fragment_handle: GpuShaderModuleHandle { index: shader as usize },
        render_targets: seq![
            Some(
                ColorTargetState {
                    format: targets.main_color_format,
                    blend: Some(BlendState::PremultipliedAlpha),
                    write_mask: ColorWrites::All,
                },
            ),
        ],
        // Edges are drawn from both sides: a back face's cage edge is still an
        // edge of the model.
        primitive: PrimitiveState {
            topology: PrimitiveTopology::TriangleList,
            cull_mode: None,
        },
        // Equal-or-nearer, so an edge lying exactly on the surface it belongs
        // to is not z-fought out of existence.
        depth_stencil: Some(
            DepthStencilState {
                format: targets.main_depth_format,
                depth_write_enabled: Some(false),
                depth_compare: Some(CompareFunction::GreaterEqual),
            },
        ),
        multisample: targets.main_multisample,
    }
}

/// The pipeline that writes the ids of the elements: same geometry, different
/// target.
pub open spec fn picking_pipeline(
    targets: FrameTargets,
    pipeline_layout: int,
    shader: int,
) -> RenderPipelineDescView {
    RenderPipelineDescView {
        label: "MeshElementRenderer::picking_pipeline"@,
        fragment_entrypoint: "fs_main_picking_layer"@,
        render_targets: seq![Some(ColorTargetState::overwrite(targets.picking_format))],
        depth_stencil: targets.picking_depth,
        multisample: targets.picking_multisample,
        ..color_pipeline(targets, pipeline_layout, shader)
    }
}

/// What a new renderer asks for, the first request at `base`.
pub open spec fn renderer_requests(targets: FrameTargets, base: int) -> Seq<RequestView> {
    seq![
        RequestView::BindGroupLayout(element_layout()),
        RequestView::ShaderModule(ShaderModule::MeshElements),
        RequestView::PipelineLayout(
            PipelineLayoutDescView {
                label: "MeshElementRenderer"@,
                entries: seq![
                    GpuBindGroupLayoutHandle::Global,
                    GpuBindGroupLayoutHandle::Requested(base as usize),
                ],
            },
        ),
        RequestView::RenderPipeline(color_pipeline(targets, base + 2, base + 1)),
        RequestView::RenderPipeline(picking_pipeline(targets, base + 2, base + 1)),
    ]
}

/// The renderer whose requests begin at `base`.
pub open spec fn renderer_at(base: int) -> MeshElementRenderer {
    MeshElementRenderer {
        render_pipeline: GpuRenderPipelineHandle { index: (base + 3) as usize },
        picking_pipeline: GpuRenderPipelineHandle { index: (base + 4) as usize },
        bind_group_layout: GpuBindGroupLayoutHandle::Requested(base as usize),
    }
}

/// The context after a new renderer has asked for what it needs.
pub open spec fn asked_for_renderer(ctx: RenderContextView) -> RenderContextView {
    ctx.with_requests(renderer_requests(ctx.targets, ctx.requests.len() as int))
}

/// The renderer that [`asked_for_renderer`] asks on behalf of.
pub open spec fn asking_renderer(ctx: RenderContextView) -> MeshElementRenderer {
    renderer_at(ctx.requests.len() as int)
}

/// The mesh elements to draw in a phase.
#[derive(Clone, Copy)]
pub struct DrawInstruction<'a> {
    pub draw_data: &'a MeshElementDrawData,
}

/// Why mesh elements could not be drawn.
#[derive(Clone, Copy, Debug, PartialEq, Eq, Structural)]
pub enum DrawError {
    Pool(PoolError),
}

/// How a batch is drawn: not at all if it has no vertices.
pub open spec fn batch_commands(batch: MeshElementBatch) -> Seq<PassCommand> {
    if batch.num_vertices == 0 {
        Seq::empty()
    } else {
        seq![
            PassCommand::SetBindGroup { index: 1, bind_group: batch.bind_group },
            PassCommand::Draw {
                vertices: DrawRange { start: 0, end: batch.num_vertices },
                instances: DrawRange { start: 0, end: 1 },
            },
        ]
    }
}

/// How batches are drawn: one after the other.
pub open spec fn batches_commands(batches: Seq<MeshElementBatch>) -> Seq<PassCommand>
    decreases batches.len(),
{
    if batches.len() == 0 {
        Seq::empty()
    } else {
        batches_commands(batches.drop_last()) + batch_commands(batches.last())
    }
}

/// How instructions are drawn: one after the other.
pub open spec fn instructions_commands(instructions: Seq<DrawInstruction<'_>>) -> Seq<PassCommand>
    decreases instructions.len(),
{
    if instructions.len() == 0 {
        Seq::empty()
    } else {
        instructions_commands(instructions.drop_last()) + batches_commands(
            instructions.last().draw_data@,
        )
    }
}

impl MeshElementRenderer {
    /// Asks for the pipelines.
    pub fn create_renderer(ctx: &mut RenderContext) -> (r: Self)
        ensures
            r == asking_renderer(old(ctx)@),
            final(ctx)@ == asked_for_renderer(old(ctx)@),
            old(ctx)@.requests.len() + 4 <= usize::MAX,
    {
        let targets = ctx.targets();
        let bind_group_layout = ctx.get_or_create_bind_group_layout(
            BindGroupLayoutDesc {
                label: Label::new("MeshElementRenderer::bind_group_layout"),
                entries: vec![
                    storage_entry(0),
                    storage_entry(1),
                    storage_entry(2),
                    storage_entry(3),
                    BindGroupLayoutEntry {
                        binding: 4,
                        visibility: ShaderStage::Fragment,
                        ty: BindingType::Buffer {
                            ty: BufferBindingType::Uniform,
                            has_dynamic_offset: false,
                            min_binding_size: Some(ELEMENT_STYLE_SIZE),
                        },
                    },
                ],
            },
        );
        let shader = ctx.get_or_create_shader_module(ShaderModule::MeshElements);
        let pipeline_layout = ctx.get_or_create_pipeline_layout(
            PipelineLayoutDesc {
                label: Label::new("MeshElementRenderer"),
                entries: vec![GpuBindGroupLayoutHandle::Global, bind_group_layout],
            },
        );

        let primitive = PrimitiveState {
            topology: PrimitiveTopology::TriangleList,
            cull_mode: None,
        };
        let mut render_targets = ColorTargets::new();
        render_targets.push(
            Some(
                ColorTargetState {
                    format: targets.main_color_format,
                    blend: Some(BlendState::PremultipliedAlpha),
                    write_mask: ColorWrites::All,
                },
            ),
        );
        let render_pipeline = ctx.get_or_create_render_pipeline(
            RenderPipelineDesc {
                label: Label::new("MeshElementRenderer::render_pipeline"),
                pipeline_layout,
                vertex_entrypoint: "vs_main".to_owned(),
                vertex_handle: shader,
                fragment_entrypoint: "fs_main".to_owned(),
                fragment_handle: shader,
                render_targets,
                primitive,
                depth_stencil: Some(
                    DepthStencilState {
                        format: targets.main_depth_format,
                        depth_write_enabled: Some(false),
                        depth_compare: Some(CompareFunction::GreaterEqual),
                    },
                ),
                multisample: targets.main_multisample,
            },
        );

        // Picking writes depth as the picking layer has it: an edge behind a
        // surface must not win the pick, where the color pass deliberately
        // writes none.
        let mut render_targets = ColorTargets::new();
        render_targets.push(Some(ColorTargetState::overwrite(targets.picking_format)));
        let picking_pipeline = ctx.get_or_create_render_pipeline(
            RenderPipelineDesc {
                label: Label::new("MeshElementRenderer::picking_pipeline"),
                pipeline_layout,
                vertex_entrypoint: "vs_main".to_owned(),
                vertex_handle: shader,
                fragment_entrypoint: "fs_main_picking_layer".to_owned(),
                fragment_handle: shader,
                render_targets,
                primitive,
                depth_stencil: targets.picking_depth,
                multisample: targets.picking_multisample,
            },
        );

        assert(ctx@.requests =~~= old(ctx)@.requests + renderer_requests(
            targets,
            old(ctx)@.requests.len() as int,
        ));
        MeshElementRenderer { render_pipeline, picking_pipeline, bind_group_layout }
    }

    /// The pipeline that draws in a phase.
    pub open spec fn pipeline_for(self, phase: DrawPhase) -> GpuRenderPipelineHandle {
        match phase {
            DrawPhase::PickingLayer => self.picking_pipeline,
            _ => self.render_pipeline,
        }
    }

    /// Whether the instructions are drawn with the pipelines that are ready, and
    /// the commands that draw them.
    pub open spec fn drawn(
        self,
        pipelines: GpuRenderPipelinePoolAccessor,
        phase: DrawPhase,
        instructions: Seq<DrawInstruction<'_>>,
    ) -> (Result<(), DrawError>, Seq<PassCommand>) {
        let pipeline = self.pipeline_for(phase);
        if pipelines.has(pipeline) {
            (
                Ok(()),
                seq![PassCommand::SetPipeline(pipeline)] + instructions_commands(instructions),
            )
        } else {
            (Err(DrawError::Pool(PoolError { pipeline })), Seq::empty())
        }
    }

    /// Draws the mesh elements of a phase.
    pub fn draw(
        &self,
        render_pipelines: &GpuRenderPipelinePoolAccessor,
        phase: DrawPhase,
        pass: &mut RenderPass,
        draw_instructions: &[DrawInstruction<'_>],
    ) -> (r: Result<(), DrawError>)
        ensures
            r == self.drawn(*render_pipelines, phase, draw_instructions@).0,
            final(pass)@ == old(pass)@.with_commands(
                self.drawn(*render_pipelines, phase, draw_instructions@).1,
            ),
    {
        let handle = match phase {
            DrawPhase::PickingLayer => self.picking_pipeline,
            _ => self.render_pipeline,
        };
        let pipeline = match render_pipelines.get(handle) {
            Ok(pipeline) => pipeline,
            Err(err) => {
                assert(pass@ =~= old(pass)@.with_commands(Seq::empty()));
                return Err(DrawError::Pool(err));
            },
        };
        pass.set_pipeline(pipeline);

        let ghost set = pass@;
        let mut i: usize = 0;
        assert(set.commands =~= set.commands + instructions_commands(draw_instructions@.take(0)));
        while i < draw_instructions.len()
            invariant
                i <= draw_instructions@.len(),
                pass@ == set.with_commands(
                    instructions_commands(draw_instructions@.take(i as int)),
                ),
            decreases draw_instructions@.len() - i,
        {
            let batches = draw_instructions[i].draw_data.batches();
            let ghost begun = pass@;
            let mut j: usize = 0;
            assert(begun.commands =~= begun.commands + batches_commands(batches@.take(0)));
            while j < batches.len()
                invariant
                    j <= batches@.len(),
                    pass@ == begun.with_commands(batches_commands(batches@.take(j as int))),
                decreases batches@.len() - j,
            {
                let batch = batches[j];
                proof {
                    assert(batches@.take(j + 1).drop_last() =~= batches@.take(j as int));
                }
                if batch.num_vertices != 0 {
                    pass.set_bind_group(1, batch.bind_group);
                    pass.draw(
                        DrawRange { start: 0, end: batch.num_vertices },
                        DrawRange { start: 0, end: 1 },
                    );
                }
                assert(pass@ =~= begun.with_commands(batches_commands(batches@.take(j + 1))));
                j += 1;
            }
            proof {
                assert(batches@.take(batches@.len() as int) =~= batches@);
                assert(draw_instructions@.take(i + 1).drop_last() =~= draw_instructions@.take(
                    i as int,
                ));
                assert(pass@ =~= set.with_commands(
                    instructions_commands(draw_instructions@.take(i + 1)),
                ));
            }
            i += 1;
        }
        assert(draw_instructions@.take(draw_instructions@.len() as int) =~= draw_instructions@);
        assert(pass@ =~= old(pass)@.with_commands(
            seq![PassCommand::SetPipeline(pipeline)] + instructions_commands(draw_instructions@),
        ));
        Ok(())
    }
}

} // verus!
