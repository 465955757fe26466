//! What holds of the mesh elements of every frame.
use std::sync::Arc;
use vstd::prelude::*;

use crate::bytes::{
    law_words_read_back, lemma_all_words_read_back, word_at, words_to_bytes, ByteOrder,
};
use crate::commands::{DrawRange, GpuRenderPipelinePoolAccessor, PassCommand, PoolError};
use crate::gpu_types::{BindingType, BlendState, BufferBindingType, CompareFunction};
use crate::handles::{BindGroupEntry, GpuBindGroupLayoutHandle, GpuBufferHandle};
use crate::mesh_element_renderer::{
    asked_for_renderer, asking_renderer, batch_at, batch_commands, batches_at, batches_commands,
    color_pipeline, drawables_of, element_layout, instructions_commands, mesh_is_asked_for,
    mesh_requests, meshes_are_asked_for, picking_pipeline, renderer_at, renderer_requests,
    storage_entry, with_drawables, BufferRange, DrawDataDrawable, DrawError, DrawInstruction,
    DrawPhase, GpuMesh, MeshElementBatch, MeshElementRenderer, MeshElementStyle,
};
use crate::resources::{
    all_fit, all_resolve, buffer_resolves, entry_fits, lemma_resolves_when_more_follow,
    request_fits, request_resolves, FrameTargets, RenderContextView, RenderPipelineDescView,
    RequestView, ShaderModule,
};
use crate::uniforms::{law_words_of_the_style, ELEMENT_STYLE_SIZE};

verus! {

/// Nothing that a renderer asks for refers to what has not been asked for
/// before, and asking for it spoils no bind group.
pub proof fn law_renderer_requests_can_be_served(ctx: RenderContextView)
    requires
        all_resolve(ctx.requests),
        ctx.requests.len() + 4 <= usize::MAX,
    ensures
        ({
            let more = renderer_requests(ctx.targets, ctx.requests.len() as int);
            &&& all_resolve(ctx.with_requests(more).requests)
            &&& all_fit(ctx.requests) ==> all_fit(ctx.with_requests(more).requests)
        }),
{
    let more = renderer_requests(ctx.targets, ctx.requests.len() as int);
    let all = ctx.requests + more;
    lemma_resolves_when_more_follow(ctx.requests, more);
    assert forall|i: int| 0 <= i < all.len() implies #[trigger] request_resolves(all, i) by {
        if i < ctx.requests.len() {
            assert(request_resolves(ctx.requests, i));
        }
    }
    if all_fit(ctx.requests) {
        assert forall|i: int| 0 <= i < all.len() implies #[trigger] request_fits(all, i) by {
            if i < ctx.requests.len() {
                assert(request_resolves(ctx.requests, i));
                assert(request_fits(ctx.requests, i));
            }
        }
    }
}

/// Whether the buffers of a mesh are resident, or are among the first `n`
/// things asked for, hold the mesh, and can be pulled from.
pub open spec fn mesh_can_be_bound(requests: Seq<RequestView>, n: int, mesh: GpuMesh) -> bool {
    let vertices = mesh.vertex_buffer_combined;
    &&& buffer_resolves(requests, n, mesh.index_buffer)
    &&& buffer_resolves(requests, n, vertices)
    &&& entry_fits(requests, storage_entry(0), mesh.index_buffer_range.binding(mesh.index_buffer))
    &&& entry_fits(requests, storage_entry(1), mesh.vertex_buffer_positions_range.binding(vertices))
    &&& entry_fits(requests, storage_entry(2), mesh.vertex_buffer_edge_ids_range.binding(vertices))
    &&& entry_fits(
        requests,
        storage_entry(3),
        mesh.vertex_buffer_topology_ids_range.binding(vertices),
    )
}

/// What is asked for to draw meshes can be served, and all its bind groups can
/// be made, where the renderer's layout and the meshes' buffers are there.
pub proof fn law_mesh_requests_can_be_served(
    before: RenderContextView,
    after: RenderContextView,
    meshes: Seq<(Arc<GpuMesh>, MeshElementStyle)>,
    layout: usize,
)
    requires
        all_resolve(before.requests),
        all_fit(before.requests),
        layout < before.requests.len(),
        before.requests[layout as int] == RequestView::BindGroupLayout(element_layout()),
        meshes_are_asked_for(
            before,
            after,
            meshes,
            GpuBindGroupLayoutHandle::Requested(layout),
        ),
        meshes.len() > 0 ==> after.requests.len() - 1 <= usize::MAX,
        forall|k: int|
            0 <= k < meshes.len() ==> mesh_can_be_bound(
                before.requests,
                before.requests.len() as int,
                *(#[trigger] meshes[k]).0,
            ),
    ensures
        all_resolve(after.requests),
        all_fit(after.requests),
{
    let n = before.requests.len() as int;
    let all = after.requests;
    let more = all.subrange(n, all.len() as int);
    assert(all =~= before.requests + more) by {
        assert(all.subrange(0, n) == before.requests);
    }
    lemma_resolves_when_more_follow(before.requests, more);
    assert(forall|i: int| 0 <= i < n ==> #[trigger] all[i] == before.requests[i]);
    assert forall|i: int|
        #![trigger request_resolves(all, i)]
        #![trigger request_fits(all, i)]
        0 <= i < all.len() implies request_resolves(all, i) && request_fits(all, i) by {
        if i < n {
            assert(request_resolves(before.requests, i));
            assert(request_fits(before.requests, i));
        } else {
            let k = (i - n) / 3;
            let place = n + 3 * k;
            let mesh = *meshes[k].0;
            let asked = mesh_requests(
                mesh,
                meshes[k].1.written(before.byte_order),
                GpuBindGroupLayoutHandle::Requested(layout),
                place,
            );
            assert(all.subrange(place, place + 3) == asked);
            assert(all[place] == asked[0]);
            assert(all[i] == asked[i - place]);
            assert(mesh_can_be_bound(before.requests, n, mesh));
        }
    }
}

/// Each triangle is drawn by three vertices.
pub proof fn law_three_vertices_per_triangle(mesh: GpuMesh, triangle_count: int, base: int)
    requires
        mesh.valid(),
        mesh.index_buffer_range.end - mesh.index_buffer_range.start == 12 * triangle_count,
        3 * triangle_count < 0x1_0000_0000,
    ensures
        batch_at(mesh, base).num_vertices == 3 * triangle_count,
{
}

/// Hovering costs nothing beyond a uniform write: what is asked for is the same
/// whatever is hovered, but for the last word that is written to the style,
/// which is the hovered element's id.
pub proof fn law_hovering_costs_a_uniform_write(
    mesh: GpuMesh,
    style: MeshElementStyle,
    hover_element_id: u32,
    order: ByteOrder,
    layout: GpuBindGroupLayoutHandle,
    base: int,
)
    ensures
        ({
            let hovered = MeshElementStyle { hover_element_id, ..style };
            let contents = style.written(order);
            let hovered_contents = hovered.written(order);
            let requests = mesh_requests(mesh, contents, layout, base);
            let hovered_requests = mesh_requests(mesh, hovered_contents, layout, base);
            &&& hovered_requests[0] == requests[0]
            &&& hovered_requests[1] == (RequestView::BufferWrite {
                buffer: requests[1]->buffer,
                offset: requests[1]->offset,
                contents: hovered_contents,
            })
            &&& hovered_requests[2] == requests[2]
            &&& hovered_contents.len() == contents.len() == ELEMENT_STYLE_SIZE
            &&& hovered_contents.take(44) == contents.take(44)
            &&& word_at(hovered_contents, order, 44) == hover_element_id
        }),
{
    let hovered = MeshElementStyle { hover_element_id, ..style };
    let words = style.spec_uniform().spec_words();
    let hovered_words = hovered.spec_uniform().spec_words();
    assert forall|i: int| 0 <= i < 44 implies words_to_bytes(hovered_words, order)[i]
        == words_to_bytes(words, order)[i] by {
        assert(0 <= i / 4 < 11);
        assert(hovered_words[i / 4] == words[i / 4]);
    }
    law_words_read_back(hovered_words, order, 11);
    assert(words_to_bytes(hovered_words, order).take(44) =~= words_to_bytes(words, order).take(
        44,
    ));
}

/// The same meshes in the same styles, but that `hover_element_id` is hovered in
/// the mesh at `k`.
pub open spec fn hovered_at(
    meshes: Seq<(Arc<GpuMesh>, MeshElementStyle)>,
    k: int,
    hover_element_id: u32,
) -> Seq<(Arc<GpuMesh>, MeshElementStyle)> {
    meshes.update(k, (meshes[k].0, MeshElementStyle { hover_element_id, ..meshes[k].1 }))
}

/// What is written to the style of the mesh at `i`.
pub open spec fn style_written(ctx: RenderContextView, base: int, i: int) -> Seq<u8> {
    ctx.requests[base + 3 * i + 1]->BufferWrite_contents
}

/// What the bind group of the mesh at `i` binds.
pub open spec fn bound(ctx: RenderContextView, base: int, i: int) -> Seq<BindGroupEntry> {
    ctx.requests[base + 3 * i + 2]->BindGroup_0.entries
}

/// Where only what is hovered in the mesh at `k` differs between two lists of
/// meshes, they have as many batches, and each mesh is drawn by as many vertices,
/// from the same ranges of the same buffers. What is written to their styles is
/// the same but for the last four bytes of the style of the mesh at `k`, which
/// hold the hovered element's id.
///
/// The contexts may differ, but belong to machines of one byte order.
pub proof fn law_hovering_changes_one_word(
    before: RenderContextView,
    after: RenderContextView,
    hovered_before: RenderContextView,
    hovered_after: RenderContextView,
    meshes: Seq<(Arc<GpuMesh>, MeshElementStyle)>,
    layout: GpuBindGroupLayoutHandle,
    k: int,
    hover_element_id: u32,
)
    requires
        0 <= k < meshes.len(),
        hovered_before.byte_order == before.byte_order,
        meshes_are_asked_for(before, after, meshes, layout),
        meshes_are_asked_for(
            hovered_before,
            hovered_after,
            hovered_at(meshes, k, hover_element_id),
            layout,
        ),
    ensures
        ({
            let base = before.requests.len() as int;
            let hovered_base = hovered_before.requests.len() as int;
            let batches = batches_at(meshes, base);
            let hovered_batches = batches_at(
                hovered_at(meshes, k, hover_element_id),
                hovered_base,
            );
            &&& hovered_batches.len() == batches.len()
            &&& forall|i: int|
                #![trigger batches[i]]
                #![trigger hovered_batches[i]]
                0 <= i < meshes.len() ==> hovered_batches[i].num_vertices
                    == batches[i].num_vertices
            &&& forall|i: int|
                #![trigger bound(after, base, i)]
                #![trigger bound(hovered_after, hovered_base, i)]
                0 <= i < meshes.len() ==> {
                    &&& bound(after, base, i).len() == 5
                    &&& bound(hovered_after, hovered_base, i).len() == 5
                    &&& bound(hovered_after, hovered_base, i).take(4) == bound(
                        after,
                        base,
                        i,
                    ).take(4)
                }
            &&& forall|i: int|
                #![trigger style_written(after, base, i)]
                #![trigger style_written(hovered_after, hovered_base, i)]
                0 <= i < meshes.len() && i != k ==> style_written(hovered_after, hovered_base, i)
                    == style_written(after, base, i)
            &&& style_written(after, base, k).len() == ELEMENT_STYLE_SIZE
            &&& style_written(hovered_after, hovered_base, k).len() == ELEMENT_STYLE_SIZE
            &&& style_written(hovered_after, hovered_base, k).take(44) == style_written(
                after,
                base,
                k,
            ).take(44)
            &&& word_at(style_written(hovered_after, hovered_base, k), before.byte_order, 44)
                == hover_element_id
        }),
{
    let base = before.requests.len() as int;
    let hovered_base = hovered_before.requests.len() as int;
    let hovered = hovered_at(meshes, k, hover_element_id);
    assert forall|i: int| 0 <= i < meshes.len() implies {
        &&& #[trigger] style_written(after, base, i) == meshes[i].1.written(before.byte_order)
        &&& style_written(hovered_after, hovered_base, i) == hovered[i].1.written(
            before.byte_order,
        )
        &&& bound(after, base, i).len() == 5
        &&& bound(hovered_after, hovered_base, i).len() == 5
        &&& bound(hovered_after, hovered_base, i).take(4) =~= bound(after, base, i).take(4)
    } by {
        let place = base + 3 * i;
        let hovered_place = hovered_base + 3 * i;
        assert(mesh_is_asked_for(
            after.requests,
            *meshes[i].0,
            meshes[i].1,
            layout,
            place,
            before.byte_order,
        ));
        assert(mesh_is_asked_for(
            hovered_after.requests,
            *hovered[i].0,
            hovered[i].1,
            layout,
            hovered_place,
            before.byte_order,
        ));
        let asked = after.requests.subrange(place, place + 3);
        let hovered_asked = hovered_after.requests.subrange(hovered_place, hovered_place + 3);
        assert(after.requests[place + 1] == asked[1]);
        assert(after.requests[place + 2] == asked[2]);
        assert(hovered_after.requests[hovered_place + 1] == hovered_asked[1]);
        assert(hovered_after.requests[hovered_place + 2] == hovered_asked[2]);
    }
    assert forall|i: int|
        #![trigger bound(after, base, i)]
        #![trigger bound(hovered_after, hovered_base, i)]
        0 <= i < meshes.len() implies bound(after, base, i).len() == 5 && bound(
        hovered_after,
        hovered_base,
        i,
    ).len() == 5 && bound(hovered_after, hovered_base, i).take(4) == bound(after, base, i).take(
        4,
    ) by {
        assert(style_written(after, base, i) == meshes[i].1.written(before.byte_order));
    }
    assert(style_written(after, base, k) == meshes[k].1.written(before.byte_order));
    law_hovering_costs_a_uniform_write(
        *meshes[k].0,
        meshes[k].1,
        hover_element_id,
        before.byte_order,
        layout,
        base,
    );
}

/// How many of the commands draw.
pub open spec fn draw_count(commands: Seq<PassCommand>) -> nat {
    commands.filter(|command: PassCommand| command is Draw).len()
}

/// How many of the batches have vertices.
pub open spec fn drawn_batch_count(batches: Seq<MeshElementBatch>) -> nat {
    batches.filter(|batch: MeshElementBatch| batch.num_vertices != 0).len()
}

proof fn lemma_draw_count_of_sum(a: Seq<PassCommand>, b: Seq<PassCommand>)
    ensures
        draw_count(a + b) == draw_count(a) + draw_count(b),
{
    Seq::<PassCommand>::filter_distributes_over_add(a, b, |command: PassCommand| command is Draw);
}

/// A mesh costs one draw call, however many elements it has; a mesh without
/// vertices costs none.
pub proof fn law_one_draw_per_mesh(batches: Seq<MeshElementBatch>)
    ensures
        draw_count(batches_commands(batches)) == drawn_batch_count(batches),
    decreases batches.len(),
{
    reveal(Seq::filter);
    if batches.len() > 0 {
        law_one_draw_per_mesh(batches.drop_last());
        let last = batches.last();
        let commands = batch_commands(last);
        lemma_draw_count_of_sum(batches_commands(batches.drop_last()), commands);
        if last.num_vertices != 0 {
            assert(commands.drop_last() =~= seq![commands[0]]);
            assert(commands.drop_last().drop_last() =~= Seq::empty());
            reveal_with_fuel(Seq::filter, 3);
            assert(draw_count(commands) == 1);
        } else {
            assert(draw_count(commands) == 0);
        }
    }
}

/// How many batches with vertices the instructions have between them.
pub open spec fn drawn_total(instructions: Seq<DrawInstruction<'_>>) -> nat
    decreases instructions.len(),
{
    if instructions.len() == 0 {
        0
    } else {
        drawn_total(instructions.drop_last()) + drawn_batch_count(instructions.last().draw_data@)
    }
}

/// Drawing a phase costs one draw call for each mesh that has vertices.
pub proof fn law_a_phase_draws_each_mesh_once(instructions: Seq<DrawInstruction<'_>>)
    ensures
        draw_count(instructions_commands(instructions)) == drawn_total(instructions),
    decreases instructions.len(),
{
    reveal(Seq::filter);
    if instructions.len() > 0 {
        law_a_phase_draws_each_mesh_once(instructions.drop_last());
        law_one_draw_per_mesh(instructions.last().draw_data@);
        lemma_draw_count_of_sum(
            instructions_commands(instructions.drop_last()),
            batches_commands(instructions.last().draw_data@),
        );
    }
}

/// Picking draws the same geometry as coloring does, and coloring writes no
/// depth.
pub proof fn law_picking_draws_what_coloring_draws(
    targets: FrameTargets,
    pipeline_layout: int,
    shader: int,
)
    ensures
        ({
            let color = color_pipeline(targets, pipeline_layout, shader);
            let picking = picking_pipeline(targets, pipeline_layout, shader);
            &&& picking.pipeline_layout == color.pipeline_layout
            &&& picking.vertex_entrypoint == color.vertex_entrypoint
            &&& picking.vertex_handle == color.vertex_handle
            &&& picking.fragment_handle == color.fragment_handle
            &&& picking.primitive == color.primitive
            &&& color.depth_stencil->0.depth_write_enabled == Some(false)
        }),
{
}

/// The pipelines of a renderer take bind groups laid out like those of its
/// batches where the batches set them.
pub proof fn law_batches_are_laid_out_for_the_pipelines(
    ctx: RenderContextView,
    mesh: GpuMesh,
    contents: Seq<u8>,
    base: int,
)
    requires
        ctx.requests.len() + 4 <= usize::MAX,
    ensures
        ({
            let place = ctx.requests.len() as int;
            let requests = ctx.with_requests(renderer_requests(ctx.targets, place)).requests;
            let renderer = renderer_at(place);
            let color = requests[renderer.render_pipeline.index as int]->RenderPipeline_0;
            let picking = requests[renderer.picking_pipeline.index as int]->RenderPipeline_0;
            let bind_group = mesh_requests(
                mesh,
                contents,
                renderer.bind_group_layout,
                base,
            )[2]->BindGroup_0;
            &&& requests[color.pipeline_layout.index as int]->PipelineLayout_0.entries[1]
                == bind_group.layout
            &&& requests[picking.pipeline_layout.index as int]->PipelineLayout_0.entries[1]
                == bind_group.layout
        }),
{
}

/// The style goes to the shader as it is.
pub proof fn law_the_shader_reads_the_style(style: MeshElementStyle)
    ensures
        style.spec_uniform().edge_color == style.edge_color,
        style.spec_uniform().hover_color == style.hover_color,
        style.spec_uniform().edge_half_width_px == style.edge_half_width_px,
        style.spec_uniform().hover_half_width_px == style.hover_half_width_px,
        style.spec_uniform().vertex_radius_px == style.vertex_radius_px,
        style.spec_uniform().hover_element_id == style.hover_element_id,
{
}

/// Whether the bytes read back as the style: 16 for the color of edges, 16 for
/// that of the hovered element, then four for each of the two half widths, the
/// radius of vertices and the hovered element's id.
pub open spec fn reads_as_style(
    contents: Seq<u8>,
    order: ByteOrder,
    style: MeshElementStyle,
) -> bool {
    &&& contents.len() == 48
    &&& word_at(contents, order, 0) == style.edge_color@[0].bits
    &&& word_at(contents, order, 4) == style.edge_color@[1].bits
    &&& word_at(contents, order, 8) == style.edge_color@[2].bits
    &&& word_at(contents, order, 12) == style.edge_color@[3].bits
    &&& word_at(contents, order, 16) == style.hover_color@[0].bits
    &&& word_at(contents, order, 20) == style.hover_color@[1].bits
    &&& word_at(contents, order, 24) == style.hover_color@[2].bits
    &&& word_at(contents, order, 28) == style.hover_color@[3].bits
    &&& word_at(contents, order, 32) == style.edge_half_width_px.bits
    &&& word_at(contents, order, 36) == style.hover_half_width_px.bits
    &&& word_at(contents, order, 40) == style.vertex_radius_px.bits
    &&& word_at(contents, order, 44) == style.hover_element_id
}

/// What is written for a style reads back as that style.
#[verifier::rlimit(40)]
pub proof fn law_a_style_reads_back(style: MeshElementStyle, order: ByteOrder)
    ensures
        reads_as_style(style.written(order), order, style),
{
    let words = style.spec_uniform().spec_words();
    law_words_of_the_style(style.spec_uniform());
    lemma_all_words_read_back(words, order);
    assert(words[0] == style.edge_color@[0].bits && words[1] == style.edge_color@[1].bits
        && words[2] == style.edge_color@[2].bits && words[3] == style.edge_color@[3].bits);
    assert(words[4] == style.hover_color@[0].bits && words[5] == style.hover_color@[1].bits
        && words[6] == style.hover_color@[2].bits && words[7] == style.hover_color@[3].bits);
    assert(words[8] == style.edge_half_width_px.bits && words[9] == style.hover_half_width_px.bits
        && words[10] == style.vertex_radius_px.bits && words[11] == style.hover_element_id);
}

/// Whether the entry binds the bytes from `range.start` up to `range.end` of the
/// buffer: with their number, or with none if there are no bytes.
pub open spec fn binds_range(
    entry: BindGroupEntry,
    buffer: GpuBufferHandle,
    range: BufferRange,
) -> bool {
    &&& entry matches BindGroupEntry::Buffer { handle, offset, size }
    &&& handle == buffer
    &&& offset == range.start
    &&& range.start == range.end ==> size is None
    &&& range.start != range.end ==> {
        &&& size matches Some(size)
        &&& offset + size == range.end
    }
}

/// A range that does not end before it starts is bound by its bytes.
pub proof fn law_a_range_is_bound_by_its_bytes(range: BufferRange, buffer: GpuBufferHandle)
    ensures
        range.valid() <==> range.start <= range.end,
        range.valid() ==> binds_range(range.binding(buffer), buffer, range),
{
}

/// A mesh can be drawn if none of its four ranges ends before it starts.
pub proof fn law_a_mesh_is_valid_by_its_ranges(mesh: GpuMesh)
    ensures
        mesh.valid() <==> {
            &&& mesh.index_buffer_range.start <= mesh.index_buffer_range.end
            &&& mesh.vertex_buffer_positions_range.start <= mesh.vertex_buffer_positions_range.end
            &&& mesh.vertex_buffer_edge_ids_range.start <= mesh.vertex_buffer_edge_ids_range.end
            &&& mesh.vertex_buffer_topology_ids_range.start
                <= mesh.vertex_buffer_topology_ids_range.end
        },
{
}

/// Each mesh gets a batch of its own, in the order of the meshes. Its bind group
/// has the indices at 0, the positions at 1, the edge ids at 2, the topology ids
/// at 3, and at 4 a new buffer into which the mesh's style is written. The batch
/// has a vertex for each whole index.
#[verifier::rlimit(40)]
pub proof fn law_each_mesh_is_bound_with_its_style(
    before: RenderContextView,
    after: RenderContextView,
    meshes: Seq<(Arc<GpuMesh>, MeshElementStyle)>,
    layout: GpuBindGroupLayoutHandle,
    i: int,
)
    requires
        meshes_are_asked_for(before, after, meshes, layout),
        after.requests.len() - 1 <= usize::MAX,
        0 <= i < meshes.len(),
        meshes[i].0.valid(),
    ensures
        ({
            let first = before.requests.len() as int;
            let batches = batches_at(meshes, first);
            let batch = batches[i];
            let mesh = *meshes[i].0;
            &&& after.targets == before.targets
            &&& after.byte_order == before.byte_order
            &&& after.requests.len() == first + 3 * meshes.len()
            &&& forall|j: int| 0 <= j < first ==> #[trigger] after.requests[j] == before.requests[j]
            &&& batches.len() == meshes.len()
            &&& batch.num_vertices == (mesh.index_buffer_range.end - mesh.index_buffer_range.start)
                / 4 % 0x1_0000_0000
            &&& batch.bind_group.index == first + 3 * i + 2
            &&& after.requests[batch.bind_group.index as int] matches RequestView::BindGroup(group)
            &&& group.label == "MeshElementDrawData::bind_group"@
            &&& group.layout == layout
            &&& group.entries.len() == 5
            &&& binds_range(group.entries[0], mesh.index_buffer, mesh.index_buffer_range)
            &&& binds_range(
                group.entries[1],
                mesh.vertex_buffer_combined,
                mesh.vertex_buffer_positions_range,
            )
            &&& binds_range(
                group.entries[2],
                mesh.vertex_buffer_combined,
                mesh.vertex_buffer_edge_ids_range,
            )
            &&& binds_range(
                group.entries[3],
                mesh.vertex_buffer_combined,
                mesh.vertex_buffer_topology_ids_range,
            )
            &&& group.entries[4] matches BindGroupEntry::Buffer { handle, offset, size }
            &&& offset == 0
            &&& size == Some(48u64)
            &&& handle matches GpuBufferHandle::Requested(place)
            &&& place == first + 3 * i
            &&& after.requests[place as int] matches RequestView::Buffer(buffer)
            &&& buffer.label == "MeshElementDrawData::style"@
            &&& buffer.size == 48
            &&& buffer.usage.uniform
            &&& !buffer.usage.storage
            &&& buffer.usage.copy_dst
            &&& !buffer.mapped_at_creation
            &&& after.requests[place + 1] matches RequestView::BufferWrite {
                buffer: written_to,
                offset: written_from,
                contents,
            }
            &&& written_to == handle
            &&& written_from == 0
            &&& reads_as_style(contents, before.byte_order, meshes[i].1)
        }),
{
    let first = before.requests.len() as int;
    let place = first + 3 * i;
    law_a_style_reads_back(meshes[i].1, before.byte_order);
    assert(mesh_is_asked_for(
        after.requests,
        *meshes[i].0,
        meshes[i].1,
        layout,
        place,
        before.byte_order,
    ));
    let asked = after.requests.subrange(place, place + 3);
    assert(after.requests[place] == asked[0]);
    assert(after.requests[place + 1] == asked[1]);
    assert(after.requests[place + 2] == asked[2]);
    assert forall|j: int| 0 <= j < first implies #[trigger] after.requests[j]
        == before.requests[j] by {
        assert(after.requests.subrange(0, first)[j] == after.requests[j]);
    }
}

/// An entry of the layout that is pulled from has the number it is made with, is
/// for the vertex shader, and is not written.
pub proof fn law_vertices_are_pulled_and_not_written(binding: u32)
    ensures
        storage_entry(binding).binding == binding,
        storage_entry(binding).visibility is Vertex,
        storage_entry(binding).ty matches BindingType::Buffer {
            ty,
            has_dynamic_offset,
            min_binding_size,
        } && {
            &&& ty == (BufferBindingType::Storage { read_only: true })
            &&& !has_dynamic_offset
            &&& min_binding_size is None
        },
{
}

/// A renderer's layout has four buffers for the vertex shader to pull from, at 0
/// to 3, and at 4 a style of 48 bytes for the fragment shader.
pub proof fn law_the_layout_has_a_mesh_and_its_style(ctx: RenderContextView)
    requires
        ctx.requests.len() + 4 <= usize::MAX,
    ensures
        ({
            let after = asked_for_renderer(ctx);
            &&& after.targets == ctx.targets
            &&& after.byte_order == ctx.byte_order
            &&& after.requests.len() == ctx.requests.len() + 5
            &&& forall|i: int|
                0 <= i < ctx.requests.len() ==> #[trigger] after.requests[i] == ctx.requests[i]
            &&& asking_renderer(ctx).bind_group_layout matches GpuBindGroupLayoutHandle::Requested(
                place,
            )
            &&& ctx.requests.len() <= place < after.requests.len()
            &&& after.requests[place as int] matches RequestView::BindGroupLayout(layout)
            &&& layout.label == "MeshElementRenderer::bind_group_layout"@
            &&& layout.entries.len() == 5
            &&& forall|k: int|
                0 <= k < 4 ==> {
                    &&& (#[trigger] layout.entries[k]).binding == k
                    &&& layout.entries[k].visibility is Vertex
                    &&& layout.entries[k].ty == (BindingType::Buffer {
                        ty: BufferBindingType::Storage { read_only: true },
                        has_dynamic_offset: false,
                        min_binding_size: None,
                    })
                }
            &&& layout.entries[4].binding == 4
            &&& layout.entries[4].visibility is Fragment
            &&& layout.entries[4].ty == (BindingType::Buffer {
                ty: BufferBindingType::Uniform,
                has_dynamic_offset: false,
                min_binding_size: Some(48),
            })
        }),
{
}

/// Whether the pipeline runs the mesh element shaders over a triangle list, from
/// both sides, with the frame's shared bindings at 0 and the renderer's at 1.
pub open spec fn runs_mesh_elements(
    requests: Seq<RequestView>,
    pipeline: RenderPipelineDescView,
    bind_group_layout: GpuBindGroupLayoutHandle,
    fragment_entrypoint: Seq<char>,
) -> bool {
    &&& requests[pipeline.pipeline_layout.index as int] matches RequestView::PipelineLayout(layout)
    &&& layout.label == "MeshElementRenderer"@
    &&& layout.entries.len() == 2
    &&& layout.entries[0] is Global
    &&& layout.entries[1] == bind_group_layout
    &&& pipeline.vertex_entrypoint == "vs_main"@
    &&& requests[pipeline.vertex_handle.index as int] == RequestView::ShaderModule(
        ShaderModule::MeshElements,
    )
    &&& pipeline.fragment_entrypoint == fragment_entrypoint
    &&& requests[pipeline.fragment_handle.index as int] == RequestView::ShaderModule(
        ShaderModule::MeshElements,
    )
    &&& pipeline.render_targets.len() == 1
    &&& pipeline.primitive.topology is TriangleList
    &&& pipeline.primitive.cull_mode is None
}

/// The color pipeline blends premultiplied alpha into the main color target, and
/// samples as the main pass does. It draws what is equal or nearer in the main
/// depth, where nearer is greater, and writes no depth.
///
/// The picking pipeline overwrites the picking target, and tests depth and
/// samples as the picking layer does.
#[verifier::rlimit(40)]
pub proof fn law_pipelines_draw_to_the_targets_of_the_frame(ctx: RenderContextView)
    requires
        ctx.requests.len() + 4 <= usize::MAX,
    ensures
        ({
            let requests = asked_for_renderer(ctx).requests;
            let renderer = asking_renderer(ctx);
            let targets = ctx.targets;
            &&& ctx.requests.len() <= renderer.render_pipeline.index < requests.len()
            &&& ctx.requests.len() <= renderer.picking_pipeline.index < requests.len()
            &&& renderer.render_pipeline != renderer.picking_pipeline
            &&& requests[renderer.render_pipeline.index as int] matches RequestView::RenderPipeline(
                color,
            )
            &&& color.label == "MeshElementRenderer::render_pipeline"@
            &&& runs_mesh_elements(requests, color, renderer.bind_group_layout, "fs_main"@)
            &&& color.render_targets[0] matches Some(color_target)
            &&& color_target.format == targets.main_color_format
            &&& color_target.blend == Some(BlendState::PremultipliedAlpha)
            &&& color_target.write_mask is All
            &&& color.depth_stencil matches Some(depth)
            &&& depth.format == targets.main_depth_format
            &&& depth.depth_compare == Some(CompareFunction::GreaterEqual)
            &&& depth.depth_write_enabled == Some(false)
            &&& color.multisample == targets.main_multisample
            &&& requests[renderer.picking_pipeline.index as int] matches RequestView::RenderPipeline(
                picking,
            )
            &&& picking.label == "MeshElementRenderer::picking_pipeline"@
            &&& runs_mesh_elements(
                requests,
                picking,
                renderer.bind_group_layout,
                "fs_main_picking_layer"@,
            )
            &&& picking.render_targets[0] matches Some(picking_target)
            &&& picking_target.format == targets.picking_format
            &&& picking_target.blend is None
            &&& picking_target.write_mask is All
            &&& picking.depth_stencil == targets.picking_depth
            &&& picking.multisample == targets.picking_multisample
        }),
{
}

/// Mesh elements are drawn on top of the surfaces and for picking, in no other
/// phase, once each, and unsorted; where there are no meshes, in no phase.
pub proof fn law_elements_are_drawn_in_two_phases(batches: Seq<MeshElementBatch>)
    ensures
        ({
            let drawables = drawables_of(batches);
            &&& batches.len() == 0 <==> drawables.len() == 0
            &&& batches.len() > 0 ==> {
                &&& drawables.len() == 2
                &&& drawables[0].0 is Transparent
                &&& drawables[1].0 is PickingLayer
            }
            &&& forall|i: int|
                0 <= i < drawables.len() ==> {
                    &&& (#[trigger] drawables[i]).1.distance_sort_key.bits == 0
                    &&& drawables[i].1.secondary_sort_key.bits == 0
                    &&& drawables[i].1.draw_data_payload == 0
                }
        }),
{
}

/// What was collected before is kept, in its place. What is collected later comes
/// behind it, in order.
pub proof fn law_later_drawables_come_behind(
    drawables: Seq<(DrawPhase, DrawDataDrawable)>,
    more: Seq<(DrawPhase, DrawDataDrawable)>,
)
    ensures
        with_drawables(drawables, more).len() == drawables.len() + more.len(),
        forall|i: int|
            0 <= i < drawables.len() ==> #[trigger] with_drawables(drawables, more)[i]
                == drawables[i],
        forall|i: int|
            0 <= i < more.len() ==> with_drawables(drawables, more)[drawables.len() + i]
                == #[trigger] more[i],
{
}

/// The batches of the instructions that have vertices: those of the first
/// instruction in their order, then those of the next.
pub open spec fn batches_to_draw(instructions: Seq<DrawInstruction<'_>>) -> Seq<MeshElementBatch> {
    instructions.map_values(
        |instruction: DrawInstruction<'_>| instruction.draw_data@,
    ).flatten().filter(|batch: MeshElementBatch| batch.num_vertices != 0)
}

/// Whether the commands draw these batches, each in its turn: its bind group is
/// set at 1, then all its vertices are drawn, once.
pub open spec fn draws_each_whole(
    commands: Seq<PassCommand>,
    batches: Seq<MeshElementBatch>,
) -> bool {
    &&& commands.len() == 2 * batches.len()
    &&& forall|j: int|
        0 <= j < batches.len() ==> {
            &&& commands[2 * j] == (PassCommand::SetBindGroup {
                index: 1,
                bind_group: (#[trigger] batches[j]).bind_group,
            })
            &&& commands[2 * j + 1] == (PassCommand::Draw {
                vertices: DrawRange { start: 0, end: batches[j].num_vertices },
                instances: DrawRange { start: 0, end: 1 },
            })
        }
}

proof fn lemma_draws_one_after_the_other(
    a: Seq<PassCommand>,
    b: Seq<PassCommand>,
    first: Seq<MeshElementBatch>,
    second: Seq<MeshElementBatch>,
)
    requires
        draws_each_whole(a, first),
        draws_each_whole(b, second),
    ensures
        draws_each_whole(a + b, first + second),
{
    let commands = a + b;
    let batches = first + second;
    assert forall|j: int| 0 <= j < batches.len() implies {
        &&& commands[2 * j] == (PassCommand::SetBindGroup {
            index: 1,
            bind_group: (#[trigger] batches[j]).bind_group,
        })
        &&& commands[2 * j + 1] == (PassCommand::Draw {
            vertices: DrawRange { start: 0, end: batches[j].num_vertices },
            instances: DrawRange { start: 0, end: 1 },
        })
    } by {
        if j < first.len() {
            assert(batches[j] == first[j]);
        } else {
            assert(batches[j] == second[j - first.len()]);
            assert(commands[2 * j] == b[2 * (j - first.len())]);
            assert(commands[2 * j + 1] == b[2 * (j - first.len()) + 1]);
        }
    }
}

/// The batches that have vertices are drawn whole, in their order, and no others.
pub proof fn law_batches_are_drawn_whole(batches: Seq<MeshElementBatch>)
    ensures
        draws_each_whole(
            batches_commands(batches),
            batches.filter(|batch: MeshElementBatch| batch.num_vertices != 0),
        ),
    decreases batches.len(),
{
    reveal(Seq::filter);
    if batches.len() > 0 {
        let has_vertices = |batch: MeshElementBatch| batch.num_vertices != 0;
        let before = batches.drop_last();
        let last = batches.last();
        law_batches_are_drawn_whole(before);
        let drawn: Seq<MeshElementBatch> = if last.num_vertices != 0 {
            seq![last]
        } else {
            Seq::empty()
        };
        assert(draws_each_whole(batch_commands(last), drawn));
        lemma_draws_one_after_the_other(
            batches_commands(before),
            batch_commands(last),
            before.filter(has_vertices),
            drawn,
        );
        assert(batches.filter(has_vertices) =~= before.filter(has_vertices) + drawn);
    }
}

proof fn lemma_instructions_are_drawn_whole(instructions: Seq<DrawInstruction<'_>>)
    ensures
        draws_each_whole(instructions_commands(instructions), batches_to_draw(instructions)),
    decreases instructions.len(),
{
    reveal(Seq::filter);
    let data = |instruction: DrawInstruction<'_>| instruction.draw_data@;
    let has_vertices = |batch: MeshElementBatch| batch.num_vertices != 0;
    let lists = instructions.map_values(data);
    if instructions.len() > 0 {
        let before = instructions.drop_last();
        let last = instructions.last().draw_data@;
        lemma_instructions_are_drawn_whole(before);
        law_batches_are_drawn_whole(last);
        lemma_draws_one_after_the_other(
            instructions_commands(before),
            batches_commands(last),
            batches_to_draw(before),
            last.filter(has_vertices),
        );
        assert(lists =~= before.map_values(data).push(last));
        before.map_values(data).lemma_flatten_push(last);
        Seq::<MeshElementBatch>::filter_distributes_over_add(
            before.map_values(data).flatten(),
            last,
            has_vertices,
        );
    } else {
        assert(lists.flatten() =~= Seq::empty());
    }
}

/// A phase is drawn if its pipeline is available: the picking pipeline for
/// picking, the color pipeline for any other. The pipeline is set, then each
/// batch that has vertices is drawn whole, in the order of the instructions and
/// of their batches. If it is not available, it is the error, and nothing is
/// drawn.
pub proof fn law_a_phase_draws_each_batch_whole(
    renderer: MeshElementRenderer,
    pipelines: GpuRenderPipelinePoolAccessor,
    phase: DrawPhase,
    instructions: Seq<DrawInstruction<'_>>,
)
    ensures
        ({
            let (result, commands) = renderer.drawn(pipelines, phase, instructions);
            let pipeline = if phase is PickingLayer {
                renderer.picking_pipeline
            } else {
                renderer.render_pipeline
            };
            let ready = pipelines.available@.contains(pipeline);
            &&& ready <==> result is Ok
            &&& ready ==> {
                &&& commands.len() > 0
                &&& commands[0] == PassCommand::SetPipeline(pipeline)
                &&& draws_each_whole(
                    commands.subrange(1, commands.len() as int),
                    batches_to_draw(instructions),
                )
            }
            &&& !ready ==> {
                &&& result == Err::<(), DrawError>(DrawError::Pool(PoolError { pipeline }))
                &&& commands.len() == 0
            }
        }),
{
    lemma_instructions_are_drawn_whole(instructions);
    let commands = renderer.drawn(pipelines, phase, instructions).1;
    if renderer.drawn(pipelines, phase, instructions).0 is Ok {
        assert(commands.subrange(1, commands.len() as int) =~= instructions_commands(
            instructions,
        ));
    }
}

} // verus!
