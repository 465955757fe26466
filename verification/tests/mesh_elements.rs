use std::sync::Arc;

use re_renderer::bytes::{ByteOrder, FloatBits};
use re_renderer::commands::{
    CommandEncoder, DrawRange, GpuRenderPipelinePoolAccessor, PassCommand, PoolError,
    RenderPassDescriptor,
};
use re_renderer::gpu_types::{
    BindingType, BlendState, BufferBindingType, BufferUsages, ColorTargetState, ColorWrites,
    CompareFunction, DepthLoadOp, DepthStencilState, MultisampleState, PrimitiveTopology,
    ShaderStage, TextureFormat,
};
use re_renderer::handles::{
    BindGroupEntry, GpuBindGroup, GpuBindGroupLayoutHandle, GpuBufferHandle,
    GpuRenderPipelineHandle,
};
use re_renderer::inline_vec::ColorAttachments;
use re_renderer::mesh_element_renderer::{
    storage_entry, BufferRange, DrawError, DrawInstruction, DrawPhase, DrawableCollector, GpuMesh,
    MeshElementDrawData, MeshElementRenderer, MeshElementStyle,
};
use re_renderer::resources::{FrameTargets, Label, RenderContext, Request, ShaderModule};

fn raw(bits: u32) -> FloatBits {
    FloatBits { bits }
}

const MAIN_MSAA: MultisampleState =
    MultisampleState { count: 4, mask: u64::MAX, alpha_to_coverage_enabled: true };
const PICKING_MSAA: MultisampleState =
    MultisampleState { count: 1, mask: u64::MAX, alpha_to_coverage_enabled: false };
const PICKING_DEPTH: DepthStencilState = DepthStencilState {
    format: TextureFormat::Depth24Plus,
    depth_write_enabled: Some(true),
    depth_compare: Some(CompareFunction::Greater),
};

/// The byte order of this machine.
fn native_order() -> ByteOrder {
    if 1u32.to_ne_bytes()[0] == 1 {
        ByteOrder::Little
    } else {
        ByteOrder::Big
    }
}

fn context() -> RenderContext {
    context_of(native_order())
}

fn context_of(byte_order: ByteOrder) -> RenderContext {
    let targets = FrameTargets {
        main_color_format: TextureFormat::Rgba16Float,
        main_depth_format: TextureFormat::Depth32Float,
        main_depth_load: DepthLoadOp::Load,
        main_multisample: MAIN_MSAA,
        picking_format: TextureFormat::Rgba32Uint,
        picking_depth: Some(PICKING_DEPTH),
        picking_multisample: PICKING_MSAA,
    };
    RenderContext::new(targets, byte_order)
}

fn mesh(indices: BufferRange) -> Arc<GpuMesh> {
    Arc::new(GpuMesh {
        index_buffer: GpuBufferHandle::Resident(10),
        index_buffer_range: indices,
        vertex_buffer_combined: GpuBufferHandle::Resident(20),
        vertex_buffer_positions_range: BufferRange { start: 0, end: 120 },
        vertex_buffer_edge_ids_range: BufferRange { start: 256, end: 296 },
        vertex_buffer_topology_ids_range: BufferRange { start: 512, end: 512 },
    })
}

fn style(hover_element_id: u32) -> MeshElementStyle {
    MeshElementStyle {
        edge_color: [raw(1), raw(2), raw(3), raw(4)],
        hover_color: [raw(5), raw(6), raw(7), raw(8)],
        edge_half_width_px: raw(9),
        hover_half_width_px: raw(10),
        vertex_radius_px: raw(11),
        hover_element_id,
    }
}

fn triangles(count: u64) -> BufferRange {
    BufferRange { start: 64, end: 64 + 12 * count }
}

fn handle(index: usize) -> GpuRenderPipelineHandle {
    GpuRenderPipelineHandle { index }
}

#[test]
fn a_renderer_asks_for_two_pipelines_over_one_layout() {
    let mut ctx = context();
    let renderer = MeshElementRenderer::create_renderer(&mut ctx);
    assert_eq!(renderer.bind_group_layout, GpuBindGroupLayoutHandle::Requested(0));
    assert_eq!(renderer.render_pipeline, handle(3));
    assert_eq!(renderer.picking_pipeline, handle(4));

    let [Request::BindGroupLayout(layout), Request::ShaderModule(module), Request::PipelineLayout(pipeline_layout), Request::RenderPipeline(color), Request::RenderPipeline(picking)] =
        ctx.requests().as_slice()
    else {
        panic!("five requests")
    };
    assert_eq!(layout.label.text, "MeshElementRenderer::bind_group_layout");
    for binding in 0..4 {
        let entry = layout.entries[binding as usize];
        assert_eq!(entry, storage_entry(binding));
        assert_eq!(entry.binding, binding);
        assert_eq!(entry.visibility, ShaderStage::Vertex);
        assert_eq!(
            entry.ty,
            BindingType::Buffer {
                ty: BufferBindingType::Storage { read_only: true },
                has_dynamic_offset: false,
                min_binding_size: None,
            }
        );
    }
    assert_eq!(layout.entries.len(), 5);
    assert_eq!(layout.entries[4].binding, 4);
    assert_eq!(layout.entries[4].visibility, ShaderStage::Fragment);
    assert_eq!(
        layout.entries[4].ty,
        BindingType::Buffer {
            ty: BufferBindingType::Uniform,
            has_dynamic_offset: false,
            min_binding_size: Some(48),
        }
    );
    assert_eq!(*module, ShaderModule::MeshElements);
    assert_eq!(pipeline_layout.label.text, "MeshElementRenderer");
    assert_eq!(
        pipeline_layout.entries,
        [GpuBindGroupLayoutHandle::Global, GpuBindGroupLayoutHandle::Requested(0)]
    );

    assert_eq!(color.label.text, "MeshElementRenderer::render_pipeline");
    assert_eq!(color.fragment_entrypoint, "fs_main");
    assert_eq!(
        color.render_targets.as_slice(),
        [Some(ColorTargetState {
            format: TextureFormat::Rgba16Float,
            blend: Some(BlendState::PremultipliedAlpha),
            write_mask: ColorWrites::All,
        })]
    );
    assert_eq!(
        color.depth_stencil,
        Some(DepthStencilState {
            format: TextureFormat::Depth32Float,
            depth_write_enabled: Some(false),
            depth_compare: Some(CompareFunction::GreaterEqual),
        })
    );
    assert_eq!(color.multisample, MAIN_MSAA);

    assert_eq!(picking.label.text, "MeshElementRenderer::picking_pipeline");
    assert_eq!(picking.fragment_entrypoint, "fs_main_picking_layer");
    assert_eq!(
        picking.render_targets.as_slice(),
        [Some(ColorTargetState {
            format: TextureFormat::Rgba32Uint,
            blend: None,
            write_mask: ColorWrites::All,
        })]
    );
    assert_eq!(picking.depth_stencil, Some(PICKING_DEPTH));
    assert_eq!(picking.multisample, PICKING_MSAA);

    for pipeline in [color, picking] {
        assert_eq!(pipeline.pipeline_layout.index, 2);
        assert_eq!(pipeline.vertex_entrypoint, "vs_main");
        assert_eq!(pipeline.vertex_handle.index, 1);
        assert_eq!(pipeline.fragment_handle.index, 1);
        assert_eq!(pipeline.primitive.topology, PrimitiveTopology::TriangleList);
        assert_eq!(pipeline.primitive.cull_mode, None);
    }
}

#[test]
fn a_mesh_binds_its_ranges_and_its_style() {
    let mut ctx = context();
    let renderer = MeshElementRenderer::create_renderer(&mut ctx);
    let data = MeshElementDrawData::new(
        &mut ctx,
        &renderer,
        &[(mesh(triangles(5)), style(0)), (mesh(triangles(2)), style(77))],
    );
    assert_eq!(ctx.requests().len(), 5 + 2 * 3);
    assert_eq!(data.batches().len(), 2);
    assert_eq!(data.batches()[0].num_vertices, 15);
    assert_eq!(data.batches()[1].num_vertices, 6);

    for (i, (end, hover)) in [(64 + 60, 0), (64 + 24, 77)].into_iter().enumerate() {
        let base = 5 + 3 * i;
        assert_eq!(data.batches()[i].bind_group, GpuBindGroup { index: base + 2 });
        let Request::Buffer(buffer) = &ctx.requests()[base] else { panic!("a buffer") };
        assert_eq!(buffer.label.text, "MeshElementDrawData::style");
        assert_eq!(buffer.size, 48);
        assert_eq!(buffer.usage, BufferUsages { uniform: true, storage: false, copy_dst: true });
        assert!(!buffer.mapped_at_creation);

        let Request::BufferWrite { buffer, offset, contents } = &ctx.requests()[base + 1] else {
            panic!("a write")
        };
        assert_eq!(*buffer, GpuBufferHandle::Requested(base));
        assert_eq!(*offset, 0);
        let words: Vec<u32> = contents
            .chunks(4)
            .map(|word| u32::from_ne_bytes([word[0], word[1], word[2], word[3]]))
            .collect();
        assert_eq!(words, [1, 2, 3, 4, 5, 6, 7, 8, 9, 10, 11, hover]);

        let Request::BindGroup(group) = &ctx.requests()[base + 2] else { panic!("a group") };
        assert_eq!(group.label.text, "MeshElementDrawData::bind_group");
        assert_eq!(group.layout, renderer.bind_group_layout);
        let part = |handle, offset, size| BindGroupEntry::Buffer { handle, offset, size };
        assert_eq!(
            group.entries.as_slice(),
            [
                part(GpuBufferHandle::Resident(10), 64, Some(end - 64)),
                part(GpuBufferHandle::Resident(20), 0, Some(120)),
                part(GpuBufferHandle::Resident(20), 256, Some(40)),
                // An empty range has no size.
                part(GpuBufferHandle::Resident(20), 512, None),
                part(GpuBufferHandle::Requested(base), 0, Some(48)),
            ]
        );
    }
}

#[test]
fn hovering_changes_only_what_is_written_to_the_style() {
    let contents = |id| {
        let mut ctx = context();
        let renderer = MeshElementRenderer::create_renderer(&mut ctx);
        MeshElementDrawData::new(&mut ctx, &renderer, &[(mesh(triangles(1)), style(id))]);
        match &ctx.requests()[6] {
            Request::BufferWrite { contents, .. } => contents.clone(),
            _ => panic!("a write"),
        }
    };
    let (one, other) = (contents(0), contents(0xdead_beef));
    assert_eq!(one.len(), 48);
    assert_eq!(one[..44], other[..44]);
    assert_eq!(other[44..], 0xdead_beef_u32.to_ne_bytes());
}

#[test]
fn indices_are_counted_in_whole_words_and_32_bits() {
    let num_vertices = |start, end| {
        let mut ctx = context();
        let renderer = MeshElementRenderer::create_renderer(&mut ctx);
        let range = BufferRange { start, end };
        MeshElementDrawData::new(&mut ctx, &renderer, &[(mesh(range), style(0))]).batches()[0]
            .num_vertices
    };
    assert_eq!(num_vertices(0, 12), 3);
    assert_eq!(num_vertices(100, 100), 0);
    assert_eq!(num_vertices(0, 15), 3);
    assert_eq!(num_vertices(0, 4 * 0xffff_ffff), 0xffff_ffff);
    assert_eq!(num_vertices(0, 4 * 0x1_0000_0000), 0);
    assert_eq!(num_vertices(0, 4 * 0x1_0000_0005), 5);
    assert_eq!(num_vertices(0, u64::MAX), 0xffff_ffff);
}

#[test]
fn elements_are_drawn_transparent_and_for_picking() {
    let mut ctx = context();
    let renderer = MeshElementRenderer::create_renderer(&mut ctx);
    let mut collector = DrawableCollector { drawables: Vec::new() };

    let none = MeshElementDrawData::new(&mut ctx, &renderer, &[]);
    assert_eq!(ctx.requests().len(), 5);
    none.collect_drawables(&mut collector);
    assert!(collector.drawables.is_empty());

    let some = MeshElementDrawData::new(&mut ctx, &renderer, &[(mesh(triangles(1)), style(0))]);
    some.clone().collect_drawables(&mut collector);
    let phases: Vec<_> = collector.drawables.iter().map(|(phase, _)| *phase).collect();
    assert_eq!(phases, [DrawPhase::Transparent, DrawPhase::PickingLayer]);
    for (_, drawable) in &collector.drawables {
        assert_eq!(f32::from_bits(drawable.distance_sort_key.bits), 0.0);
        assert_eq!(f32::from_bits(drawable.secondary_sort_key.bits), 0.0);
        assert_eq!(drawable.draw_data_payload, 0);
    }
}

fn empty_pass() -> RenderPassDescriptor {
    RenderPassDescriptor {
        label: Label::new("pass"),
        color_attachments: ColorAttachments::new(),
        depth_attachment: None,
    }
}

#[test]
fn each_mesh_with_vertices_is_one_draw() {
    let mut ctx = context();
    let renderer = MeshElementRenderer::create_renderer(&mut ctx);
    let first = MeshElementDrawData::new(
        &mut ctx,
        &renderer,
        &[
            (mesh(triangles(4)), style(0)),
            (mesh(triangles(0)), style(0)),
            (mesh(triangles(1)), style(0)),
        ],
    );
    let second = MeshElementDrawData::new(&mut ctx, &renderer, &[(mesh(triangles(2)), style(0))]);
    let instructions =
        [DrawInstruction { draw_data: &first }, DrawInstruction { draw_data: &second }];
    let pipelines = GpuRenderPipelinePoolAccessor { available: vec![handle(4), handle(3)] };

    for (phase, pipeline) in [
        (DrawPhase::Transparent, 3),
        (DrawPhase::PickingLayer, 4),
        (DrawPhase::OcclusionPrepass, 3),
        (DrawPhase::Other(0), 3),
    ] {
        let mut encoder = CommandEncoder::new();
        let pass = encoder.begin_render_pass(empty_pass());
        assert_eq!(renderer.draw(&pipelines, phase, pass, &instructions), Ok(()));
        let mut expected = vec![PassCommand::SetPipeline(handle(pipeline))];
        for (group, vertices) in [(7, 12), (13, 3), (16, 6)] {
            expected.push(PassCommand::SetBindGroup {
                index: 1,
                bind_group: GpuBindGroup { index: group },
            });
            expected.push(PassCommand::Draw {
                vertices: DrawRange { start: 0, end: vertices },
                instances: DrawRange { start: 0, end: 1 },
            });
        }
        assert_eq!(*encoder.passes()[0].commands(), expected);
    }
}

#[test]
fn nothing_is_drawn_without_the_pipeline() {
    let mut ctx = context();
    let renderer = MeshElementRenderer::create_renderer(&mut ctx);
    let data = MeshElementDrawData::new(&mut ctx, &renderer, &[(mesh(triangles(1)), style(0))]);
    let instructions = [DrawInstruction { draw_data: &data }];
    let color_only = GpuRenderPipelinePoolAccessor { available: vec![handle(3)] };

    let mut encoder = CommandEncoder::new();
    let pass = encoder.begin_render_pass(empty_pass());
    assert_eq!(
        renderer.draw(&color_only, DrawPhase::PickingLayer, pass, &instructions),
        Err(DrawError::Pool(PoolError { pipeline: handle(4) }))
    );
    assert!(pass.commands().is_empty());
    assert_eq!(renderer.draw(&color_only, DrawPhase::Transparent, pass, &instructions), Ok(()));
    assert_eq!(pass.commands().len(), 3);
}

#[test]
fn a_clone_has_the_same_batches() {
    let mut ctx = context();
    let renderer = MeshElementRenderer::create_renderer(&mut ctx);
    let data = MeshElementDrawData::new(&mut ctx, &renderer, &[(mesh(triangles(2)), style(0))]);
    assert_eq!(data.clone().batches(), data.batches());
    assert_eq!(data.batches().len(), 1);
}

#[test]
fn hovering_one_mesh_leaves_the_others_as_they_are() {
    let asked = |hovered: u32| {
        let mut ctx = context();
        let renderer = MeshElementRenderer::create_renderer(&mut ctx);
        let meshes = [(mesh(triangles(2)), style(0)), (mesh(triangles(3)), style(hovered))];
        let data = MeshElementDrawData::new(&mut ctx, &renderer, &meshes);
        let mut written = Vec::new();
        let mut bound = Vec::new();
        for request in ctx.requests() {
            match request {
                Request::BufferWrite { contents, .. } => written.push(contents.clone()),
                Request::BindGroup(desc) => bound.push(desc.entries.as_slice().to_vec()),
                _ => {}
            }
        }
        (data.batches().clone(), bound, written)
    };
    let (batches, bound, written) = asked(0);
    let (hovered_batches, hovered_bound, hovered_written) = asked(77);
    assert_eq!(hovered_batches, batches);
    assert_eq!(hovered_bound, bound);
    assert_eq!(hovered_written[0], written[0]);
    assert_eq!(hovered_written[1][..44], written[1][..44]);
    assert_eq!(hovered_written[1][44..], 77u32.to_ne_bytes());
    assert_eq!(written[1][44..], 0u32.to_ne_bytes());
}

#[test]
fn a_style_is_written_in_the_order_of_the_context() {
    let written = |byte_order: ByteOrder| {
        let mut ctx = context_of(byte_order);
        let renderer = MeshElementRenderer::create_renderer(&mut ctx);
        let meshes = [(mesh(triangles(1)), style(0x0102_0304))];
        let _data = MeshElementDrawData::new(&mut ctx, &renderer, &meshes);
        assert_eq!(ctx.byte_order(), byte_order);
        match &ctx.requests()[6] {
            Request::BufferWrite { contents, .. } => contents.clone(),
            _ => panic!("the style is not written"),
        }
    };
    let little = written(ByteOrder::Little);
    assert_eq!(little[..8], [1, 0, 0, 0, 2, 0, 0, 0]);
    assert_eq!(little[44..], [4, 3, 2, 1]);
    let big = written(ByteOrder::Big);
    assert_eq!(big[..8], [0, 0, 0, 1, 0, 0, 0, 2]);
    assert_eq!(big[44..], [1, 2, 3, 4]);
    assert_eq!(little.len(), 48);
    assert_eq!(big.len(), 48);
}
