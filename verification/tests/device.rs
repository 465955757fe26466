//! Serves the requests on a device that validates everything and draws nothing.

use std::num::NonZeroU64;
use std::sync::Arc;

use re_renderer::bytes::{ByteOrder, FloatBits};
use re_renderer::commands::{CommandEncoder, GpuRenderPipelinePoolAccessor, PassCommand, RenderPass};
use re_renderer::gpu_types as gpu;
use re_renderer::handles::{BindGroupEntry, GpuBindGroupLayoutHandle, GpuBufferHandle};
use re_renderer::mesh_element_renderer::{
    BufferRange, DrawInstruction, DrawPhase, GpuMesh, MeshElementDrawData, MeshElementRenderer,
    MeshElementStyle,
};
use re_renderer::occlusion::{OcclusionCamera, OcclusionConfig, OcclusionMethod, OcclusionProcessor};
use re_renderer::resources::{FrameTargets, Label, RenderContext, Request, ShaderModule};

fn bits(value: f32) -> FloatBits {
    FloatBits { bits: value.to_bits() }
}

/// The byte order of this machine.
fn native_order() -> ByteOrder {
    if 1u32.to_ne_bytes()[0] == 1 {
        ByteOrder::Little
    } else {
        ByteOrder::Big
    }
}

fn targets() -> FrameTargets {
    FrameTargets {
        main_color_format: gpu::TextureFormat::Rgba16Float,
        main_depth_format: gpu::TextureFormat::Depth32Float,
        main_depth_load: gpu::DepthLoadOp::Clear(bits(0.0)),
        main_multisample: gpu::MultisampleState {
            count: 4,
            mask: u64::MAX,
            alpha_to_coverage_enabled: false,
        },
        picking_format: gpu::TextureFormat::Rgba32Uint,
        picking_depth: Some(gpu::DepthStencilState {
            format: gpu::TextureFormat::Depth32Float,
            depth_write_enabled: Some(true),
            depth_compare: Some(gpu::CompareFunction::GreaterEqual),
        }),
        picking_multisample: gpu::MultisampleState {
            count: 1,
            mask: u64::MAX,
            alpha_to_coverage_enabled: false,
        },
    }
}

fn config(method: OcclusionMethod) -> OcclusionConfig {
    OcclusionConfig {
        method,
        world_radius: bits(1.0),
        pixel_radius_range: [bits(2.0), bits(64.0)],
        strength: bits(1.0),
    }
}

fn camera(projection_from_view: glam::Mat4, resolution_in_pixel: [u32; 2]) -> OcclusionCamera {
    let width = resolution_in_pixel[0] as f32;
    let height = resolution_in_pixel[1] as f32;
    OcclusionCamera {
        view_from_projection: projection_from_view.inverse().to_cols_array().map(bits),
        projection_z_axis_w: bits(projection_from_view.z_axis.w),
        pixels_per_world_unit: bits(projection_from_view.y_axis.y * 0.5 * height),
        framebuffer_resolution: [bits(width), bits(height)],
    }
}

fn methods() -> [OcclusionMethod; 2] {
    [
        OcclusionMethod::Disk { sample_count: 8 },
        OcclusionMethod::Horizon { slice_count: 2, steps_per_slice: 4 },
    ]
}

fn format(format: gpu::TextureFormat) -> wgpu::TextureFormat {
    match format {
        gpu::TextureFormat::R8Unorm => wgpu::TextureFormat::R8Unorm,
        gpu::TextureFormat::Rgba8Unorm => wgpu::TextureFormat::Rgba8Unorm,
        gpu::TextureFormat::Rgba16Float => wgpu::TextureFormat::Rgba16Float,
        gpu::TextureFormat::Rgba32Uint => wgpu::TextureFormat::Rgba32Uint,
        gpu::TextureFormat::Depth24Plus => wgpu::TextureFormat::Depth24Plus,
        gpu::TextureFormat::Depth32Float => wgpu::TextureFormat::Depth32Float,
    }
}

fn usages(usage: gpu::TextureUsages) -> wgpu::TextureUsages {
    let mut usages = wgpu::TextureUsages::empty();
    usages.set(wgpu::TextureUsages::TEXTURE_BINDING, usage.texture_binding);
    usages.set(wgpu::TextureUsages::RENDER_ATTACHMENT, usage.render_attachment);
    usages.set(wgpu::TextureUsages::COPY_SRC, usage.copy_src);
    usages
}

fn layout_entry(entry: &gpu::BindGroupLayoutEntry) -> wgpu::BindGroupLayoutEntry {
    wgpu::BindGroupLayoutEntry {
        binding: entry.binding,
        visibility: match entry.visibility {
            gpu::ShaderStage::Vertex => wgpu::ShaderStages::VERTEX,
            gpu::ShaderStage::Fragment => wgpu::ShaderStages::FRAGMENT,
        },
        ty: match entry.ty {
            gpu::BindingType::Texture { sample_type, multisampled } => wgpu::BindingType::Texture {
                sample_type: match sample_type {
                    gpu::TextureSampleType::Depth => wgpu::TextureSampleType::Depth,
                    gpu::TextureSampleType::Float { filterable } => {
                        wgpu::TextureSampleType::Float { filterable }
                    }
                },
                view_dimension: wgpu::TextureViewDimension::D2,
                multisampled,
            },
            gpu::BindingType::Buffer { ty, has_dynamic_offset, min_binding_size } => {
                wgpu::BindingType::Buffer {
                    ty: match ty {
                        gpu::BufferBindingType::Uniform => wgpu::BufferBindingType::Uniform,
                        gpu::BufferBindingType::Storage { read_only } => {
                            wgpu::BufferBindingType::Storage { read_only }
                        }
                    },
                    has_dynamic_offset,
                    min_binding_size: min_binding_size.and_then(NonZeroU64::new),
                }
            }
        },
        count: None,
    }
}

fn depth_state(state: gpu::DepthStencilState) -> wgpu::DepthStencilState {
    let compare = |function| match function {
        gpu::CompareFunction::Never => wgpu::CompareFunction::Never,
        gpu::CompareFunction::Less => wgpu::CompareFunction::Less,
        gpu::CompareFunction::Equal => wgpu::CompareFunction::Equal,
        gpu::CompareFunction::LessEqual => wgpu::CompareFunction::LessEqual,
        gpu::CompareFunction::Greater => wgpu::CompareFunction::Greater,
        gpu::CompareFunction::NotEqual => wgpu::CompareFunction::NotEqual,
        gpu::CompareFunction::GreaterEqual => wgpu::CompareFunction::GreaterEqual,
        gpu::CompareFunction::Always => wgpu::CompareFunction::Always,
    };
    wgpu::DepthStencilState {
        format: format(state.format),
        depth_write_enabled: state.depth_write_enabled,
        depth_compare: state.depth_compare.map(compare),
        stencil: wgpu::StencilState::default(),
        bias: wgpu::DepthBiasState::default(),
    }
}

/// Shaders that bind and write what the real ones do.
fn shader_source(module: ShaderModule) -> String {
    let uniform = "struct U { data: array<vec4<f32>, 16> }\n";
    let horizon_out = "struct Out { @location(0) ao: f32, @location(1) bent: vec4<f32> }\n";
    match module {
        ShaderModule::ScreenTriangle => "@vertex fn main(@builtin(vertex_index) i: u32)
            -> @builtin(position) vec4<f32> {
                return vec4<f32>(f32(i), 0.0, 0.0, 1.0);
            }"
        .to_owned(),
        ShaderModule::OcclusionEstimate => format!(
            "{uniform}
            @group(0) @binding(0) var depth: texture_depth_2d;
            @group(0) @binding(1) var normal: texture_2d<f32>;
            @group(0) @binding(2) var<uniform> u: U;
            @fragment fn main() -> @location(0) f32 {{
                let c = vec2<i32>(0, 0);
                return textureLoad(depth, c, 0) + textureLoad(normal, c, 0).x + u.data[0].x;
            }}"
        ),
        ShaderModule::OcclusionHorizon => format!(
            "{uniform}{horizon_out}
            @group(0) @binding(0) var depth: texture_depth_2d;
            @group(0) @binding(1) var normal: texture_2d<f32>;
            @group(0) @binding(2) var<uniform> u: U;
            @fragment fn main() -> Out {{
                let c = vec2<i32>(0, 0);
                return Out(textureLoad(depth, c, 0), textureLoad(normal, c, 0) + u.data[0]);
            }}"
        ),
        ShaderModule::OcclusionBlur => format!(
            "{uniform}{horizon_out}
            @group(0) @binding(0) var raw: texture_2d<f32>;
            @group(0) @binding(1) var depth: texture_depth_2d;
            @group(0) @binding(2) var<uniform> u: U;
            @group(0) @binding(3) var normal: texture_2d<f32>;
            @group(0) @binding(4) var bent: texture_2d<f32>;
            fn blur() -> f32 {{
                let c = vec2<i32>(0, 0);
                return textureLoad(raw, c, 0).x + textureLoad(depth, c, 0)
                    + textureLoad(normal, c, 0).x + u.data[0].x;
            }}
            @fragment fn main() -> @location(0) f32 {{ return blur(); }}
            @fragment fn main_with_bent_normal() -> Out {{
                return Out(blur(), textureLoad(bent, vec2<i32>(0, 0), 0));
            }}"
        ),
        ShaderModule::MeshElements => "
            struct Style {
                edge: vec4<f32>, hover: vec4<f32>,
                edge_width: f32, hover_width: f32, radius: f32, hovered: u32,
            }
            @group(1) @binding(0) var<storage> indices: array<u32>;
            @group(1) @binding(1) var<storage> positions: array<f32>;
            @group(1) @binding(2) var<storage> edge_ids: array<u32>;
            @group(1) @binding(3) var<storage> topology_ids: array<u32>;
            @group(1) @binding(4) var<uniform> style: Style;
            @vertex fn vs_main(@builtin(vertex_index) i: u32) -> @builtin(position) vec4<f32> {
                let id = indices[i] + edge_ids[i] + topology_ids[i];
                return vec4<f32>(positions[id], 0.0, 0.0, 1.0);
            }
            @fragment fn fs_main() -> @location(0) vec4<f32> { return style.edge; }
            @fragment fn fs_main_picking_layer() -> @location(0) vec4<u32> {
                return vec4<u32>(style.hovered);
            }"
        .to_owned(),
    }
}

enum Served {
    Texture(wgpu::TextureView),
    Buffer(wgpu::Buffer),
    Nothing,
    BindGroupLayout(wgpu::BindGroupLayout),
    BindGroup(wgpu::BindGroup),
    PipelineLayout(wgpu::PipelineLayout),
    ShaderModule(wgpu::ShaderModule),
    RenderPipeline(wgpu::RenderPipeline),
}

struct Server {
    device: wgpu::Device,
    queue: wgpu::Queue,
    global_layout: wgpu::BindGroupLayout,
    /// Buffers that were there before.
    resident: Vec<wgpu::Buffer>,
    served: Vec<Served>,
}

impl Server {
    fn new() -> Self {
        let (device, queue) = wgpu::Device::noop(&wgpu::DeviceDescriptor::default());
        let global_layout = device.create_bind_group_layout(&wgpu::BindGroupLayoutDescriptor {
            label: None,
            entries: &[],
        });
        let resident = (0..2)
            .map(|_| {
                device.create_buffer(&wgpu::BufferDescriptor {
                    label: None,
                    size: 4096,
                    usage: wgpu::BufferUsages::STORAGE,
                    mapped_at_creation: false,
                })
            })
            .collect();
        Self { device, queue, global_layout, resident, served: Vec::new() }
    }

    fn texture(&self, index: usize) -> &wgpu::TextureView {
        match &self.served[index] {
            Served::Texture(view) => view,
            _ => panic!("{index} is no texture"),
        }
    }

    fn buffer(&self, handle: GpuBufferHandle) -> &wgpu::Buffer {
        match handle {
            GpuBufferHandle::Resident(id) => &self.resident[id as usize],
            GpuBufferHandle::Requested(index) => match &self.served[index] {
                Served::Buffer(buffer) => buffer,
                _ => panic!("{index} is no buffer"),
            },
        }
    }

    fn layout(&self, handle: GpuBindGroupLayoutHandle) -> &wgpu::BindGroupLayout {
        match handle {
            GpuBindGroupLayoutHandle::Global => &self.global_layout,
            GpuBindGroupLayoutHandle::Requested(index) => match &self.served[index] {
                Served::BindGroupLayout(layout) => layout,
                _ => panic!("{index} is no bind group layout"),
            },
        }
    }

    fn shader(&self, index: usize) -> &wgpu::ShaderModule {
        match &self.served[index] {
            Served::ShaderModule(module) => module,
            _ => panic!("{index} is no shader module"),
        }
    }

    fn serve(&mut self, request: &Request) {
        let served = match request {
            Request::Texture(desc) => {
                assert_eq!(desc.dimension, gpu::TextureDimension::D2);
                let texture = self.device.create_texture(&wgpu::TextureDescriptor {
                    label: Some(&desc.label.text),
                    size: wgpu::Extent3d {
                        width: desc.size.width,
                        height: desc.size.height,
                        depth_or_array_layers: desc.size.depth_or_array_layers,
                    },
                    mip_level_count: desc.mip_level_count,
                    sample_count: desc.sample_count,
                    dimension: wgpu::TextureDimension::D2,
                    format: format(desc.format),
                    usage: usages(desc.usage),
                    view_formats: &[],
                });
                Served::Texture(texture.create_view(&wgpu::TextureViewDescriptor::default()))
            }
            Request::UniformBuffer { label, contents } => {
                let buffer = self.device.create_buffer(&wgpu::BufferDescriptor {
                    label: Some(&label.text),
                    size: contents.len() as u64,
                    usage: wgpu::BufferUsages::UNIFORM | wgpu::BufferUsages::COPY_DST,
                    mapped_at_creation: false,
                });
                self.queue.write_buffer(&buffer, 0, contents);
                Served::Buffer(buffer)
            }
            Request::Buffer(desc) => {
                let mut usage = wgpu::BufferUsages::empty();
                usage.set(wgpu::BufferUsages::UNIFORM, desc.usage.uniform);
                usage.set(wgpu::BufferUsages::STORAGE, desc.usage.storage);
                usage.set(wgpu::BufferUsages::COPY_DST, desc.usage.copy_dst);
                Served::Buffer(self.device.create_buffer(&wgpu::BufferDescriptor {
                    label: Some(&desc.label.text),
                    size: desc.size,
                    usage,
                    mapped_at_creation: desc.mapped_at_creation,
                }))
            }
            Request::BufferWrite { buffer, offset, contents } => {
                self.queue.write_buffer(self.buffer(*buffer), *offset, contents);
                Served::Nothing
            }
            Request::BindGroupLayout(desc) => {
                let entries: Vec<_> = desc.entries.iter().map(layout_entry).collect();
                Served::BindGroupLayout(self.device.create_bind_group_layout(
                    &wgpu::BindGroupLayoutDescriptor {
                        label: Some(&desc.label.text),
                        entries: &entries,
                    },
                ))
            }
            Request::BindGroup(desc) => {
                let entries: Vec<_> = desc
                    .entries
                    .as_slice()
                    .iter()
                    .enumerate()
                    .map(|(place, entry)| wgpu::BindGroupEntry {
                        binding: place as u32,
                        resource: match entry {
                            BindGroupEntry::DefaultTextureView(handle) => {
                                wgpu::BindingResource::TextureView(self.texture(handle.index))
                            }
                            BindGroupEntry::Uniform(handle) => self
                                .buffer(GpuBufferHandle::Requested(handle.index))
                                .as_entire_binding(),
                            BindGroupEntry::Buffer { handle, offset, size } => {
                                wgpu::BindingResource::Buffer(wgpu::BufferBinding {
                                    buffer: self.buffer(*handle),
                                    offset: *offset,
                                    size: size.and_then(NonZeroU64::new),
                                })
                            }
                        },
                    })
                    .collect();
                Served::BindGroup(self.device.create_bind_group(&wgpu::BindGroupDescriptor {
                    label: Some(&desc.label.text),
                    layout: self.layout(desc.layout),
                    entries: &entries,
                }))
            }
            Request::PipelineLayout(desc) => {
                let layouts: Vec<_> =
                    desc.entries.iter().map(|handle| Some(self.layout(*handle))).collect();
                Served::PipelineLayout(self.device.create_pipeline_layout(
                    &wgpu::PipelineLayoutDescriptor {
                        label: Some(&desc.label.text),
                        bind_group_layouts: &layouts,
                        immediate_size: 0,
                    },
                ))
            }
            Request::ShaderModule(module) => {
                Served::ShaderModule(self.device.create_shader_module(
                    wgpu::ShaderModuleDescriptor {
                        label: None,
                        source: wgpu::ShaderSource::Wgsl(shader_source(*module).into()),
                    },
                ))
            }
            Request::RenderPipeline(desc) => {
                assert_eq!(desc.primitive.topology, gpu::PrimitiveTopology::TriangleList);
                assert_eq!(desc.primitive.cull_mode, None);
                let layout = match &self.served[desc.pipeline_layout.index] {
                    Served::PipelineLayout(layout) => layout,
                    _ => panic!("no pipeline layout"),
                };
                let targets: Vec<_> = desc
                    .render_targets
                    .as_slice()
                    .iter()
                    .map(|target| {
                        target.map(|target| wgpu::ColorTargetState {
                            format: format(target.format),
                            blend: target.blend.map(|blend| match blend {
                                gpu::BlendState::PremultipliedAlpha => {
                                    wgpu::BlendState::PREMULTIPLIED_ALPHA_BLENDING
                                }
                            }),
                            write_mask: wgpu::ColorWrites::ALL,
                        })
                    })
                    .collect();
                Served::RenderPipeline(self.device.create_render_pipeline(
                    &wgpu::RenderPipelineDescriptor {
                        label: Some(&desc.label.text),
                        layout: Some(layout),
                        vertex: wgpu::VertexState {
                            module: self.shader(desc.vertex_handle.index),
                            entry_point: Some(&desc.vertex_entrypoint),
                            compilation_options: wgpu::PipelineCompilationOptions::default(),
                            buffers: &[],
                        },
                        primitive: wgpu::PrimitiveState::default(),
                        depth_stencil: desc.depth_stencil.map(depth_state),
                        multisample: wgpu::MultisampleState {
                            count: desc.multisample.count,
                            mask: desc.multisample.mask,
                            alpha_to_coverage_enabled: desc.multisample.alpha_to_coverage_enabled,
                        },
                        fragment: Some(wgpu::FragmentState {
                            module: self.shader(desc.fragment_handle.index),
                            entry_point: Some(&desc.fragment_entrypoint),
                            compilation_options: wgpu::PipelineCompilationOptions::default(),
                            targets: &targets,
                        }),
                        multiview_mask: None,
                        cache: None,
                    },
                ))
            }
        };
        self.served.push(served);
    }

    fn serve_all(&mut self, ctx: &RenderContext) {
        for request in &ctx.requests()[self.served.len()..] {
            self.serve(request);
        }
    }

    fn replay(&self, encoder: &mut wgpu::CommandEncoder, pass: &RenderPass) {
        let desc = pass.desc();
        let attachments: Vec<_> = desc
            .color_attachments
            .as_slice()
            .iter()
            .map(|attachment| {
                attachment.map(|attachment| wgpu::RenderPassColorAttachment {
                    view: self.texture(attachment.view.index),
                    depth_slice: None,
                    resolve_target: None,
                    ops: wgpu::Operations {
                        load: wgpu::LoadOp::Clear(match attachment.clear {
                            gpu::ClearColor::White => wgpu::Color::WHITE,
                            gpu::ClearColor::Transparent => wgpu::Color::TRANSPARENT,
                        }),
                        store: wgpu::StoreOp::Store,
                    },
                })
            })
            .collect();
        let mut recorded = encoder.begin_render_pass(&wgpu::RenderPassDescriptor {
            label: Some(&desc.label.text),
            color_attachments: &attachments,
            depth_stencil_attachment: desc.depth_attachment.map(|depth| {
                wgpu::RenderPassDepthStencilAttachment {
                    view: self.texture(depth.view.index),
                    depth_ops: Some(wgpu::Operations {
                        load: match depth.load {
                            gpu::DepthLoadOp::Clear(value) => {
                                wgpu::LoadOp::Clear(f32::from_bits(value.bits))
                            }
                            gpu::DepthLoadOp::Load => wgpu::LoadOp::Load,
                        },
                        store: wgpu::StoreOp::Store,
                    }),
                    stencil_ops: None,
                }
            }),
            timestamp_writes: None,
            occlusion_query_set: None,
            multiview_mask: None,
        });
        for command in pass.commands() {
            match command {
                PassCommand::SetPipeline(pipeline) => match &self.served[pipeline.index] {
                    Served::RenderPipeline(pipeline) => recorded.set_pipeline(pipeline),
                    _ => panic!("no pipeline"),
                },
                PassCommand::SetBindGroup { index, bind_group } => {
                    match &self.served[bind_group.index] {
                        Served::BindGroup(group) => recorded.set_bind_group(*index, group, &[]),
                        _ => panic!("no bind group"),
                    }
                }
                PassCommand::Draw { vertices, instances } => {
                    recorded.draw(vertices.start..vertices.end, instances.start..instances.end);
                }
            }
        }
    }

    /// Every pipeline that has been served.
    fn pipelines(&self) -> GpuRenderPipelinePoolAccessor {
        GpuRenderPipelinePoolAccessor {
            available: self
                .served
                .iter()
                .enumerate()
                .filter(|(_, served)| matches!(served, Served::RenderPipeline(_)))
                .map(|(index, _)| re_renderer::handles::GpuRenderPipelineHandle { index })
                .collect(),
        }
    }
}

/// Both methods must build a valid blur bind group.
///
/// A bind group numbers its entries by position, so the layout's binding
/// numbers must run 0..n with no gap. A gap left by the horizon-only bent normal
/// would invalidate the disk method's blur.
#[test]
fn both_methods_build_valid_bind_groups() {
    for method in methods() {
        let mut server = Server::new();
        let scope = server.device.push_error_scope(wgpu::ErrorFilter::Validation);
        let mut ctx = RenderContext::new(targets(), native_order());
        let _processor = OcclusionProcessor::new(
            &mut ctx,
            &config(method),
            &Label::new("test"),
            [64, 64],
            &camera(glam::Mat4::IDENTITY, [64, 64]),
        );
        server.serve_all(&ctx);
        let error = pollster::block_on(scope.pop());
        assert!(error.is_none(), "{method:?}: {error:?}");
    }
}

#[test]
fn both_methods_draw_valid_passes() {
    for method in methods() {
        let mut server = Server::new();
        let scope = server.device.push_error_scope(wgpu::ErrorFilter::Validation);
        let mut ctx = RenderContext::new(targets(), native_order());
        let processor = OcclusionProcessor::new(
            &mut ctx,
            &config(method),
            &Label::new("test"),
            [64, 32],
            &camera(glam::Mat4::IDENTITY, [64, 32]),
        );
        server.serve_all(&ctx);

        let mut encoder = CommandEncoder::new();
        processor.begin_prepass(&mut encoder);
        processor.compute_occlusion(&server.pipelines(), &mut encoder).unwrap();
        assert_eq!(encoder.passes().len(), 3);

        let mut recorded =
            server.device.create_command_encoder(&wgpu::CommandEncoderDescriptor::default());
        for pass in encoder.passes() {
            server.replay(&mut recorded, pass);
        }
        server.queue.submit([recorded.finish()]);
        let error = pollster::block_on(scope.pop());
        assert!(error.is_none(), "{method:?}: {error:?}");
    }
}

#[test]
fn a_gap_in_the_bindings_is_not_valid() {
    let mut server = Server::new();
    let scope = server.device.push_error_scope(wgpu::ErrorFilter::Validation);
    let mut ctx = RenderContext::new(targets(), native_order());
    let _processor = OcclusionProcessor::new(
        &mut ctx,
        &config(OcclusionMethod::Disk { sample_count: 8 }),
        &Label::new("test"),
        [64, 64],
        &camera(glam::Mat4::IDENTITY, [64, 64]),
    );
    for request in ctx.requests() {
        if let Request::BindGroupLayout(desc) = request {
            let mut entries: Vec<_> = desc.entries.iter().map(layout_entry).collect();
            entries.last_mut().unwrap().binding += 1;
            server.served.push(Served::BindGroupLayout(server.device.create_bind_group_layout(
                &wgpu::BindGroupLayoutDescriptor { label: None, entries: &entries },
            )));
        } else {
            server.serve(request);
        }
    }
    assert!(pollster::block_on(scope.pop()).is_some());
}

#[test]
fn mesh_elements_build_valid_pipelines_and_bind_groups() {
    let mut server = Server::new();
    let scope = server.device.push_error_scope(wgpu::ErrorFilter::Validation);
    let mut ctx = RenderContext::new(targets(), native_order());
    let renderer = MeshElementRenderer::create_renderer(&mut ctx);
    let mesh = Arc::new(GpuMesh {
        index_buffer: GpuBufferHandle::Resident(0),
        index_buffer_range: BufferRange { start: 256, end: 256 + 2 * 12 },
        vertex_buffer_combined: GpuBufferHandle::Resident(1),
        vertex_buffer_positions_range: BufferRange { start: 0, end: 48 },
        vertex_buffer_edge_ids_range: BufferRange { start: 256, end: 272 },
        vertex_buffer_topology_ids_range: BufferRange { start: 512, end: 528 },
    });
    let style = MeshElementStyle {
        edge_color: [bits(1.0); 4],
        hover_color: [bits(0.5); 4],
        edge_half_width_px: bits(1.0),
        hover_half_width_px: bits(2.0),
        vertex_radius_px: bits(0.0),
        hover_element_id: 7,
    };
    let data = MeshElementDrawData::new(&mut ctx, &renderer, &[(mesh.clone(), style), (mesh, style)]);
    server.serve_all(&ctx);
    assert_eq!(data.batches().len(), 2);

    // Any pass of the picking layer's shape will do to draw into.
    let mut pass_ctx = RenderContext::new(targets(), native_order());
    let processor = OcclusionProcessor::new(
        &mut pass_ctx,
        &config(OcclusionMethod::Disk { sample_count: 1 }),
        &Label::new("test"),
        [4, 4],
        &camera(glam::Mat4::IDENTITY, [4, 4]),
    );
    let mut encoder = CommandEncoder::new();
    let pass = processor.begin_prepass(&mut encoder);
    renderer
        .draw(&server.pipelines(), DrawPhase::PickingLayer, pass, &[DrawInstruction { draw_data: &data }])
        .unwrap();
    assert_eq!(pass.commands().len(), 5);

    let error = pollster::block_on(scope.pop());
    assert!(error.is_none(), "{error:?}");
}
