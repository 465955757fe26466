//! What holds of the occlusion passes of every view.
use vstd::prelude::*;

use vstd::std_specs::cmp::PartialEqSpec;

use crate::bytes::{
    law_floats_are_equal_as_numbers, lemma_all_words_read_back, word_at, words_to_bytes,
    ByteOrder,
};
use crate::commands::{
    GpuRenderPipelinePoolAccessor, PassCommand, RenderPassDescriptorView, RenderPassView,
};
use crate::gpu_types::{
    BindingType, BufferBindingType, ColorTargetState, ColorWrites, TextureFormat, TextureSampleType,
};
use crate::handles::{
    BindGroupEntry, GpuBindGroup, GpuBindGroupLayoutHandle, GpuRenderPipelineHandle, GpuTexture,
    GpuTextureHandle,
};
use crate::occlusion::{
    asked_for_processor, asking_processor, depth_entry, float_entry, occlusion_uniform,
    processor_at, texture_count, textures_at, uniform_entry, OcclusionCamera, OcclusionConfig, OcclusionMethod,
    OcclusionProcessor, OcclusionProcessorView,
};
use crate::resources::{
    all_fit, all_resolve, lemma_resolves_when_more_follow, request_fits, request_resolves,
    BindGroupLayoutDescView, RenderContextView, RenderPipelineDescView, RequestView, ShaderModule,
};
use crate::uniforms::law_words_of_the_occlusion_uniform;

verus! {

/// The place of the first request that is not for a texture.
spec fn bindings_base(ctx: RenderContextView, horizon: bool) -> int {
    ctx.requests.len() + texture_count(horizon)
}

/// Nothing that a processor asks for refers to what has not been asked for
/// before.
pub proof fn law_requests_can_be_served(
    ctx: RenderContextView,
    config: OcclusionConfig,
    view_name: Seq<char>,
    resolution: Seq<u32>,
    camera: OcclusionCamera,
)
    requires
        all_resolve(ctx.requests),
        ctx.requests.len() + texture_count(config.method is Horizon) + 11 <= usize::MAX,
    ensures
        all_resolve(
            asked_for_processor(ctx, config, view_name, resolution, camera).requests,
        ),
{
    let all = asked_for_processor(ctx, config, view_name, resolution, camera).requests;
    let more = all.subrange(ctx.requests.len() as int, all.len() as int);
    assert(all =~= ctx.requests + more);
    lemma_resolves_when_more_follow(ctx.requests, more);
    assert forall|i: int| 0 <= i < all.len() implies #[trigger] request_resolves(all, i) by {
        let horizon = config.method is Horizon;
        let bindings = bindings_base(ctx, horizon);
        if i < ctx.requests.len() {
            assert(request_resolves(ctx.requests, i));
        } else if i < bindings {
            assert(all[i] is Texture);
        }
    }
}

/// Both methods build bind groups that can be made: the bindings of each layout
/// are numbered from 0 on without a gap, and each entry is what the shader
/// expects at its place.
pub proof fn law_bind_groups_can_be_made(
    ctx: RenderContextView,
    config: OcclusionConfig,
    view_name: Seq<char>,
    resolution: Seq<u32>,
    camera: OcclusionCamera,
)
    requires
        all_resolve(ctx.requests),
        all_fit(ctx.requests),
        ctx.targets.main_depth_format.is_depth(),
        ctx.requests.len() + texture_count(config.method is Horizon) + 11 <= usize::MAX,
    ensures
        all_fit(asked_for_processor(ctx, config, view_name, resolution, camera).requests),
{
    let all = asked_for_processor(ctx, config, view_name, resolution, camera).requests;
    let more = all.subrange(ctx.requests.len() as int, all.len() as int);
    assert(all =~= ctx.requests + more);
    lemma_resolves_when_more_follow(ctx.requests, more);
    let horizon = config.method is Horizon;
    let bindings = bindings_base(ctx, horizon);
    assert forall|i: int| 0 <= i < all.len() implies #[trigger] request_fits(all, i) by {
        if i < ctx.requests.len() {
            assert(request_resolves(ctx.requests, i));
            assert(request_fits(ctx.requests, i));
        } else if i < bindings {
            assert(all[i] is Texture);
        }
    }
}

/// Whether the bind group reads the texture.
pub open spec fn reads(entries: Seq<BindGroupEntry>, texture: GpuTextureHandle) -> bool {
    entries.contains(BindGroupEntry::DefaultTextureView(texture))
}

/// Whether the pass draws to the texture.
pub open spec fn draws_to(pass: RenderPassDescriptorView, texture: GpuTextureHandle) -> bool {
    exists|k: int|
        0 <= k < pass.color_attachments.len() && (
        #[trigger] pass.color_attachments[k] matches Some(attachment) && attachment.view
            == texture)
}

/// The entries of a bind group that was asked for.
pub open spec fn entries_of(requests: Seq<RequestView>, bind_group: GpuBindGroup) -> Seq<
    BindGroupEntry,
> {
    requests[bind_group.index as int]->BindGroup_0.entries
}

/// No texture is drawn to and read in one pass.
pub proof fn law_no_pass_reads_what_it_draws_to(
    ctx: RenderContextView,
    config: OcclusionConfig,
    view_name: Seq<char>,
    resolution: Seq<u32>,
    camera: OcclusionCamera,
    texture: GpuTextureHandle,
)
    requires
        ctx.requests.len() + texture_count(config.method is Horizon) + 11 <= usize::MAX,
    ensures
        ({
            let requests = asked_for_processor(
                ctx,
                config,
                view_name,
                resolution,
                camera,
            ).requests;
            let processor = asking_processor(ctx, config, view_name);
            &&& !(reads(entries_of(requests, processor.bind_group_estimate), texture) && draws_to(
                processor.estimate_pass().desc,
                texture,
            ))
            &&& !(reads(entries_of(requests, processor.bind_group_blur), texture) && draws_to(
                processor.blur_pass().desc,
                texture,
            ))
        }),
{
}

/// The blur reads all that the estimate draws to, and the estimate reads all
/// that the prepass draws to.
pub proof fn law_each_pass_reads_the_one_before(
    ctx: RenderContextView,
    config: OcclusionConfig,
    view_name: Seq<char>,
    resolution: Seq<u32>,
    camera: OcclusionCamera,
    texture: GpuTextureHandle,
)
    requires
        ctx.requests.len() + texture_count(config.method is Horizon) + 11 <= usize::MAX,
    ensures
        ({
            let requests = asked_for_processor(
                ctx,
                config,
                view_name,
                resolution,
                camera,
            ).requests;
            let processor = asking_processor(ctx, config, view_name);
            let estimate = entries_of(requests, processor.bind_group_estimate);
            let blur = entries_of(requests, processor.bind_group_blur);
            &&& draws_to(processor.estimate_pass().desc, texture) ==> reads(blur, texture)
            &&& draws_to(processor.prepass(), texture) ==> reads(estimate, texture)
            &&& reads(estimate, processor.prepass().depth_attachment->0.view)
        }),
{
    let requests = asked_for_processor(
        ctx,
        config,
        view_name,
        resolution,
        camera,
    ).requests;
    let processor = asking_processor(ctx, config, view_name);
    let estimate = entries_of(requests, processor.bind_group_estimate);
    let blur = entries_of(requests, processor.bind_group_blur);
    assert(blur[0] == BindGroupEntry::DefaultTextureView(processor.textures.raw_occlusion.handle));
    if processor.textures.bent_normals is Some {
        assert(blur[4] == BindGroupEntry::DefaultTextureView(
            processor.textures.bent_normals->0.raw.handle,
        ));
    }
    assert(estimate[0] == BindGroupEntry::DefaultTextureView(
        processor.textures.prepass_depth.handle,
    ));
    assert(estimate[1] == BindGroupEntry::DefaultTextureView(
        processor.textures.prepass_normal.handle,
    ));
}

/// The prepass has a depth of the main pass's format, which begins as the main
/// pass's does, so the two depths agree.
pub proof fn law_the_depths_agree(
    ctx: RenderContextView,
    config: OcclusionConfig,
    view_name: Seq<char>,
    resolution: Seq<u32>,
    camera: OcclusionCamera,
)
    requires
        ctx.requests.len() + texture_count(config.method is Horizon) + 11 <= usize::MAX,
    ensures
        ({
            let requests = asked_for_processor(
                ctx,
                config,
                view_name,
                resolution,
                camera,
            ).requests;
            let prepass = asking_processor(ctx, config, view_name).prepass();
            &&& prepass.depth_attachment matches Some(depth)
            &&& depth.load == ctx.targets.main_depth_load
            &&& requests[depth.view.index as int] matches RequestView::Texture(desc)
            &&& desc.format == ctx.targets.main_depth_format
            &&& desc.usage.render_attachment
        }),
{
}

/// Neither fullscreen pass binds the bind group that all passes of a frame
/// share.
pub proof fn law_no_fullscreen_pass_binds_the_shared_group(
    ctx: RenderContextView,
    config: OcclusionConfig,
    view_name: Seq<char>,
    resolution: Seq<u32>,
    camera: OcclusionCamera,
    pipeline: GpuRenderPipelineHandle,
)
    requires
        ctx.requests.len() + texture_count(config.method is Horizon) + 11 <= usize::MAX,
        ({
            let processor = asking_processor(ctx, config, view_name);
            pipeline == processor.render_pipeline_estimate || pipeline
                == processor.render_pipeline_blur
        }),
    ensures
        ({
            let requests = asked_for_processor(
                ctx,
                config,
                view_name,
                resolution,
                camera,
            ).requests;
            let desc = requests[pipeline.index as int]->RenderPipeline_0;
            let layout = requests[desc.pipeline_layout.index as int]->PipelineLayout_0;
            !layout.entries.contains(GpuBindGroupLayoutHandle::Global)
        }),
{
}

/// What the blur draws to is what the processor hands out as finished.
pub proof fn law_the_blur_draws_the_finished_textures(
    processor: OcclusionProcessorView,
    texture: GpuTextureHandle,
)
    ensures
        draws_to(processor.blur_pass().desc, texture) <==> {
            ||| texture == processor.textures.occlusion.handle
            ||| processor.textures.bent_normals is Some && texture
                == processor.textures.bent_normals->0.blurred.handle
        },
{
    let attachments = processor.blur_pass().desc.color_attachments;
    assert(attachments[0]->0.view == processor.textures.occlusion.handle);
    if processor.textures.bent_normals is Some {
        assert(attachments[1]->0.view == processor.textures.bent_normals->0.blurred.handle);
    }
}

/// Whether the attachment at `k` is a texture that the pipeline can draw to.
pub open spec fn attachment_fits(
    requests: Seq<RequestView>,
    pass: RenderPassDescriptorView,
    pipeline: RenderPipelineDescView,
    k: int,
) -> bool {
    &&& pass.color_attachments[k] matches Some(attachment)
    &&& pipeline.render_targets[k] matches Some(target)
    &&& requests[attachment.view.index as int] matches RequestView::Texture(desc)
    &&& desc.usage.render_attachment
    &&& desc.format == target.format
    &&& desc.sample_count == pipeline.multisample.count
}

/// Whether a fullscreen pass can be drawn: its pipeline was asked for, draws to
/// what is attached, and takes bind groups laid out like the one that is set.
pub open spec fn pass_can_be_drawn(
    requests: Seq<RequestView>,
    pass: RenderPassDescriptorView,
    pipeline: GpuRenderPipelineHandle,
    bind_group: GpuBindGroup,
) -> bool {
    &&& requests[pipeline.index as int] matches RequestView::RenderPipeline(pipeline)
    &&& requests[bind_group.index as int] matches RequestView::BindGroup(bind_group)
    &&& requests[pipeline.pipeline_layout.index as int] matches RequestView::PipelineLayout(layout)
    &&& layout.entries == seq![bind_group.layout]
    &&& pass.color_attachments.len() == pipeline.render_targets.len()
    &&& forall|k: int|
        0 <= k < pass.color_attachments.len() ==> #[trigger] attachment_fits(
            requests,
            pass,
            pipeline,
            k,
        )
    &&& pass.depth_attachment is None
    &&& pipeline.depth_stencil is None
}

/// The passes of a processor can be drawn with the pipelines and bind groups
/// that it asked for.
pub proof fn law_passes_can_be_drawn(
    ctx: RenderContextView,
    config: OcclusionConfig,
    view_name: Seq<char>,
    resolution: Seq<u32>,
    camera: OcclusionCamera,
)
    requires
        ctx.requests.len() + texture_count(config.method is Horizon) + 11 <= usize::MAX,
    ensures
        ({
            let requests = asked_for_processor(
                ctx,
                config,
                view_name,
                resolution,
                camera,
            ).requests;
            let processor = asking_processor(ctx, config, view_name);
            &&& pass_can_be_drawn(
                requests,
                processor.estimate_pass().desc,
                processor.render_pipeline_estimate,
                processor.bind_group_estimate,
            )
            &&& pass_can_be_drawn(
                requests,
                processor.blur_pass().desc,
                processor.render_pipeline_blur,
                processor.bind_group_blur,
            )
        }),
{
}

/// Every texture of a processor has the size of the view and one sample per
/// pixel, and those it hands out as finished can be copied from.
pub proof fn law_textures_cover_the_view(
    ctx: RenderContextView,
    config: OcclusionConfig,
    view_name: Seq<char>,
    resolution: Seq<u32>,
    camera: OcclusionCamera,
)
    requires
        ctx.requests.len() + texture_count(config.method is Horizon) + 11 <= usize::MAX,
    ensures
        ({
            let requests = asked_for_processor(
                ctx,
                config,
                view_name,
                resolution,
                camera,
            ).requests;
            let textures = textures_at(ctx.requests.len() as int, config.method is Horizon);
            &&& forall|i: int|
                ctx.requests.len() <= i < requests.len() ==> (
                #[trigger] requests[i] matches RequestView::Texture(desc) ==> {
                    &&& desc.size.width == resolution[0]
                    &&& desc.size.height == resolution[1]
                    &&& desc.size.depth_or_array_layers == 1
                    &&& desc.sample_count == 1
                    &&& desc.mip_level_count == 1
                })
            &&& requests[textures.occlusion.handle.index as int]->Texture_0.usage.copy_src
            &&& textures.bent_normals matches Some(bent_normals)
                ==> requests[bent_normals.blurred.handle.index as int]->Texture_0.usage.copy_src
        }),
{
}

/// There is a bent normal for the horizon method and for no other; the shader
/// always takes a sample; and it takes steps for the horizon method and for no
/// other.
pub proof fn law_the_method_decides(
    config: OcclusionConfig,
    camera: OcclusionCamera,
    label: Seq<char>,
    processor: OcclusionProcessorView,
    base: int,
)
    requires
        processor == processor_at(
            label,
            processor.depth_load,
            config.method is Horizon,
            base,
        ),
    ensures
        processor.textures.bent_normals is Some <==> config.method is Horizon,
        occlusion_uniform(config, camera).sample_count >= 1,
        occlusion_uniform(config, camera).steps_per_slice >= 1 <==> config.method is Horizon,
{
}

/// What a processor is made with, request by request: all that was asked for
/// before is kept, and 16 or, for the horizon method, 18 requests follow.
pub proof fn law_a_processor_adds_its_requests(
    ctx: RenderContextView,
    config: OcclusionConfig,
    view_name: Seq<char>,
    resolution: Seq<u32>,
    camera: OcclusionCamera,
)
    ensures
        ({
            let after = asked_for_processor(ctx, config, view_name, resolution, camera);
            let more: int = if config.method is Horizon {
                18
            } else {
                16
            };
            &&& after.targets == ctx.targets
            &&& after.byte_order == ctx.byte_order
            &&& after.requests.len() == ctx.requests.len() + more
            &&& forall|i: int|
                0 <= i < ctx.requests.len() ==> #[trigger] after.requests[i] == ctx.requests[i]
        }),
{
}

/// Whether the texture is a new one: of the size of the view, with one layer, one
/// level and one sample per pixel, to be drawn to and read.
pub open spec fn is_target_of_view(
    requests: Seq<RequestView>,
    first: int,
    texture: GpuTexture,
    label: Seq<char>,
    resolution: Seq<u32>,
    format: TextureFormat,
    copyable: bool,
) -> bool {
    &&& first <= texture.handle.index < requests.len()
    &&& requests[texture.handle.index as int] matches RequestView::Texture(desc)
    &&& desc.label == label
    &&& desc.size.width == resolution[0]
    &&& desc.size.height == resolution[1]
    &&& desc.size.depth_or_array_layers == 1
    &&& desc.mip_level_count == 1
    &&& desc.sample_count == 1
    &&& desc.dimension is D2
    &&& desc.format == format
    &&& desc.usage.texture_binding
    &&& desc.usage.render_attachment
    &&& desc.usage.copy_src == copyable
}

/// Each texture of a processor is a new one of the size of the view, in the
/// format of what it carries: normals in four bytes, depth as the main pass has
/// it, occlusion in one byte, and bent normals in four bytes. No two of them are
/// the same, and what the estimate and the blur draw can be copied from.
#[verifier::rlimit(40)]
pub proof fn law_each_texture_is_made_for_what_it_carries(
    ctx: RenderContextView,
    config: OcclusionConfig,
    view_name: Seq<char>,
    resolution: Seq<u32>,
    camera: OcclusionCamera,
)
    requires
        ctx.requests.len() + (if config.method is Horizon {
            17int
        } else {
            15int
        }) <= usize::MAX,
    ensures
        ({
            let requests = asked_for_processor(
                ctx,
                config,
                view_name,
                resolution,
                camera,
            ).requests;
            let processor = asking_processor(ctx, config, view_name);
            let textures = processor.textures;
            let first = ctx.requests.len() as int;
            let label = view_name + " - OcclusionProcessor"@;
            &&& processor.label == label
            &&& processor.depth_load == ctx.targets.main_depth_load
            &&& is_target_of_view(
                requests,
                first,
                textures.prepass_normal,
                label + "::prepass_normal"@,
                resolution,
                TextureFormat::Rgba8Unorm,
                false,
            )
            &&& is_target_of_view(
                requests,
                first,
                textures.prepass_depth,
                label + "::prepass_depth"@,
                resolution,
                ctx.targets.main_depth_format,
                false,
            )
            &&& is_target_of_view(
                requests,
                first,
                textures.raw_occlusion,
                label + "::raw_occlusion"@,
                resolution,
                TextureFormat::R8Unorm,
                true,
            )
            &&& is_target_of_view(
                requests,
                first,
                textures.occlusion,
                label + "::occlusion"@,
                resolution,
                TextureFormat::R8Unorm,
                true,
            )
            &&& textures.prepass_normal != textures.prepass_depth
            &&& textures.prepass_normal != textures.raw_occlusion
            &&& textures.prepass_normal != textures.occlusion
            &&& textures.prepass_depth != textures.raw_occlusion
            &&& textures.prepass_depth != textures.occlusion
            &&& textures.raw_occlusion != textures.occlusion
            &&& textures.bent_normals is Some <==> config.method is Horizon
            &&& textures.bent_normals matches Some(bent_normals) ==> {
                &&& is_target_of_view(
                    requests,
                    first,
                    bent_normals.raw,
                    label + "::raw_bent_normal"@,
                    resolution,
                    TextureFormat::Rgba8Unorm,
                    true,
                )
                &&& is_target_of_view(
                    requests,
                    first,
                    bent_normals.blurred,
                    label + "::bent_normal"@,
                    resolution,
                    TextureFormat::Rgba8Unorm,
                    true,
                )
                &&& bent_normals.raw != bent_normals.blurred
                &&& bent_normals.raw != textures.prepass_normal
                &&& bent_normals.raw != textures.prepass_depth
                &&& bent_normals.raw != textures.raw_occlusion
                &&& bent_normals.raw != textures.occlusion
                &&& bent_normals.blurred != textures.prepass_normal
                &&& bent_normals.blurred != textures.prepass_depth
                &&& bent_normals.blurred != textures.raw_occlusion
                &&& bent_normals.blurred != textures.occlusion
            }
            &&& OcclusionProcessor::NORMAL_FORMAT is Rgba8Unorm
            &&& OcclusionProcessor::OCCLUSION_FORMAT is R8Unorm
            &&& OcclusionProcessor::BENT_NORMAL_FORMAT is Rgba8Unorm
        }),
{
}

/// Whether the bytes read back as the configuration and the camera, each number
/// at its byte. A count of 0 is read as 1; the steps are 0 for the disk method.
/// Behind the last number all bytes are 0.
pub open spec fn reads_as_configuration(
    contents: Seq<u8>,
    order: ByteOrder,
    config: OcclusionConfig,
    camera: OcclusionCamera,
) -> bool {
    &&& contents.len() == 256
    &&& forall|i: int|
        0 <= i < 16 ==> word_at(contents, order, 4 * i)
            == (#[trigger] camera.view_from_projection@[i]).bits
    &&& word_at(contents, order, 64) == camera.framebuffer_resolution@[0].bits
    &&& word_at(contents, order, 68) == camera.framebuffer_resolution@[1].bits
    &&& word_at(contents, order, 72) == camera.pixels_per_world_unit.bits
    &&& word_at(contents, order, 76) == (if camera.projection_z_axis_w.bits % 0x8000_0000 == 0 {
        0int
    } else {
        1int
    })
    &&& word_at(contents, order, 80) == config.world_radius.bits
    &&& word_at(contents, order, 84) == config.pixel_radius_range@[0].bits
    &&& word_at(contents, order, 88) == config.pixel_radius_range@[1].bits
    &&& word_at(contents, order, 92) == config.strength.bits
    &&& match config.method {
        OcclusionMethod::Disk { sample_count } => {
            &&& sample_count > 0 ==> word_at(contents, order, 96) == sample_count
            &&& sample_count == 0 ==> word_at(contents, order, 96) == 1
            &&& word_at(contents, order, 100) == 0
        },
        OcclusionMethod::Horizon { slice_count, steps_per_slice } => {
            &&& slice_count > 0 ==> word_at(contents, order, 96) == slice_count
            &&& slice_count == 0 ==> word_at(contents, order, 96) == 1
            &&& steps_per_slice > 0 ==> word_at(contents, order, 100) == steps_per_slice
            &&& steps_per_slice == 0 ==> word_at(contents, order, 100) == 1
        },
    }
    &&& forall|i: int| 104 <= i < 256 ==> #[trigger] contents[i] == 0
}

/// What is written for a configuration and a camera reads back as them.
#[verifier::rlimit(40)]
pub proof fn law_configuration_and_camera_read_back(
    config: OcclusionConfig,
    camera: OcclusionCamera,
    order: ByteOrder,
)
    ensures
        reads_as_configuration(
            words_to_bytes(occlusion_uniform(config, camera).spec_words(), order),
            order,
            config,
            camera,
        ),
{
    let uniform = occlusion_uniform(config, camera);
    let words = uniform.spec_words();
    let contents = words_to_bytes(words, order);
    law_words_of_the_occlusion_uniform(uniform);
    lemma_all_words_read_back(words, order);
    assert forall|i: int| 0 <= i < 16 implies word_at(contents, order, 4 * i) == (
    #[trigger] camera.view_from_projection@[i]).bits by {
        assert(words[i] == camera.view_from_projection@[i].bits);
    }
    assert forall|i: int| 104 <= i < 256 implies #[trigger] contents[i] == 0 by {
        assert(words[i / 4] == 0);
    }
    assert(words[16] == camera.framebuffer_resolution@[0].bits);
    assert(words[17] == camera.framebuffer_resolution@[1].bits);
    assert(words[18] == camera.pixels_per_world_unit.bits);
    assert(words[19] == uniform.perspective);
    assert(words[20] == config.world_radius.bits);
    assert(words[21] == config.pixel_radius_range@[0].bits);
    assert(words[22] == config.pixel_radius_range@[1].bits);
    assert(words[23] == config.strength.bits);
    assert(words[24] == uniform.sample_count);
    assert(words[25] == uniform.steps_per_slice);
}

/// The shaders read the configuration and the camera back from the uniform that
/// a processor asks for, whichever its method. Both passes bind it at 2.
#[verifier::rlimit(40)]
pub proof fn law_the_uniform_carries_configuration_and_camera(
    ctx: RenderContextView,
    config: OcclusionConfig,
    view_name: Seq<char>,
    resolution: Seq<u32>,
    camera: OcclusionCamera,
)
    requires
        ctx.requests.len() + (if config.method is Horizon {
            17int
        } else {
            15int
        }) <= usize::MAX,
    ensures
        ({
            let requests = asked_for_processor(
                ctx,
                config,
                view_name,
                resolution,
                camera,
            ).requests;
            let processor = asking_processor(ctx, config, view_name);
            let entry = requests[processor.bind_group_estimate.index as int]->BindGroup_0.entries[2];
            &&& requests[processor.bind_group_blur.index as int]->BindGroup_0.entries[2] == entry
            &&& entry matches BindGroupEntry::Uniform(handle)
            &&& ctx.requests.len() <= handle.index < requests.len()
            &&& requests[handle.index as int] matches RequestView::UniformBuffer { label, contents }
            &&& label == view_name + " - OcclusionProcessor"@ + "::uniform"@
            &&& reads_as_configuration(contents, ctx.byte_order, config, camera)
        }),
{
    let requests = asked_for_processor(ctx, config, view_name, resolution, camera).requests;
    let handle = entries_of(
        requests,
        asking_processor(ctx, config, view_name).bind_group_estimate,
    )[2]->Uniform_0;
    assert(requests[handle.index as int]->UniformBuffer_contents == words_to_bytes(
        occlusion_uniform(config, camera).spec_words(),
        ctx.byte_order,
    ));
    law_configuration_and_camera_read_back(config, camera, ctx.byte_order);
}

/// Whether the layout has a texture of this kind at `k`, for the fragment shader
/// to read texel by texel from one sample.
pub open spec fn has_texture_at(
    layout: BindGroupLayoutDescView,
    k: int,
    is_depth: bool,
) -> bool {
    &&& layout.entries[k].binding == k
    &&& layout.entries[k].visibility is Fragment
    &&& layout.entries[k].ty matches BindingType::Texture { sample_type, multisampled }
    &&& !multisampled
    &&& is_depth ==> sample_type is Depth
    &&& !is_depth ==> sample_type == (TextureSampleType::Float { filterable: false })
}

/// Whether the layout has a uniform of 256 bytes at `k`, for the fragment shader
/// to read.
pub open spec fn has_uniform_at(layout: BindGroupLayoutDescView, k: int) -> bool {
    &&& layout.entries[k].binding == k
    &&& layout.entries[k].visibility is Fragment
    &&& layout.entries[k].ty matches BindingType::Buffer {
        ty,
        has_dynamic_offset,
        min_binding_size,
    }
    &&& ty is Uniform
    &&& !has_dynamic_offset
    &&& min_binding_size == Some(256u64)
}

/// Whether the entry binds the texture.
pub open spec fn binds(entry: BindGroupEntry, texture: GpuTexture) -> bool {
    entry matches BindGroupEntry::DefaultTextureView(handle) && handle == texture.handle
}

/// The shaders find each texture where they look for it. The estimate: depth at
/// 0, normals at 1, the uniform at 2. The blur: raw occlusion at 0, depth at 1,
/// the uniform at 2, normals at 3, and, for the horizon method alone, raw bent
/// normals at 4.
#[verifier::rlimit(40)]
pub proof fn law_each_shader_finds_its_inputs(
    ctx: RenderContextView,
    config: OcclusionConfig,
    view_name: Seq<char>,
    resolution: Seq<u32>,
    camera: OcclusionCamera,
)
    requires
        ctx.requests.len() + (if config.method is Horizon {
            17int
        } else {
            15int
        }) <= usize::MAX,
    ensures
        ({
            let requests = asked_for_processor(
                ctx,
                config,
                view_name,
                resolution,
                camera,
            ).requests;
            let processor = asking_processor(ctx, config, view_name);
            let textures = processor.textures;
            let label = view_name + " - OcclusionProcessor"@;
            &&& requests[processor.bind_group_estimate.index as int] matches RequestView::BindGroup(
                estimate,
            )
            &&& requests[processor.bind_group_blur.index as int] matches RequestView::BindGroup(blur)
            &&& ctx.requests.len() <= processor.bind_group_estimate.index < requests.len()
            &&& ctx.requests.len() <= processor.bind_group_blur.index < requests.len()
            &&& estimate.label == label + "::estimate"@
            &&& blur.label == label + "::blur"@
            &&& estimate.entries.len() == 3
            &&& binds(estimate.entries[0], textures.prepass_depth)
            &&& binds(estimate.entries[1], textures.prepass_normal)
            &&& estimate.entries[2] is Uniform
            &&& blur.entries.len() == (if config.method is Horizon {
                5int
            } else {
                4int
            })
            &&& binds(blur.entries[0], textures.raw_occlusion)
            &&& binds(blur.entries[1], textures.prepass_depth)
            &&& blur.entries[2] is Uniform
            &&& binds(blur.entries[3], textures.prepass_normal)
            &&& textures.bent_normals matches Some(bent_normals) ==> binds(
                blur.entries[4],
                bent_normals.raw,
            )
        }),
{
}

/// The layouts tell the shaders what they find at each binding.
#[verifier::rlimit(40)]
pub proof fn law_each_layout_says_what_is_bound(
    ctx: RenderContextView,
    config: OcclusionConfig,
    view_name: Seq<char>,
    resolution: Seq<u32>,
    camera: OcclusionCamera,
)
    requires
        ctx.requests.len() + (if config.method is Horizon {
            17int
        } else {
            15int
        }) <= usize::MAX,
    ensures
        ({
            let requests = asked_for_processor(
                ctx,
                config,
                view_name,
                resolution,
                camera,
            ).requests;
            let processor = asking_processor(ctx, config, view_name);
            let horizon = config.method is Horizon;
            let estimate_group = requests[processor.bind_group_estimate.index as int]->BindGroup_0;
            let blur_group = requests[processor.bind_group_blur.index as int]->BindGroup_0;
            &&& estimate_group.layout matches GpuBindGroupLayoutHandle::Requested(estimate_place)
            &&& blur_group.layout matches GpuBindGroupLayoutHandle::Requested(blur_place)
            &&& ctx.requests.len() <= estimate_place < requests.len()
            &&& ctx.requests.len() <= blur_place < requests.len()
            &&& requests[estimate_place as int] matches RequestView::BindGroupLayout(estimate)
            &&& requests[blur_place as int] matches RequestView::BindGroupLayout(blur)
            &&& estimate.label == "OcclusionProcessor::layout_estimate"@
            &&& estimate.entries.len() == 3
            &&& has_texture_at(estimate, 0, true)
            &&& has_texture_at(estimate, 1, false)
            &&& has_uniform_at(estimate, 2)
            &&& horizon ==> blur.label == "OcclusionProcessor::layout_blur_bent"@
            &&& !horizon ==> blur.label == "OcclusionProcessor::layout_blur"@
            &&& horizon ==> blur.entries.len() == 5
            &&& !horizon ==> blur.entries.len() == 4
            &&& has_texture_at(blur, 0, false)
            &&& has_texture_at(blur, 1, true)
            &&& has_uniform_at(blur, 2)
            &&& has_texture_at(blur, 3, false)
            &&& horizon ==> has_texture_at(blur, 4, false)
        }),
{
}

/// An entry of a layout has the number it is made with, and is what it is called.
pub proof fn law_layout_entries_are_what_they_are_called(binding: u32)
    ensures
        depth_entry(binding).binding == binding,
        depth_entry(binding).visibility is Fragment,
        depth_entry(binding).ty == (BindingType::Texture {
            sample_type: TextureSampleType::Depth,
            multisampled: false,
        }),
        float_entry(binding).binding == binding,
        float_entry(binding).visibility is Fragment,
        float_entry(binding).ty == (BindingType::Texture {
            sample_type: TextureSampleType::Float { filterable: false },
            multisampled: false,
        }),
        uniform_entry(binding).binding == binding,
        uniform_entry(binding).visibility is Fragment,
        uniform_entry(binding).ty == (BindingType::Buffer {
            ty: BufferBindingType::Uniform,
            has_dynamic_offset: false,
            min_binding_size: Some(256),
        }),
{
}

/// Whether the pipeline runs the shaders over one triangle list, culls nothing,
/// tests no depth, takes one sample, and overwrites occlusion and, for the
/// horizon method, bent normals. The one bind group it takes is laid out like
/// this.
pub open spec fn is_fullscreen_pipeline(
    requests: Seq<RequestView>,
    first: int,
    pipeline: GpuRenderPipelineHandle,
    label: Seq<char>,
    bind_group_layout: GpuBindGroupLayoutHandle,
    fragment: ShaderModule,
    fragment_entrypoint: Seq<char>,
    horizon: bool,
) -> bool {
    &&& first <= pipeline.index < requests.len()
    &&& requests[pipeline.index as int] matches RequestView::RenderPipeline(desc)
    &&& desc.label == label
    &&& requests[desc.pipeline_layout.index as int] matches RequestView::PipelineLayout(layout)
    &&& layout.label == label
    &&& layout.entries.len() == 1
    &&& layout.entries[0] == bind_group_layout
    &&& desc.vertex_entrypoint == "main"@
    &&& requests[desc.vertex_handle.index as int] == RequestView::ShaderModule(
        ShaderModule::ScreenTriangle,
    )
    &&& desc.fragment_entrypoint == fragment_entrypoint
    &&& requests[desc.fragment_handle.index as int] == RequestView::ShaderModule(fragment)
    &&& desc.render_targets.len() == (if horizon {
        2int
    } else {
        1int
    })
    &&& desc.render_targets[0] == Some(
        ColorTargetState {
            format: TextureFormat::R8Unorm,
            blend: None,
            write_mask: ColorWrites::All,
        },
    )
    &&& horizon ==> desc.render_targets[1] == Some(
        ColorTargetState {
            format: TextureFormat::Rgba8Unorm,
            blend: None,
            write_mask: ColorWrites::All,
        },
    )
    &&& desc.primitive.topology is TriangleList
    &&& desc.primitive.cull_mode is None
    &&& desc.depth_stencil is None
    &&& desc.multisample.count == 1
    &&& desc.multisample.mask == u64::MAX
    &&& !desc.multisample.alpha_to_coverage_enabled
}

/// The method picks the shader of the estimate and the entry point of the blur.
/// Each pipeline takes the bind group of its pass.
#[verifier::rlimit(40)]
pub proof fn law_the_method_picks_the_shaders(
    ctx: RenderContextView,
    config: OcclusionConfig,
    view_name: Seq<char>,
    resolution: Seq<u32>,
    camera: OcclusionCamera,
)
    requires
        ctx.requests.len() + (if config.method is Horizon {
            17int
        } else {
            15int
        }) <= usize::MAX,
    ensures
        ({
            let requests = asked_for_processor(
                ctx,
                config,
                view_name,
                resolution,
                camera,
            ).requests;
            let processor = asking_processor(ctx, config, view_name);
            let first = ctx.requests.len() as int;
            let estimate_group = requests[processor.bind_group_estimate.index as int]->BindGroup_0;
            let blur_group = requests[processor.bind_group_blur.index as int]->BindGroup_0;
            let horizon = config.method is Horizon;
            &&& is_fullscreen_pipeline(
                requests,
                first,
                processor.render_pipeline_estimate,
                "OcclusionProcessor::estimate"@,
                estimate_group.layout,
                if horizon {
                    ShaderModule::OcclusionHorizon
                } else {
                    ShaderModule::OcclusionEstimate
                },
                "main"@,
                horizon,
            )
            &&& is_fullscreen_pipeline(
                requests,
                first,
                processor.render_pipeline_blur,
                "OcclusionProcessor::blur"@,
                blur_group.layout,
                ShaderModule::OcclusionBlur,
                if horizon {
                    "main_with_bent_normal"@
                } else {
                    "main"@
                },
                horizon,
            )
        }),
{
}

/// The prepass draws normals, over nothing, and depth, over what the main pass
/// begins with, and keeps both. Nothing is drawn when it begins.
pub proof fn law_the_prepass_draws_normals_and_depth(processor: OcclusionProcessorView)
    ensures
        processor.prepass().label == processor.label + " - prepass"@,
        processor.prepass().color_attachments.len() == 1,
        processor.prepass().color_attachments[0] matches Some(normals) && {
            &&& normals.view == processor.textures.prepass_normal.handle
            &&& normals.clear is Transparent
            &&& normals.store is Store
        },
        processor.prepass().depth_attachment matches Some(depth) && {
            &&& depth.view == processor.textures.prepass_depth.handle
            &&& depth.load == processor.depth_load
            &&& depth.store is Store
        },
        RenderPassView::begun(processor.prepass()).desc == processor.prepass(),
        RenderPassView::begun(processor.prepass()).commands.len() == 0,
{
}

/// Whether the pass draws to the occlusion texture, over white, and to the bent
/// normal texture if there is one, over transparent black, and keeps both.
pub open spec fn draws_occlusion_to(
    pass: RenderPassDescriptorView,
    label: Seq<char>,
    occlusion: GpuTexture,
    bent_normal: Option<GpuTexture>,
) -> bool {
    &&& pass.label == label
    &&& pass.color_attachments.len() == (if bent_normal is Some {
        2int
    } else {
        1int
    })
    &&& pass.color_attachments[0] matches Some(attachment)
    &&& attachment.view == occlusion.handle
    &&& attachment.clear is White
    &&& attachment.store is Store
    &&& bent_normal matches Some(bent_normal) ==> {
        &&& pass.color_attachments[1] matches Some(attachment)
        &&& attachment.view == bent_normal.handle
        &&& attachment.clear is Transparent
        &&& attachment.store is Store
    }
    &&& pass.depth_attachment is None
}

/// Whether the commands draw one triangle with this pipeline and this bind group.
pub open spec fn draws_one_triangle(
    commands: Seq<PassCommand>,
    pipeline: GpuRenderPipelineHandle,
    bind_group: GpuBindGroup,
) -> bool {
    &&& commands.len() == 3
    &&& commands[0] == PassCommand::SetPipeline(pipeline)
    &&& commands[1] == (PassCommand::SetBindGroup { index: 0, bind_group })
    &&& commands[2] matches PassCommand::Draw { vertices, instances }
    &&& vertices.start == 0
    &&& vertices.end == 3
    &&& instances.start == 0
    &&& instances.end == 1
}

/// Occlusion is computed if both pipelines are available: the estimate draws raw
/// occlusion and raw bent normals, then the blur draws the finished ones. If one
/// is not, the first of them is the error, and its pass draws nothing and is the
/// last.
pub proof fn law_occlusion_is_estimated_then_blurred(
    processor: OcclusionProcessorView,
    pipelines: GpuRenderPipelinePoolAccessor,
)
    ensures
        ({
            let (result, passes) = processor.computed(pipelines);
            let estimates = pipelines.available@.contains(processor.render_pipeline_estimate);
            let blurs = pipelines.available@.contains(processor.render_pipeline_blur);
            let (raw, blurred) = match processor.textures.bent_normals {
                Some(bent_normals) => (Some(bent_normals.raw), Some(bent_normals.blurred)),
                None => (None, None),
            };
            &&& result is Ok <==> estimates && blurs
            &&& result matches Err(error) ==> {
                &&& !estimates ==> error.pipeline == processor.render_pipeline_estimate
                &&& estimates ==> error.pipeline == processor.render_pipeline_blur
            }
            &&& passes.len() == (if estimates {
                2int
            } else {
                1int
            })
            &&& draws_occlusion_to(
                passes[0].desc,
                processor.label + " - "@ + "estimate"@,
                processor.textures.raw_occlusion,
                raw,
            )
            &&& estimates ==> draws_one_triangle(
                passes[0].commands,
                processor.render_pipeline_estimate,
                processor.bind_group_estimate,
            )
            &&& !estimates ==> passes[0].commands.len() == 0
            &&& estimates ==> draws_occlusion_to(
                passes[1].desc,
                processor.label + " - "@ + "blur"@,
                processor.textures.occlusion,
                blurred,
            )
            &&& estimates && blurs ==> draws_one_triangle(
                passes[1].commands,
                processor.render_pipeline_blur,
                processor.bind_group_blur,
            )
            &&& estimates && !blurs ==> passes[1].commands.len() == 0
        }),
{
}

/// What is handed out as finished is what the last pass draws to, where occlusion
/// is computed: its first attachment is the occlusion, its second the bent
/// normal, and it has no other.
pub proof fn law_what_is_handed_out_is_what_was_drawn_last(
    processor: OcclusionProcessorView,
    pipelines: GpuRenderPipelinePoolAccessor,
)
    requires
        processor.computed(pipelines).0 is Ok,
    ensures
        ({
            let drawn = processor.computed(pipelines).1.last().desc.color_attachments;
            &&& drawn[0] matches Some(attachment)
            &&& attachment.view == processor.finished_occlusion().handle
            &&& drawn.len() == 2 <==> processor.finished_bent_normal() is Some
            &&& drawn.len() <= 2
            &&& processor.finished_bent_normal() matches Some(bent_normal) ==> {
                &&& drawn[1] matches Some(attachment)
                &&& attachment.view == bent_normal.handle
            }
        }),
{
}

/// Two configurations are equal if they ask for the same method and each number
/// of one equals that of the other. Equality is symmetric, and fails to hold of
/// a configuration and itself only where one of its numbers is a NaN.
pub proof fn law_configurations_are_equal_as_numbers(a: OcclusionConfig, b: OcclusionConfig)
    ensures
        a.eq_spec(&b) <==> {
            &&& a.method == b.method
            &&& a.world_radius.spec_compares_equal(b.world_radius)
            &&& a.strength.spec_compares_equal(b.strength)
            &&& forall|i: int|
                0 <= i < 2 ==> (#[trigger] a.pixel_radius_range@[i]).spec_compares_equal(
                    b.pixel_radius_range@[i],
                )
        },
        a.eq_spec(&b) <==> b.eq_spec(&a),
        a.eq_spec(&a) <==> {
            &&& !a.world_radius.spec_is_nan()
            &&& !a.strength.spec_is_nan()
            &&& !a.pixel_radius_range@[0].spec_is_nan()
            &&& !a.pixel_radius_range@[1].spec_is_nan()
        },
{
    law_floats_are_equal_as_numbers(a.world_radius, b.world_radius, a.world_radius);
    law_floats_are_equal_as_numbers(a.strength, b.strength, a.strength);
    law_floats_are_equal_as_numbers(
        a.pixel_radius_range@[0],
        b.pixel_radius_range@[0],
        a.pixel_radius_range@[0],
    );
    law_floats_are_equal_as_numbers(
        a.pixel_radius_range@[1],
        b.pixel_radius_range@[1],
        a.pixel_radius_range@[1],
    );
    assert(a.eq_spec(&b) ==> forall|i: int|
        0 <= i < 2 ==> (#[trigger] a.pixel_radius_range@[i]).spec_compares_equal(
            b.pixel_radius_range@[i],
        ));
}

} // verus!
