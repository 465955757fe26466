//! The record of what a frame has the GPU draw.
use vstd::prelude::*;

use crate::gpu_types::{DepthLoadOp, StoreOp};
use crate::handles::{ColorAttachment, GpuBindGroup, GpuRenderPipelineHandle, GpuTextureHandle};
use crate::inline_vec::{color_attachments, ColorAttachments};
use crate::resources::Label;

verus! {

/// The depth texture that a pass tests against and writes to.
#[derive(Clone, Copy, Debug, PartialEq, Eq, Structural)]
pub struct DepthAttachment {
    pub view: GpuTextureHandle,
    pub load: DepthLoadOp,
    pub store: StoreOp,
}

/// What a pass draws to.
pub struct RenderPassDescriptor {
    pub label: Label,
    pub color_attachments: ColorAttachments,
    pub depth_attachment: Option<DepthAttachment>,
}

#[verifier::ext_equal]
pub struct RenderPassDescriptorView {
    pub label: Seq<char>,
    pub color_attachments: Seq<Option<ColorAttachment>>,
    pub depth_attachment: Option<DepthAttachment>,
}

impl View for RenderPassDescriptor {
    type V = RenderPassDescriptorView;

    open spec fn view(&self) -> RenderPassDescriptorView {
        RenderPassDescriptorView {
            label: self.label@,
            color_attachments: self.color_attachments@,
            depth_attachment: self.depth_attachment,
        }
    }
}

/// The numbers from `start` up to `end`, which is not one of them.
#[derive(Clone, Copy, Debug, PartialEq, Eq, Structural)]
pub struct DrawRange {
    pub start: u32,
    pub end: u32,
}

/// One step of a pass.
#[derive(Clone, Copy, Debug, PartialEq, Eq, Structural)]
pub enum PassCommand {
    SetPipeline(GpuRenderPipelineHandle),
    SetBindGroup { index: u32, bind_group: GpuBindGroup },
    Draw { vertices: DrawRange, instances: DrawRange },
}

/// A pass with what is drawn in it.
pub struct RenderPass {
    desc: RenderPassDescriptor,
    commands: Vec<PassCommand>,
}

#[verifier::ext_equal]
pub struct RenderPassView {
    pub desc: RenderPassDescriptorView,
    pub commands: Seq<PassCommand>,
}

impl RenderPassView {
    /// A pass in which nothing has been drawn.
    pub open spec fn begun(desc: RenderPassDescriptorView) -> RenderPassView {
        RenderPassView { desc, commands: Seq::empty() }
    }

    /// The same pass with `more` behind its commands.
    pub open spec fn with_commands(self, more: Seq<PassCommand>) -> RenderPassView {
        RenderPassView { desc: self.desc, commands: self.commands + more }
    }
}

impl View for RenderPass {
    type V = RenderPassView;

    closed spec fn view(&self) -> RenderPassView {
        RenderPassView { desc: self.desc@, commands: self.commands@ }
    }
}

impl RenderPass {
    /// What the pass draws to.
    pub fn desc(&self) -> (r: &RenderPassDescriptor)
        ensures
            r@ == self@.desc,
    {
        &self.desc
    }

    /// The commands so far, in order.
    pub fn commands(&self) -> (r: &Vec<PassCommand>)
        ensures
            r@ == self@.commands,
    {
        &self.commands
    }

    /// Has the commands that follow draw with this pipeline.
    pub fn set_pipeline(&mut self, pipeline: GpuRenderPipelineHandle)
        ensures
            final(self)@ == old(self)@.with_commands(seq![PassCommand::SetPipeline(pipeline)]),
    {
        self.commands.push(PassCommand::SetPipeline(pipeline));
        assert(self@.commands =~= old(self)@.commands + seq![PassCommand::SetPipeline(pipeline)]);
    }

    /// Has the commands that follow read this bind group.
    pub fn set_bind_group(&mut self, index: u32, bind_group: GpuBindGroup)
        ensures
            final(self)@ == old(self)@.with_commands(
                seq![PassCommand::SetBindGroup { index, bind_group }],
            ),
    {
        self.commands.push(PassCommand::SetBindGroup { index, bind_group });
        assert(self@.commands =~= old(self)@.commands + seq![
            PassCommand::SetBindGroup { index, bind_group },
        ]);
    }

    /// Draws.
    pub fn draw(&mut self, vertices: DrawRange, instances: DrawRange)
        ensures
            final(self)@ == old(self)@.with_commands(
                seq![PassCommand::Draw { vertices, instances }],
            ),
    {
        self.commands.push(PassCommand::Draw { vertices, instances });
        assert(self@.commands =~= old(self)@.commands + seq![
            PassCommand::Draw { vertices, instances },
        ]);
    }
}

/// What each of the passes is.
pub open spec fn pass_views(passes: Seq<RenderPass>) -> Seq<RenderPassView> {
    passes.map_values(|pass: RenderPass| pass@)
}

/// The passes with one more behind them.
pub open spec fn with_pass(passes: Seq<RenderPassView>, pass: RenderPassView) -> Seq<
    RenderPassView,
> {
    passes.push(pass)
}

/// The passes with `more` behind them.
pub open spec fn with_passes(passes: Seq<RenderPassView>, more: Seq<RenderPassView>) -> Seq<
    RenderPassView,
> {
    passes + more
}

/// A frame keeps the passes that were recorded before, in their places. What is
/// recorded later comes behind them, in order.
pub proof fn law_later_passes_come_behind(
    passes: Seq<RenderPassView>,
    pass: RenderPassView,
    more: Seq<RenderPassView>,
)
    ensures
        with_pass(passes, pass).len() == passes.len() + 1,
        with_pass(passes, pass)[passes.len() as int] == pass,
        forall|i: int|
            0 <= i < passes.len() ==> #[trigger] with_pass(passes, pass)[i] == passes[i],
        with_passes(passes, more).len() == passes.len() + more.len(),
        forall|i: int|
            0 <= i < passes.len() ==> #[trigger] with_passes(passes, more)[i] == passes[i],
        forall|i: int|
            0 <= i < more.len() ==> with_passes(passes, more)[passes.len() + i]
                == #[trigger] more[i],
{
}

/// The passes of a frame, in order.
pub struct CommandEncoder {
    passes: Vec<RenderPass>,
}

impl View for CommandEncoder {
    type V = Seq<RenderPassView>;

    closed spec fn view(&self) -> Seq<RenderPassView> {
        pass_views(self.passes@)
    }
}

impl CommandEncoder {
    /// A frame without passes.
    pub fn new() -> (r: CommandEncoder)
        ensures
            r@ == Seq::<RenderPassView>::empty(),
    {
        let r = CommandEncoder { passes: Vec::new() };
        assert(r@ =~= Seq::<RenderPassView>::empty());
        r
    }

    /// The passes so far, in order.
    pub fn passes(&self) -> (r: &Vec<RenderPass>)
        ensures
            pass_views(r@) == self@,
    {
        &self.passes
    }

    /// Begins a pass behind the others. What is drawn into the pass that is
    /// handed out is drawn in the frame.
    pub fn begin_render_pass<'a>(&'a mut self, desc: RenderPassDescriptor) -> (r:
        &'a mut RenderPass)
        ensures
            r@ == RenderPassView::begun(desc@),
            final(self)@ == with_pass(old(self)@, final(r)@),
    {
        let index = self.passes.len();
        let pass = RenderPass { desc, commands: Vec::new() };
        assert(pass@ =~= RenderPassView::begun(desc@));
        self.passes.push(pass);
        proof {
            assert forall|pass: RenderPass|
                #![trigger self.passes@.update(index as int, pass)]
                pass_views(self.passes@.update(index as int, pass)) == old(self)@.push(pass@) by {
                assert(pass_views(self.passes@.update(index as int, pass)) =~= old(self)@.push(
                    pass@,
                ));
            }
        }
        &mut self.passes[index]
    }
}

/// A pass begins with nothing drawn in it. What is drawn later comes behind what
/// was drawn before, and draws to the same targets.
pub proof fn law_drawing_keeps_what_was_drawn(
    desc: RenderPassDescriptor,
    pass: RenderPassView,
    more: Seq<PassCommand>,
)
    ensures
        desc@.label == desc.label.text@,
        desc@.color_attachments == color_attachments(desc.color_attachments),
        desc@.depth_attachment == desc.depth_attachment,
        RenderPassView::begun(desc@).desc == desc@,
        RenderPassView::begun(desc@).commands.len() == 0,
        pass.with_commands(more).desc == pass.desc,
        pass.with_commands(more).commands.len() == pass.commands.len() + more.len(),
        forall|i: int|
            0 <= i < pass.commands.len() ==> #[trigger] pass.with_commands(more).commands[i]
                == pass.commands[i],
        forall|i: int|
            0 <= i < more.len() ==> pass.with_commands(more).commands[pass.commands.len() + i]
                == #[trigger] more[i],
{
}

/// Each pass is seen as it is, in its place.
pub proof fn law_passes_are_seen_as_they_are(passes: Seq<RenderPass>)
    ensures
        pass_views(passes).len() == passes.len(),
        forall|i: int|
            0 <= i < passes.len() ==> #[trigger] pass_views(passes)[i] == passes[i]@,
{
}

/// The render pipelines that are ready to draw with.
pub struct GpuRenderPipelinePoolAccessor {
    pub available: Vec<GpuRenderPipelineHandle>,
}

/// A pipeline that is not ready to draw with.
#[derive(Clone, Copy, Debug, PartialEq, Eq, Structural)]
pub struct PoolError {
    pub pipeline: GpuRenderPipelineHandle,
}

impl GpuRenderPipelinePoolAccessor {
    /// Whether the pipeline is ready to draw with.
    pub open spec fn has(self, pipeline: GpuRenderPipelineHandle) -> bool {
        self.available@.contains(pipeline)
    }

    /// A pipeline is ready to draw with if it is among the available ones.
    pub proof fn law_available_pipelines_are_ready(self, pipeline: GpuRenderPipelineHandle)
        ensures
            self.has(pipeline) <==> exists|k: int|
                0 <= k < self.available@.len() && #[trigger] self.available@[k] == pipeline,
    {
    }

    /// The pipeline, if it is ready to draw with.
    pub fn get(&self, pipeline: GpuRenderPipelineHandle) -> (r: Result<
        GpuRenderPipelineHandle,
        PoolError,
    >)
        ensures
            r == (if self.has(pipeline) {
                Ok::<GpuRenderPipelineHandle, PoolError>(pipeline)
            } else {
                Err(PoolError { pipeline })
            }),
    {
        let mut i: usize = 0;
        while i < self.available.len()
            invariant
                i <= self.available@.len(),
                forall|k: int| 0 <= k < i ==> self.available@[k] != pipeline,
            decreases self.available@.len() - i,
        {
            if self.available[i] == pipeline {
                return Ok(pipeline);
            }
            i += 1;
        }
        Err(PoolError { pipeline })
    }
}

} // verus!
