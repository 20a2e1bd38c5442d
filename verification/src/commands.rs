use vstd::prelude::*;

use crate::framebuffer::FramebufferSet;
use crate::surface::Extent;

verus! {

/// The session draws one fixed triangle, so every frame issues one draw of
/// this many vertices.
pub const TRIANGLE_VERTEX_COUNT: u32 = 3;

/// One recorded command. The host replays the sequence against the driver's
/// command-buffer builder; the generation tag on `BeginRenderPass` names the
/// swapchain generation whose render target the pass draws into.
#[derive(Clone, Copy, PartialEq, Eq, Structural, Debug)]
pub enum RenderCommand {
    BindPipeline,
    SetViewport { extent: Extent },
    BindVertexBuffer,
    BeginRenderPass { generation: u64, image_index: usize },
    Draw { vertex_count: u32 },
    EndRenderPass,
}

/// The command sequence for one frame of the fixed draw against render
/// target `image_index` of `fb`, with the viewport taken from the current
/// viewport state.
pub open spec fn fixed_draw_commands(fb: FramebufferSet, image_index: usize, viewport: Extent)
    -> Seq<RenderCommand> {
    seq![
        RenderCommand::BindPipeline,
        RenderCommand::SetViewport { extent: viewport },
        RenderCommand::BindVertexBuffer,
        RenderCommand::BeginRenderPass { generation: fb.generation, image_index },
        RenderCommand::Draw { vertex_count: TRIANGLE_VERTEX_COUNT },
        RenderCommand::EndRenderPass,
    ]
}

/// Records exactly one command sequence for the fixed draw: bind the static
/// pipeline, set the viewport, bind the static vertex data, begin the render
/// pass on the acquired image's render target, issue the one draw call, end
/// the render pass. No dynamic geometry is supported.
pub fn record_frame_commands(fb: &FramebufferSet, image_index: usize, viewport: Extent) -> (cmds:
    Vec<RenderCommand>)
    requires
        image_index < fb.image_count,
    ensures
        cmds@ == fixed_draw_commands(*fb, image_index, viewport),
{
    let mut cmds: Vec<RenderCommand> = Vec::new();
    cmds.push(RenderCommand::BindPipeline);
    cmds.push(RenderCommand::SetViewport { extent: viewport });
    cmds.push(RenderCommand::BindVertexBuffer);
    cmds.push(RenderCommand::BeginRenderPass { generation: fb.generation, image_index });
    cmds.push(RenderCommand::Draw { vertex_count: TRIANGLE_VERTEX_COUNT });
    cmds.push(RenderCommand::EndRenderPass);
    proof {
        assert(cmds@ =~= fixed_draw_commands(*fb, image_index, viewport));
    }
    cmds
}

} // verus!
