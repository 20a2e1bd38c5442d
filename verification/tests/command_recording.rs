use frameloop::commands::{record_frame_commands, RenderCommand, TRIANGLE_VERTEX_COUNT};
use frameloop::framebuffer::FramebufferSet;
use frameloop::surface::Extent;

#[test]
fn one_fixed_draw_is_recorded_in_order() {
    let fb = FramebufferSet { generation: 4, image_count: 3 };
    let viewport = Extent { width: 800, height: 600 };
    let cmds = record_frame_commands(&fb, 2, viewport);
    assert_eq!(
        cmds,
        vec![
            RenderCommand::BindPipeline,
            RenderCommand::SetViewport { extent: viewport },
            RenderCommand::BindVertexBuffer,
            RenderCommand::BeginRenderPass { generation: 4, image_index: 2 },
            RenderCommand::Draw { vertex_count: TRIANGLE_VERTEX_COUNT },
            RenderCommand::EndRenderPass,
        ]
    );
}

#[test]
fn the_one_draw_is_a_triangle() {
    assert_eq!(TRIANGLE_VERTEX_COUNT, 3);
}
