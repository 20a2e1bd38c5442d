use frameloop::commands::RenderCommand;
use frameloop::controller::{Action, DriverEvent, FrameLoopController, Phase, SessionOutcome};
use frameloop::device::{PhysicalDeviceCaps, QueueFamilyCaps};
use frameloop::events::EventSummary;
use frameloop::resources::ResourceKind;
use frameloop::surface::{Extent, SurfaceCaps};

fn new_controller() -> FrameLoopController {
    let devices = vec![PhysicalDeviceCaps {
        queue_families: vec![QueueFamilyCaps { supports_graphics: true, supports_present: true }],
    }];
    let caps = SurfaceCaps {
        min_image_count: 2,
        formats: vec![10, 20],
        alpha_modes: vec![1],
        present_modes: vec![2],
        current_extent: None,
    };
    FrameLoopController::new(&devices, &caps, Extent { width: 800, height: 600 }).unwrap()
}

fn no_events() -> DriverEvent {
    DriverEvent::EventsPolled {
        summary: EventSummary { resize: None, close_requested: false },
    }
}

/// Drives one clean iteration (poll, acquire, submit, present, retire) and
/// returns the identity of the frame's completion future.
fn run_clean_iteration(c: &mut FrameLoopController, acquire_id: u64) -> u64 {
    let a = c.step(DriverEvent::PreviousFrameStatus { finished: true });
    assert_eq!(a, Action::AcquireImage);
    let a = c.step(DriverEvent::ImageAcquired { image_index: 0, acquire_id });
    assert!(matches!(a, Action::SubmitFrame { .. }));
    let a = c.step(DriverEvent::SubmitCompleted);
    let wait_id = match a {
        Action::PresentImage { wait_id, .. } => wait_id,
        other => panic!("expected a present, got {:?}", other),
    };
    let a = c.step(DriverEvent::PresentCompleted);
    assert_eq!(a, Action::PollWindowEvents);
    let a = c.step(no_events());
    assert_eq!(a, Action::PollPreviousFrame);
    wait_id
}

#[test]
fn initialization_selects_first_format_and_alpha() {
    let c = new_controller();
    let state = c.swapchain.current.unwrap();
    assert_eq!(state.format, 10);
    assert_eq!(state.alpha_mode, 1);
    assert_eq!(state.image_count, 2);
    assert_eq!(state.generation, 1);
    assert_eq!(c.viewport, Extent { width: 800, height: 600 });
    assert_eq!(c.first_action(), Action::PollPreviousFrame);
}

#[test]
fn each_submission_waits_on_the_previous_frames_future() {
    let mut c = new_controller();
    // Frame 1 waits on the initial, already-satisfied future (identity 0).
    let a = c.step(DriverEvent::PreviousFrameStatus { finished: false });
    assert_eq!(a, Action::AcquireImage);
    let a = c.step(DriverEvent::ImageAcquired { image_index: 0, acquire_id: 100 });
    match a {
        Action::SubmitFrame { dependency, .. } => {
            assert_eq!(dependency.previous_frame_id, 0);
            assert_eq!(dependency.acquire_id, 100);
        },
        other => panic!("expected a submission, got {:?}", other),
    }
    let a = c.step(DriverEvent::SubmitCompleted);
    assert!(matches!(a, Action::PresentImage { wait_id: 1, .. }));
    c.step(DriverEvent::PresentCompleted);
    c.step(no_events());
    // Frame 2's join names frame 1's completion future (identity 1).
    c.step(DriverEvent::PreviousFrameStatus { finished: true });
    let a = c.step(DriverEvent::ImageAcquired { image_index: 1, acquire_id: 101 });
    match a {
        Action::SubmitFrame { dependency, .. } => {
            assert_eq!(dependency.previous_frame_id, 1);
            assert_eq!(dependency.acquire_id, 101);
        },
        other => panic!("expected a submission, got {:?}", other),
    }
}

#[test]
fn out_of_date_acquire_recreates_before_next_acquire_and_skips_present() {
    let mut c = new_controller();
    run_clean_iteration(&mut c, 1);
    run_clean_iteration(&mut c, 2);
    // Iteration 3: the driver reports the chain out of date at acquire.
    let a = c.step(DriverEvent::PreviousFrameStatus { finished: true });
    assert_eq!(a, Action::AcquireImage);
    let generation_before = c.swapchain.current.unwrap().generation;
    let fb_before = c.framebuffers;
    let a = c.step(DriverEvent::AcquireOutOfDate);
    assert!(c.recreate_needed);
    // The iteration restarts; nothing was recorded, submitted or presented.
    assert_eq!(a, Action::PollPreviousFrame);
    // Recreation happens before the next acquire.
    let a = c.step(DriverEvent::PreviousFrameStatus { finished: false });
    assert_eq!(a, Action::RecreateSwapchain { extent: c.viewport });
    let a = c.step(DriverEvent::RecreateSucceeded);
    assert_eq!(a, Action::AcquireImage);
    assert!(!c.recreate_needed);
    let generation_after = c.swapchain.current.unwrap().generation;
    assert_eq!(generation_after, generation_before + 1);
    assert_ne!(c.framebuffers, fb_before);
    assert_eq!(c.framebuffers.generation, generation_after);
}

#[test]
fn unsupported_dimensions_retries_the_same_iteration() {
    let mut c = new_controller();
    c.step(DriverEvent::PreviousFrameStatus { finished: true });
    c.step(DriverEvent::AcquireOutOfDate);
    let a = c.step(DriverEvent::PreviousFrameStatus { finished: false });
    assert!(matches!(a, Action::RecreateSwapchain { .. }));
    // The driver rejects the dimensions twice; the controller retries the
    // recreate within the same iteration, without polling anew.
    let a = c.step(DriverEvent::RecreateUnsupportedDimensions);
    assert!(matches!(a, Action::RecreateSwapchain { .. }));
    let a = c.step(DriverEvent::RecreateUnsupportedDimensions);
    assert!(matches!(a, Action::RecreateSwapchain { .. }));
    let a = c.step(DriverEvent::RecreateSucceeded);
    assert_eq!(a, Action::AcquireImage);
}

#[test]
fn present_failure_resynchronizes_and_next_acquire_is_not_stalled() {
    let mut c = new_controller();
    c.step(DriverEvent::PreviousFrameStatus { finished: false });
    c.step(DriverEvent::ImageAcquired { image_index: 0, acquire_id: 7 });
    c.step(DriverEvent::SubmitCompleted);
    let a = c.step(DriverEvent::PresentFailed);
    // The tracker's stored future is immediately satisfied: the frame is
    // dropped, the session continues degraded but live.
    assert!(c.tracker.previous_frame.satisfied);
    assert_eq!(a, Action::PollWindowEvents);
    let a = c.step(no_events());
    assert_eq!(a, Action::PollPreviousFrame);
    // The next acquire proceeds without waiting on stale work.
    let a = c.step(DriverEvent::PreviousFrameStatus { finished: false });
    assert_eq!(a, Action::AcquireImage);
    assert!(c.tracker.previous_frame.satisfied);
    let a = c.step(DriverEvent::ImageAcquired { image_index: 0, acquire_id: 8 });
    match a {
        Action::SubmitFrame { dependency, .. } => {
            assert_eq!(dependency.previous_frame_id, 0);
        },
        other => panic!("expected a submission, got {:?}", other),
    }
}

#[test]
fn present_out_of_date_counts_the_frame_and_recreates() {
    let mut c = new_controller();
    c.step(DriverEvent::PreviousFrameStatus { finished: false });
    c.step(DriverEvent::ImageAcquired { image_index: 1, acquire_id: 7 });
    let a = c.step(DriverEvent::SubmitCompleted);
    let wait_id = match a {
        Action::PresentImage { wait_id, .. } => wait_id,
        other => panic!("expected a present, got {:?}", other),
    };
    let a = c.step(DriverEvent::PresentOutOfDate);
    assert_eq!(a, Action::PollWindowEvents);
    // The frame still counts as complete: its completion future is retained.
    assert_eq!(c.tracker.previous_frame.id, wait_id);
    assert!(c.recreate_needed);
    let a = c.step(no_events());
    assert_eq!(a, Action::PollPreviousFrame);
    let a = c.step(DriverEvent::PreviousFrameStatus { finished: true });
    assert!(matches!(a, Action::RecreateSwapchain { .. }));
}

#[test]
fn submit_failure_drops_the_frame_and_continues() {
    let mut c = new_controller();
    c.step(DriverEvent::PreviousFrameStatus { finished: false });
    c.step(DriverEvent::ImageAcquired { image_index: 0, acquire_id: 7 });
    let a = c.step(DriverEvent::SubmitFailed);
    assert_eq!(a, Action::PollWindowEvents);
    assert!(c.tracker.previous_frame.satisfied);
    let a = c.step(no_events());
    assert_eq!(a, Action::PollPreviousFrame);
}

#[test]
fn resize_updates_viewport_and_renders_against_the_new_generation() {
    let mut c = new_controller();
    run_clean_iteration(&mut c, 1);
    c.step(DriverEvent::PreviousFrameStatus { finished: true });
    c.step(DriverEvent::ImageAcquired { image_index: 0, acquire_id: 2 });
    c.step(DriverEvent::SubmitCompleted);
    c.step(DriverEvent::PresentCompleted);
    let resized = Extent { width: 1280, height: 720 };
    let a = c.step(DriverEvent::EventsPolled {
        summary: EventSummary { resize: Some(resized), close_requested: false },
    });
    assert_eq!(a, Action::PollPreviousFrame);
    assert_eq!(c.viewport, resized);
    assert!(c.recreate_needed);
    let a = c.step(DriverEvent::PreviousFrameStatus { finished: true });
    assert_eq!(a, Action::RecreateSwapchain { extent: resized });
    c.step(DriverEvent::RecreateSucceeded);
    assert_eq!(c.swapchain.current.unwrap().extent, resized);
    assert_eq!(c.swapchain.current.unwrap().generation, 2);
    // The next frame's render pass names the new generation's targets.
    let a = c.step(DriverEvent::ImageAcquired { image_index: 0, acquire_id: 3 });
    match a {
        Action::SubmitFrame { commands, .. } => {
            assert!(commands.contains(&RenderCommand::BeginRenderPass {
                generation: 2,
                image_index: 0,
            }));
            assert!(commands.contains(&RenderCommand::SetViewport { extent: resized }));
        },
        other => panic!("expected a submission, got {:?}", other),
    }
}

#[test]
fn close_mid_iteration_retires_the_frame_before_shutdown() {
    let mut c = new_controller();
    run_clean_iteration(&mut c, 1);
    // The close arrives while a frame is in flight; the frame still reaches
    // retire (its completion future is stored) before the loop terminates.
    c.step(DriverEvent::PreviousFrameStatus { finished: true });
    c.step(DriverEvent::ImageAcquired { image_index: 0, acquire_id: 2 });
    let a = c.step(DriverEvent::SubmitCompleted);
    let wait_id = match a {
        Action::PresentImage { wait_id, .. } => wait_id,
        other => panic!("expected a present, got {:?}", other),
    };
    c.step(DriverEvent::PresentCompleted);
    let a = c.step(DriverEvent::EventsPolled {
        summary: EventSummary { resize: None, close_requested: true },
    });
    assert_eq!(c.tracker.previous_frame.id, wait_id);
    assert_eq!(a, Action::Exit { outcome: SessionOutcome::Completed });
    assert_eq!(c.phase, Phase::Terminated { outcome: SessionOutcome::Completed });
    // Shutdown releases everything exactly once, in reverse-creation order.
    let creation = c.ledger.created.clone();
    let released = c.shutdown();
    assert_eq!(released.len(), creation.len());
    for (i, kind) in released.iter().enumerate() {
        assert_eq!(*kind, creation[creation.len() - 1 - i]);
    }
    for (i, a) in released.iter().enumerate() {
        for b in released.iter().skip(i + 1) {
            assert_ne!(a, b);
        }
    }
    assert_eq!(released.first(), Some(&ResourceKind::Framebuffers));
    assert_eq!(released.last(), Some(&ResourceKind::Instance));
    assert!(c.ledger.created.is_empty());
}

#[test]
fn acquire_timeout_retries_the_iteration() {
    let mut c = new_controller();
    c.step(DriverEvent::PreviousFrameStatus { finished: false });
    let a = c.step(DriverEvent::AcquireTimedOut);
    assert_eq!(a, Action::PollPreviousFrame);
    assert!(!c.recreate_needed);
    let a = c.step(DriverEvent::PreviousFrameStatus { finished: false });
    assert_eq!(a, Action::AcquireImage);
}

#[test]
fn fatal_acquire_aborts_the_session() {
    let mut c = new_controller();
    c.step(DriverEvent::PreviousFrameStatus { finished: false });
    let a = c.step(DriverEvent::AcquireFailed);
    assert_eq!(a, Action::Exit { outcome: SessionOutcome::AcquireFatal });
    assert_eq!(c.phase, Phase::Terminated { outcome: SessionOutcome::AcquireFatal });
    let released = c.shutdown();
    assert_eq!(released.len(), 9);
}

#[test]
fn fatal_recreate_aborts_the_session() {
    let mut c = new_controller();
    c.step(DriverEvent::PreviousFrameStatus { finished: true });
    c.step(DriverEvent::AcquireOutOfDate);
    c.step(DriverEvent::PreviousFrameStatus { finished: false });
    let a = c.step(DriverEvent::RecreateFailed);
    assert_eq!(a, Action::Exit { outcome: SessionOutcome::SwapchainFatal });
    assert_eq!(c.phase, Phase::Terminated { outcome: SessionOutcome::SwapchainFatal });
}

#[test]
fn no_device_means_no_session() {
    let devices = vec![PhysicalDeviceCaps {
        queue_families: vec![QueueFamilyCaps { supports_graphics: true, supports_present: false }],
    }];
    let caps = SurfaceCaps {
        min_image_count: 2,
        formats: vec![10],
        alpha_modes: vec![1],
        present_modes: vec![2],
        current_extent: None,
    };
    let r = FrameLoopController::new(&devices, &caps, Extent { width: 800, height: 600 });
    assert!(r.is_err());
}
