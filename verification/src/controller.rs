use vstd::pervasive::unreached;
use vstd::prelude::*;

use crate::commands::{fixed_draw_commands, record_frame_commands, RenderCommand};
use crate::device::{
    device_qualifies, family_qualifies, DeviceContext, DeviceError, PhysicalDeviceCaps,
};
use crate::events::EventSummary;
use crate::framebuffer::FramebufferSet;
use crate::resources::{ResourceKind, ResourceLedger};
use crate::surface::{Extent, SurfaceCaps};
use crate::swapchain::{chosen_extent, PresentMode, SwapchainManager, SwapchainState};
use crate::sync::{CompletionFuture, FrameDependency, FrameSyncTracker};

verus! {

/// The terminal status a session reports to whatever triggered it. Only
/// fatal driver conditions end a session early; everything recoverable or
/// transient is absorbed inside the loop.
#[derive(Clone, Copy, PartialEq, Eq, Structural, Debug)]
pub enum SessionOutcome {
    Completed,
    AcquireFatal,
    SwapchainFatal,
}

/// Where the controller stands inside one frame iteration.
#[derive(Clone, Copy, PartialEq, Eq, Structural, Debug)]
pub enum Phase {
    IterationStart,
    Recreating,
    Acquiring,
    Submitting { image_index: usize, dependency: FrameDependency },
    Presenting { image_index: usize, completion: CompletionFuture },
    Retiring,
    Terminated { outcome: SessionOutcome },
}

/// What the controller asks the host to perform next against the driver or
/// the window system. The host carries the action out and feeds the outcome
/// back as a `DriverEvent`.
#[derive(Clone, PartialEq, Eq, Debug)]
pub enum Action {
    /// Poll the stored previous-frame future without blocking.
    PollPreviousFrame,
    /// Rebuild the swapchain with the given dimensions.
    RecreateSwapchain { extent: Extent },
    /// Acquire the next presentable image.
    AcquireImage,
    /// Submit the recorded commands, gated on the composite dependency.
    SubmitFrame { commands: Vec<RenderCommand>, dependency: FrameDependency, image_index: usize },
    /// Enqueue a present of the image, gated on the frame's completion.
    PresentImage { image_index: usize, wait_id: u64 },
    /// Drain the window event queue without blocking.
    PollWindowEvents,
    /// The session is over; release resources and report the outcome.
    Exit { outcome: SessionOutcome },
}

/// The outcome of the last action, as the host reports it back.
#[derive(Clone, Copy, PartialEq, Eq, Structural, Debug)]
pub enum DriverEvent {
    PreviousFrameStatus { finished: bool },
    RecreateSucceeded,
    RecreateUnsupportedDimensions,
    RecreateFailed,
    ImageAcquired { image_index: usize, acquire_id: u64 },
    AcquireOutOfDate,
    AcquireTimedOut,
    AcquireFailed,
    SubmitCompleted,
    SubmitFailed,
    PresentCompleted,
    PresentOutOfDate,
    PresentFailed,
    EventsPolled { summary: EventSummary },
}

/// Orchestrates the acquire, record, submit, present, retire cycle of one
/// rendering session and reacts to invalidation, resize and close signals.
/// The controller holds every decision; the host only performs the actions
/// and reports their outcomes.
pub struct FrameLoopController {
    pub device: DeviceContext,
    pub swapchain: SwapchainManager,
    pub framebuffers: FramebufferSet,
    pub tracker: FrameSyncTracker,
    pub viewport: Extent,
    pub recreate_needed: bool,
    pub phase: Phase,
    pub ledger: ResourceLedger,
}

impl FrameLoopController {
    /// The controller's invariant, preserved by every step:
    /// - the device, swapchain, tracker and ledger invariants hold;
    /// - a swapchain exists, and the framebuffers were built for its current
    ///   generation — never for a superseded one;
    /// - every join has been consumed by exactly one submission;
    /// - the recreate flag is set exactly while the chain stands invalidated
    ///   or mid-recreation;
    /// - frames are only in flight (acquired, submitted, presented) against
    ///   a valid chain, and their image index stays in range.
    pub open spec fn wf(&self) -> bool {
        &&& self.device.wf()
        &&& self.swapchain.wf()
        &&& self.tracker.wf()
        &&& self.ledger.wf()
        &&& self.swapchain.current is Some
        &&& self.framebuffers.built_for(self.swapchain.state())
        &&& self.tracker.joins@.len() == self.tracker.submissions@.len()
        &&& (if self.phase is Submitting || self.phase is Presenting {
            self.tracker.stores@.len() + 1 == self.tracker.submissions@.len()
        } else {
            self.tracker.stores@.len() == self.tracker.submissions@.len()
        })
        &&& forall|n: int|
            0 <= n < self.tracker.submissions@.len()
                ==> self.tracker.submissions@[n].previous_frame_id == (if n == 0 {
                0u64
            } else {
                self.tracker.stores@[n - 1]
            })
        &&& (self.recreate_needed <==> (self.swapchain.status is Invalidated
            || self.swapchain.status is Recreating))
        &&& (self.phase is IterationStart ==> (self.swapchain.status is Valid
            || self.swapchain.status is Invalidated))
        &&& (self.phase is Recreating ==> self.swapchain.status is Recreating)
        &&& (self.phase is Acquiring ==> self.swapchain.status is Valid)
        &&& (self.phase matches Phase::Submitting { image_index, .. } ==> (
            self.swapchain.status is Valid && image_index < self.framebuffers.image_count))
        &&& (self.phase matches Phase::Presenting { image_index, .. } ==> (
            self.swapchain.status is Valid && image_index < self.framebuffers.image_count))
        &&& (self.phase is Retiring ==> (self.swapchain.status is Valid
            || self.swapchain.status is Invalidated))
    }

    /// The generation and future counters have room left; forced by the
    /// machine word size, not by the design.
    pub open spec fn counters_have_headroom(&self) -> bool {
        &&& self.device.next_future_id < u64::MAX
        &&& self.swapchain.generation() < u64::MAX
    }

    /// Which outcome the controller can be handed in its current phase: the
    /// outcome of the action it asked for last.
    pub open spec fn event_expected(&self, ev: DriverEvent) -> bool {
        match self.phase {
            Phase::IterationStart => ev is PreviousFrameStatus,
            Phase::Recreating => ev is RecreateSucceeded || ev is RecreateUnsupportedDimensions
                || ev is RecreateFailed,
            Phase::Acquiring => (ev matches DriverEvent::ImageAcquired { image_index, .. }
                && image_index < self.framebuffers.image_count) || ev is AcquireOutOfDate
                || ev is AcquireTimedOut || ev is AcquireFailed,
            Phase::Submitting { .. } => ev is SubmitCompleted || ev is SubmitFailed,
            Phase::Presenting { .. } => ev is PresentCompleted || ev is PresentOutOfDate
                || ev is PresentFailed,
            Phase::Retiring => ev is EventsPolled,
            Phase::Terminated { .. } => false,
        }
    }

    /// Starts one session: selects the first device offering graphics and
    /// presentation (first qualifying queue family within it), builds the
    /// first swapchain generation by the documented tie-break — first
    /// supported format, first supported alpha mode, reported current extent
    /// or `preferred_extent` — derives its render targets, and arms the
    /// synchronization tracker with an already-satisfied future.
    pub fn new(devices: &Vec<PhysicalDeviceCaps>, caps: &SurfaceCaps, preferred_extent: Extent)
        -> (r: Result<FrameLoopController, DeviceError>)
        requires
            caps.usable(),
        ensures
            match r {
                Ok(c) => {
                    &&& c.wf()
                    &&& c.phase is IterationStart
                    &&& !c.recreate_needed
                    &&& c.swapchain.status is Valid
                    &&& c.swapchain.state() == (SwapchainState {
                        generation: 1u64,
                        image_count: caps.min_image_count,
                        extent: chosen_extent(*caps, preferred_extent),
                        format: caps.formats[0],
                        alpha_mode: caps.alpha_modes[0],
                        present_mode: PresentMode::Fifo,
                    })
                    &&& c.framebuffers.built_for(c.swapchain.state())
                    &&& c.viewport == chosen_extent(*caps, preferred_extent)
                    &&& c.tracker.previous_frame.satisfied
                    &&& c.tracker.previous_frame.id == 0
                    &&& c.tracker.joins@ == Seq::<FrameDependency>::empty()
                    &&& c.tracker.submissions@ == Seq::<FrameDependency>::empty()
                    &&& c.tracker.stores@ == Seq::<u64>::empty()
                    &&& c.ledger.created@ == crate::resources::session_creation_order()
                    &&& c.device.next_future_id == 1
                    &&& c.device.device_index < devices.len()
                    &&& device_qualifies(devices[c.device.device_index as int])
                    &&& forall|i: int|
                        0 <= i < c.device.device_index ==> !device_qualifies(devices[i])
                    &&& c.device.queue_family_index
                        < devices[c.device.device_index as int].queue_families.len()
                    &&& family_qualifies(
                        devices[c.device.device_index as int].queue_families[
                            c.device.queue_family_index as int],
                    )
                },
                Err(e) => {
                    &&& e == DeviceError::DeviceUnavailable
                    &&& forall|i: int| 0 <= i < devices.len() ==> !device_qualifies(devices[i])
                },
            },
    {
        let device = match DeviceContext::init(devices) {
            Ok(d) => d,
            Err(e) => {
                return Err(e);
            },
        };
        let mut swapchain = SwapchainManager::new();
        swapchain.create(caps, preferred_extent);
        let state = swapchain.current.unwrap();
        let framebuffers = FramebufferSet::build_for(&state);
        let tracker = FrameSyncTracker::new();
        let ledger = ResourceLedger::for_session();
        Ok(FrameLoopController {
            device,
            swapchain,
            framebuffers,
            tracker,
            viewport: state.extent,
            recreate_needed: false,
            phase: Phase::IterationStart,
            ledger,
        })
    }

    /// The first action of every iteration: poll the previous frame's future
    /// without blocking, so finished bookkeeping is released before new work
    /// is scheduled.
    pub fn first_action(&self) -> (a: Action)
        requires
            self.phase is IterationStart,
        ensures
            a == Action::PollPreviousFrame,
    {
        Action::PollPreviousFrame
    }

    /// Advances the loop by one event. The returned action is the next thing
    /// the host must perform. The contract pins, case by case: how the
    /// tracker, the recreate flag, the chain and the phase move, and which
    /// action comes out.
    pub fn step(&mut self, ev: DriverEvent) -> (action: Action)
        requires
            old(self).wf(),
            old(self).event_expected(ev),
            old(self).counters_have_headroom(),
        ensures
            final(self).wf(),
            final(self).device.device_index == old(self).device.device_index,
            final(self).device.queue_family_index == old(self).device.queue_family_index,
            final(self).ledger.created@ == old(self).ledger.created@,
            final(self).swapchain.state().format == old(self).swapchain.state().format,
            final(self).swapchain.state().alpha_mode == old(self).swapchain.state().alpha_mode,
            final(self).swapchain.state().image_count == old(self).swapchain.state().image_count,
            final(self).swapchain.state().present_mode == old(self).swapchain.state().present_mode,
            final(self).swapchain.generation() >= old(self).swapchain.generation(),
            !(ev is EventsPolled) ==> final(self).viewport == old(self).viewport,
            !(ev is SubmitCompleted) ==> final(self).device == old(self).device,
            !(ev is RecreateSucceeded) ==> (final(self).swapchain.current == old(self).swapchain.current && final(self).framebuffers == old(self).framebuffers),
            !(ev is ImageAcquired) ==> (final(self).tracker.joins@ == old(self).tracker.joins@
                && final(self).tracker.submissions@ == old(self).tracker.submissions@),
            !(ev is PresentCompleted || ev is PresentOutOfDate || ev is SubmitFailed
                || ev is PresentFailed) ==> final(self).tracker.stores@ == old(
                self,
            ).tracker.stores@,
            ev matches DriverEvent::PreviousFrameStatus { finished } ==> ({
                &&& final(self).tracker.previous_frame.id == old(self).tracker.previous_frame.id
                &&& final(self).tracker.previous_frame.satisfied == (old(self).tracker.previous_frame.satisfied || finished)
                &&& final(self).recreate_needed == old(self).recreate_needed
                &&& (if old(self).recreate_needed {
                    action == (Action::RecreateSwapchain { extent: old(self).viewport })
                        && final(self).phase is Recreating
                } else {
                    action == Action::AcquireImage && final(self).phase is Acquiring
                })
            }),
            ev is RecreateSucceeded ==> ({
                &&& final(self).swapchain.status is Valid
                &&& final(self).swapchain.generation() == old(self).swapchain.generation() + 1
                &&& final(self).swapchain.state().extent == old(self).viewport
                &&& final(self).framebuffers.built_for(final(self).swapchain.state())
                &&& !final(self).recreate_needed
                &&& final(self).tracker == old(self).tracker
                &&& final(self).phase is Acquiring
                &&& action == Action::AcquireImage
            }),
            ev is RecreateUnsupportedDimensions ==> ({
                &&& *final(self) == *old(self)
                &&& action == (Action::RecreateSwapchain { extent: old(self).viewport })
            }),
            ev is RecreateFailed ==> ({
                &&& final(self).phase == (Phase::Terminated {
                    outcome: SessionOutcome::SwapchainFatal,
                })
                &&& action == (Action::Exit { outcome: SessionOutcome::SwapchainFatal })
                &&& final(self).tracker == old(self).tracker
            }),
            ev matches DriverEvent::ImageAcquired { image_index, acquire_id } ==> ({
                let dep = FrameDependency {
                    previous_frame_id: old(self).tracker.previous_frame.id,
                    acquire_id,
                };
                &&& final(self).tracker.previous_frame == old(self).tracker.previous_frame
                &&& final(self).tracker.joins@ == old(self).tracker.joins@.push(dep)
                &&& final(self).tracker.submissions@ == old(self).tracker.submissions@.push(dep)
                &&& final(self).phase == (Phase::Submitting { image_index, dependency: dep })
                &&& final(self).recreate_needed == old(self).recreate_needed
                &&& (action matches Action::SubmitFrame { commands, dependency, image_index: target }
                    && commands@ == fixed_draw_commands(
                        old(self).framebuffers,
                        image_index,
                        old(self).viewport,
                    ) && dependency == dep && target == image_index)
            }),
            ev is AcquireOutOfDate ==> ({
                &&& final(self).recreate_needed
                &&& final(self).swapchain.status is Invalidated
                &&& final(self).tracker == old(self).tracker
                &&& final(self).phase is IterationStart
                &&& action == Action::PollPreviousFrame
            }),
            ev is AcquireTimedOut ==> ({
                &&& final(self).tracker == old(self).tracker
                &&& final(self).recreate_needed == old(self).recreate_needed
                &&& final(self).swapchain.status == old(self).swapchain.status
                &&& final(self).phase is IterationStart
                &&& action == Action::PollPreviousFrame
            }),
            ev is AcquireFailed ==> ({
                &&& final(self).phase == (Phase::Terminated {
                    outcome: SessionOutcome::AcquireFatal,
                })
                &&& action == (Action::Exit { outcome: SessionOutcome::AcquireFatal })
                &&& final(self).tracker == old(self).tracker
            }),
            ev is SubmitCompleted ==> ({
                &&& old(self).phase matches Phase::Submitting { image_index, .. }
                &&& final(self).phase == (Phase::Presenting {
                    image_index,
                    completion: (CompletionFuture {
                        id: old(self).device.next_future_id,
                        satisfied: false,
                    }),
                })
                &&& action == (Action::PresentImage {
                    image_index,
                    wait_id: old(self).device.next_future_id,
                })
                &&& final(self).device.next_future_id == old(self).device.next_future_id + 1
                &&& final(self).tracker == old(self).tracker
                &&& final(self).recreate_needed == old(self).recreate_needed
            }),
            ev is SubmitFailed ==> ({
                &&& final(self).tracker.previous_frame.satisfied
                &&& final(self).tracker.previous_frame.id == 0
                &&& final(self).tracker.stores@ == old(self).tracker.stores@.push(0)
                &&& final(self).recreate_needed == old(self).recreate_needed
                &&& final(self).phase is Retiring
                &&& action == Action::PollWindowEvents
            }),
            ev is PresentCompleted ==> ({
                &&& old(self).phase matches Phase::Presenting { completion, .. }
                &&& final(self).tracker.previous_frame == completion
                &&& final(self).tracker.stores@ == old(self).tracker.stores@.push(completion.id)
                &&& final(self).recreate_needed == old(self).recreate_needed
                &&& final(self).swapchain.status == old(self).swapchain.status
                &&& final(self).phase is Retiring
                &&& action == Action::PollWindowEvents
            }),
            ev is PresentOutOfDate ==> ({
                &&& old(self).phase matches Phase::Presenting { completion, .. }
                &&& final(self).tracker.previous_frame == completion
                &&& final(self).tracker.stores@ == old(self).tracker.stores@.push(completion.id)
                &&& final(self).recreate_needed
                &&& final(self).swapchain.status is Invalidated
                &&& final(self).phase is Retiring
                &&& action == Action::PollWindowEvents
            }),
            ev is PresentFailed ==> ({
                &&& final(self).tracker.previous_frame.satisfied
                &&& final(self).tracker.previous_frame.id == 0
                &&& final(self).tracker.stores@ == old(self).tracker.stores@.push(0)
                &&& final(self).recreate_needed == old(self).recreate_needed
                &&& final(self).swapchain.status == old(self).swapchain.status
                &&& final(self).phase is Retiring
                &&& action == Action::PollWindowEvents
            }),
            ev matches DriverEvent::EventsPolled { summary } ==> ({
                &&& (summary.resize matches Some(e) ==> final(self).viewport == e && final(self).recreate_needed)
                &&& (summary.resize is None ==> final(self).viewport == old(self).viewport
                    && final(self).recreate_needed == old(self).recreate_needed)
                &&& final(self).tracker == old(self).tracker
                &&& (if summary.close_requested {
                    final(self).phase == (Phase::Terminated { outcome: SessionOutcome::Completed })
                        && action == (Action::Exit { outcome: SessionOutcome::Completed })
                } else {
                    final(self).phase is IterationStart && action == Action::PollPreviousFrame
                })
            }),
    {
        match ev {
            DriverEvent::PreviousFrameStatus { finished } => {
                self.tracker.cleanup_finished(finished);
                if self.recreate_needed {
                    self.swapchain.begin_recreate();
                    self.phase = Phase::Recreating;
                    Action::RecreateSwapchain { extent: self.viewport }
                } else {
                    self.phase = Phase::Acquiring;
                    Action::AcquireImage
                }
            },
            DriverEvent::RecreateSucceeded => {
                self.swapchain.complete_recreate(self.viewport);
                let state = self.swapchain.current.unwrap();
                self.framebuffers = FramebufferSet::build_for(&state);
                self.recreate_needed = false;
                self.phase = Phase::Acquiring;
                Action::AcquireImage
            },
            DriverEvent::RecreateUnsupportedDimensions => {
                self.swapchain.recreate_unsupported();
                Action::RecreateSwapchain { extent: self.viewport }
            },
            DriverEvent::RecreateFailed => {
                self.phase = Phase::Terminated { outcome: SessionOutcome::SwapchainFatal };
                Action::Exit { outcome: SessionOutcome::SwapchainFatal }
            },
            DriverEvent::ImageAcquired { image_index, acquire_id } => {
                let dependency = self.tracker.join(acquire_id);
                self.tracker.record_submission(dependency);
                let commands = record_frame_commands(&self.framebuffers, image_index, self.viewport);
                self.phase = Phase::Submitting { image_index, dependency };
                Action::SubmitFrame { commands, dependency, image_index }
            },
            DriverEvent::AcquireOutOfDate => {
                self.swapchain.invalidate();
                self.recreate_needed = true;
                self.phase = Phase::IterationStart;
                Action::PollPreviousFrame
            },
            DriverEvent::AcquireTimedOut => {
                self.phase = Phase::IterationStart;
                Action::PollPreviousFrame
            },
            DriverEvent::AcquireFailed => {
                self.phase = Phase::Terminated { outcome: SessionOutcome::AcquireFatal };
                Action::Exit { outcome: SessionOutcome::AcquireFatal }
            },
            DriverEvent::SubmitCompleted => {
                let completion = self.device.mint_completion_future();
                match self.phase {
                    Phase::Submitting { image_index, .. } => {
                        self.phase = Phase::Presenting { image_index, completion };
                        Action::PresentImage { image_index, wait_id: completion.id }
                    },
                    _ => unreached(),
                }
            },
            DriverEvent::SubmitFailed => {
                self.tracker.resynchronize();
                self.phase = Phase::Retiring;
                Action::PollWindowEvents
            },
            DriverEvent::PresentCompleted => {
                match self.phase {
                    Phase::Presenting { completion, .. } => {
                        let _discarded = self.tracker.retire_and_wait(completion);
                        self.phase = Phase::Retiring;
                        Action::PollWindowEvents
                    },
                    _ => unreached(),
                }
            },
            DriverEvent::PresentOutOfDate => {
                match self.phase {
                    Phase::Presenting { completion, .. } => {
                        let _discarded = self.tracker.retire_and_wait(completion);
                        self.swapchain.invalidate();
                        self.recreate_needed = true;
                        self.phase = Phase::Retiring;
                        Action::PollWindowEvents
                    },
                    _ => unreached(),
                }
            },
            DriverEvent::PresentFailed => {
                self.tracker.resynchronize();
                self.phase = Phase::Retiring;
                Action::PollWindowEvents
            },
            DriverEvent::EventsPolled { summary } => {
                match summary.resize {
                    Some(e) => {
                        self.viewport = e;
                        if !self.recreate_needed {
                            self.swapchain.invalidate();
                            self.recreate_needed = true;
                        }
                    },
                    None => {},
                }
                if summary.close_requested {
                    self.phase = Phase::Terminated { outcome: SessionOutcome::Completed };
                    Action::Exit { outcome: SessionOutcome::Completed }
                } else {
                    self.phase = Phase::IterationStart;
                    Action::PollPreviousFrame
                }
            },
        }
    }

    /// Tears the session down once the loop has terminated: every resource
    /// is released exactly once, in strict reverse-creation order, and none
    /// is left dangling.
    pub fn shutdown(&mut self) -> (order: Vec<ResourceKind>)
        requires
            old(self).wf(),
            old(self).phase is Terminated,
        ensures
            final(self).wf(),
            final(self).phase == old(self).phase,
            final(self).ledger.created@.len() == 0,
            order@.len() == old(self).ledger.created@.len(),
            forall|i: int|
                0 <= i < order@.len() ==> order@[i] == old(self).ledger.created@[old(self).ledger.created@.len() - 1 - i],
            forall|i: int, j: int| 0 <= i < j < order@.len() ==> order@[i] != order@[j],
    {
        self.ledger.shutdown()
    }
}

/// Law: the frame loop never targets a framebuffer set built from a
/// superseded swapchain generation. In every reachable controller state the
/// render targets carry the current chain's generation tag, so every
/// acquire, submission and present names current targets alone.
pub proof fn lemma_render_targets_never_stale(c: FrameLoopController)
    requires
        c.wf(),
    ensures
        c.framebuffers.built_for(c.swapchain.state()),
        c.framebuffers.generation == c.swapchain.generation(),
{
}

/// Law: cross-frame ordering. The first frame's submission waits on the
/// initial, already-satisfied future; every later frame's submission waits
/// on exactly the future stored when the frame before it was handled — that
/// frame's completion future at retire, or the already-satisfied reset after
/// it failed. No frame's commands start before the previous frame's
/// completion future was joined into its dependency.
pub proof fn lemma_submission_waits_on_previous_frame(c: FrameLoopController)
    requires
        c.wf(),
    ensures
        forall|n: int|
            0 <= n < c.tracker.submissions@.len()
                ==> c.tracker.submissions@[n].previous_frame_id == (if n == 0 {
                0u64
            } else {
                c.tracker.stores@[n - 1]
            }),
{
}

/// Law: the controller issues one submission per join, in order: the
/// histories agree entry by entry, so a frame's commands are never submitted
/// before the previous frame's completion future was joined with the new
/// image's readiness.
pub proof fn lemma_one_submission_per_join(c: FrameLoopController)
    requires
        c.wf(),
    ensures
        c.tracker.joins@.len() == c.tracker.submissions@.len(),
        forall|n: int|
            0 <= n < c.tracker.submissions@.len() ==> c.tracker.submissions@[n]
                == c.tracker.joins@[n],
{
}

} // verus!
