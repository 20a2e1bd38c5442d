use vstd::prelude::*;

use crate::surface::{Extent, SurfaceCaps};

verus! {

/// How presentation requests are paced. The engine always asks for
/// first-in-first-out presentation, which every driver supports.
#[derive(Clone, Copy, PartialEq, Eq, Structural, Debug)]
pub enum PresentMode {
    Immediate,
    Mailbox,
    Fifo,
    FifoRelaxed,
}

/// One generation of the presentable-image chain: an immutable value,
/// replaced wholesale — never mutated in place — on invalidation or resize.
/// `generation` tags the value; every recreation produces a strictly larger
/// tag, so render targets built for an earlier generation are recognizably
/// stale.
#[derive(Clone, Copy, PartialEq, Eq, Structural, Debug)]
pub struct SwapchainState {
    pub generation: u64,
    pub image_count: u32,
    pub extent: Extent,
    pub format: u32,
    pub alpha_mode: u32,
    pub present_mode: PresentMode,
}

/// Where the manager stands in its lifecycle.
#[derive(Clone, Copy, PartialEq, Eq, Structural, Debug)]
pub enum SwapchainStatus {
    Uninitialized,
    Valid,
    Invalidated,
    Recreating,
}

/// Owns the presentable-image chain bound to one surface. Exactly one
/// `SwapchainState` is current at a time; invalidation and recreation
/// replace it wholesale.
pub struct SwapchainManager {
    pub status: SwapchainStatus,
    pub current: Option<SwapchainState>,
}

/// The extent a new swapchain is built with: the capability report's current
/// extent, or the preferred extent where the platform reports none.
pub open spec fn chosen_extent(caps: SurfaceCaps, preferred: Extent) -> Extent {
    match caps.current_extent {
        Some(e) => e,
        None => preferred,
    }
}

impl SwapchainManager {
    /// A chain exists exactly once the manager has left `Uninitialized`.
    pub open spec fn wf(&self) -> bool {
        self.status is Uninitialized <==> self.current is None
    }

    /// The current chain. Meaningful only once the manager is initialized.
    pub open spec fn state(&self) -> SwapchainState
        recommends
            self.current is Some,
    {
        match self.current {
            Some(s) => s,
            None => SwapchainState {
                generation: 0,
                image_count: 0,
                extent: Extent { width: 0, height: 0 },
                format: 0,
                alpha_mode: 0,
                present_mode: PresentMode::Fifo,
            },
        }
    }

    /// The generation tag of the current chain.
    pub open spec fn generation(&self) -> u64 {
        self.state().generation
    }

    /// A manager with no chain yet.
    pub fn new() -> (m: SwapchainManager)
        ensures
            m.wf(),
            m.status is Uninitialized,
    {
        SwapchainManager { status: SwapchainStatus::Uninitialized, current: None }
    }

    /// Builds the first chain from the surface's capability report. The
    /// selection is a documented tie-break, not a ranking: the first
    /// supported format and the first supported composite-alpha mode, the
    /// driver's minimum image count, first-in-first-out presentation, and
    /// the reported current extent (or `preferred` where none is reported).
    pub fn create(&mut self, caps: &SurfaceCaps, preferred: Extent)
        requires
            old(self).wf(),
            old(self).status is Uninitialized,
            caps.usable(),
        ensures
            final(self).wf(),
            final(self).status is Valid,
            final(self).current is Some,
            final(self).state() == (SwapchainState {
                generation: 1u64,
                image_count: caps.min_image_count,
                extent: chosen_extent(*caps, preferred),
                format: caps.formats[0],
                alpha_mode: caps.alpha_modes[0],
                present_mode: PresentMode::Fifo,
            }),
    {
        let extent = match caps.current_extent {
            Some(e) => e,
            None => preferred,
        };
        let state = SwapchainState {
            generation: 1,
            image_count: caps.min_image_count,
            extent,
            format: caps.formats[0],
            alpha_mode: caps.alpha_modes[0],
            present_mode: PresentMode::Fifo,
        };
        self.status = SwapchainStatus::Valid;
        self.current = Some(state);
    }

    /// Marks the current chain out of date (a resize, or the driver
    /// reporting so). The stale chain stays current until recreation
    /// replaces it.
    pub fn invalidate(&mut self)
        requires
            old(self).wf(),
            old(self).status is Valid,
        ensures
            final(self).wf(),
            final(self).status is Invalidated,
            final(self).current == old(self).current,
    {
        self.status = SwapchainStatus::Invalidated;
    }

    /// Starts rebuilding the chain against the same surface and device.
    pub fn begin_recreate(&mut self)
        requires
            old(self).wf(),
            old(self).status is Invalidated,
        ensures
            final(self).wf(),
            final(self).status is Recreating,
            final(self).current == old(self).current,
    {
        self.status = SwapchainStatus::Recreating;
    }

    /// The driver rejected the requested dimensions — a transient condition
    /// during interactive resizing. The manager stays in `Recreating` so the
    /// same frame iteration retries.
    pub fn recreate_unsupported(&mut self)
        requires
            old(self).wf(),
            old(self).status is Recreating,
        ensures
            final(self).wf(),
            final(self).status is Recreating,
            final(self).current == old(self).current,
    {
    }

    /// The driver rebuilt the chain with `new_extent`. The new generation's
    /// tag is strictly larger than the old one's; image count, format,
    /// alpha mode and present mode carry over from the replaced chain.
    pub fn complete_recreate(&mut self, new_extent: Extent)
        requires
            old(self).wf(),
            old(self).status is Recreating,
            old(self).generation() < u64::MAX,
        ensures
            final(self).wf(),
            final(self).status is Valid,
            final(self).current is Some,
            final(self).state() == (SwapchainState {
                generation: (old(self).generation() + 1) as u64,
                image_count: old(self).state().image_count,
                extent: new_extent,
                format: old(self).state().format,
                alpha_mode: old(self).state().alpha_mode,
                present_mode: old(self).state().present_mode,
            }),
            final(self).generation() > old(self).generation(),
    {
        let prior = self.current.unwrap();
        let state = SwapchainState {
            generation: prior.generation + 1,
            image_count: prior.image_count,
            extent: new_extent,
            format: prior.format,
            alpha_mode: prior.alpha_mode,
            present_mode: prior.present_mode,
        };
        self.status = SwapchainStatus::Valid;
        self.current = Some(state);
    }
}

} // verus!
