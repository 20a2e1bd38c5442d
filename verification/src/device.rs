use vstd::prelude::*;

use crate::sync::CompletionFuture;

verus! {

/// What one queue family of a physical device can do against the target
/// surface.
#[derive(Clone, Copy, PartialEq, Eq, Structural, Debug)]
pub struct QueueFamilyCaps {
    pub supports_graphics: bool,
    pub supports_present: bool,
}

/// What one physical device offers: its queue families, in the driver's
/// enumeration order.
#[derive(Clone, Debug)]
pub struct PhysicalDeviceCaps {
    pub queue_families: Vec<QueueFamilyCaps>,
}

/// A queue family that can both record graphics work and present to the
/// target surface.
pub open spec fn family_qualifies(f: QueueFamilyCaps) -> bool {
    f.supports_graphics && f.supports_present
}

/// A device qualifies when at least one of its queue families does.
pub open spec fn device_qualifies(d: PhysicalDeviceCaps) -> bool {
    exists|j: int| 0 <= j < d.queue_families.len() && family_qualifies(d.queue_families[j])
}

/// The session cannot start: no enumerated device offers both graphics
/// submission and presentation against the target surface.
#[derive(Clone, Copy, PartialEq, Eq, Structural, Debug)]
pub enum DeviceError {
    DeviceUnavailable,
}

/// The logical device of one session: the chosen physical device, the queue
/// family its work queue was created from, and a counter that mints the
/// identities of completion futures returned for submitted work.
#[derive(Clone, Copy, PartialEq, Eq, Structural, Debug)]
pub struct DeviceContext {
    pub device_index: usize,
    pub queue_family_index: usize,
    pub next_future_id: u64,
}

impl DeviceContext {
    /// Every completion future this context has handed out so far has an
    /// identity below the counter, so the next one minted is fresh.
    pub open spec fn wf(&self) -> bool {
        self.next_future_id >= 1
    }

    /// Selects the first enumerated device offering both graphics submission
    /// and presentation, and within it the first such queue family; fails
    /// with `DeviceUnavailable` when no device qualifies.
    pub fn init(devices: &Vec<PhysicalDeviceCaps>) -> (r: Result<DeviceContext, DeviceError>)
        ensures
            match r {
                Ok(ctx) => {
                    &&& ctx.wf()
                    &&& ctx.next_future_id == 1
                    &&& ctx.device_index < devices.len()
                    &&& device_qualifies(devices[ctx.device_index as int])
                    &&& forall|i: int|
                        0 <= i < ctx.device_index ==> !device_qualifies(devices[i])
                    &&& ctx.queue_family_index
                        < devices[ctx.device_index as int].queue_families.len()
                    &&& family_qualifies(
                        devices[ctx.device_index as int].queue_families[
                            ctx.queue_family_index as int],
                    )
                    &&& forall|j: int|
                        0 <= j < ctx.queue_family_index ==> !family_qualifies(
                            devices[ctx.device_index as int].queue_families[j],
                        )
                },
                Err(e) => {
                    &&& e == DeviceError::DeviceUnavailable
                    &&& forall|i: int| 0 <= i < devices.len() ==> !device_qualifies(devices[i])
                },
            },
    {
        let mut i: usize = 0;
        while i < devices.len()
            invariant
                0 <= i <= devices.len(),
                forall|k: int| 0 <= k < i ==> !device_qualifies(devices[k]),
            decreases devices.len() - i,
        {
            let d = &devices[i];
            let mut j: usize = 0;
            while j < d.queue_families.len()
                invariant
                    0 <= j <= d.queue_families.len(),
                    d == devices[i as int],
                    i < devices.len(),
                    forall|k: int| 0 <= k < i ==> !device_qualifies(devices[k]),
                    forall|k: int| 0 <= k < j ==> !family_qualifies(d.queue_families[k]),
                decreases d.queue_families.len() - j,
            {
                let f = d.queue_families[j];
                if f.supports_graphics && f.supports_present {
                    proof {
                        assert(family_qualifies(devices[i as int].queue_families[j as int]));
                        assert(device_qualifies(devices[i as int]));
                    }
                    return Ok(DeviceContext {
                        device_index: i,
                        queue_family_index: j,
                        next_future_id: 1,
                    });
                }
                j += 1;
            }
            assert(!device_qualifies(devices[i as int]));
            i += 1;
        }
        Err(DeviceError::DeviceUnavailable)
    }

    /// Mints the identity of the completion future for newly submitted work:
    /// fresh (above every identity minted before) and not yet satisfied.
    pub fn mint_completion_future(&mut self) -> (f: CompletionFuture)
        requires
            old(self).wf(),
            old(self).next_future_id < u64::MAX,
        ensures
            final(self).wf(),
            f.id == old(self).next_future_id,
            !f.satisfied,
            final(self).next_future_id == old(self).next_future_id + 1,
            final(self).device_index == old(self).device_index,
            final(self).queue_family_index == old(self).queue_family_index,
    {
        let id = self.next_future_id;
        self.next_future_id = self.next_future_id + 1;
        CompletionFuture { id, satisfied: false }
    }
}

} // verus!
