use vstd::prelude::*;

use crate::swapchain::SwapchainState;

verus! {

/// One render target per image of one swapchain generation, bound to the
/// session's fixed render-pass description. The set carries the generation
/// tag of the chain it was built from: a set whose tag differs from the
/// current chain's is stale and must never be rendered against.
#[derive(Clone, Copy, PartialEq, Eq, Structural, Debug)]
pub struct FramebufferSet {
    pub generation: u64,
    pub image_count: usize,
}

impl FramebufferSet {
    /// This set was derived from chain `s`: same generation, one render
    /// target per presentable image.
    pub open spec fn built_for(&self, s: SwapchainState) -> bool {
        &&& self.generation == s.generation
        &&& self.image_count == s.image_count
    }

    /// Builds the render targets for every image of chain `state`.
    pub fn build_for(state: &SwapchainState) -> (fb: FramebufferSet)
        ensures
            fb.built_for(*state),
    {
        FramebufferSet { generation: state.generation, image_count: state.image_count as usize }
    }
}

/// Law: rebuilding the render targets for a recreated chain never yields the
/// old identity. Sets built for chains of different generations are
/// distinguishable — in particular, the set built after the Nth recreation
/// differs from the one before it.
pub proof fn lemma_rebuilt_framebuffers_are_fresh(
    fb_old: FramebufferSet,
    fb_new: FramebufferSet,
    s_old: SwapchainState,
    s_new: SwapchainState,
)
    requires
        fb_old.built_for(s_old),
        fb_new.built_for(s_new),
        s_new.generation != s_old.generation,
    ensures
        fb_new.generation != fb_old.generation,
        fb_new != fb_old,
{
}

} // verus!
