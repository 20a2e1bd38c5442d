use vstd::prelude::*;

verus! {

/// The session-lifetime resources of one rendering session, in the roles the
/// frame loop knows them by.
#[derive(Clone, Copy, PartialEq, Eq, Structural, Debug)]
pub enum ResourceKind {
    Instance,
    Surface,
    Device,
    Swapchain,
    VertexBuffer,
    ShaderModules,
    RenderPass,
    Pipeline,
    Framebuffers,
}

/// The order in which a session brings its resources up. Teardown releases
/// them in exactly the reverse order.
pub open spec fn session_creation_order() -> Seq<ResourceKind> {
    seq![
        ResourceKind::Instance,
        ResourceKind::Surface,
        ResourceKind::Device,
        ResourceKind::Swapchain,
        ResourceKind::VertexBuffer,
        ResourceKind::ShaderModules,
        ResourceKind::RenderPass,
        ResourceKind::Pipeline,
        ResourceKind::Framebuffers,
    ]
}

/// Records which session resources are live, in creation order. Shutdown
/// drains the ledger back to front, so every resource is released exactly
/// once, in strict reverse-creation order, and none is left dangling.
pub struct ResourceLedger {
    pub created: Vec<ResourceKind>,
}

impl ResourceLedger {
    /// No resource is recorded twice, so releasing each entry once releases
    /// each resource exactly once.
    pub open spec fn wf(&self) -> bool {
        forall|i: int, j: int|
            0 <= i < j < self.created@.len() ==> self.created@[i] != self.created@[j]
    }

    /// The ledger of a fully initialized session.
    pub fn for_session() -> (l: ResourceLedger)
        ensures
            l.wf(),
            l.created@ == session_creation_order(),
    {
        let mut created: Vec<ResourceKind> = Vec::new();
        created.push(ResourceKind::Instance);
        created.push(ResourceKind::Surface);
        created.push(ResourceKind::Device);
        created.push(ResourceKind::Swapchain);
        created.push(ResourceKind::VertexBuffer);
        created.push(ResourceKind::ShaderModules);
        created.push(ResourceKind::RenderPass);
        created.push(ResourceKind::Pipeline);
        created.push(ResourceKind::Framebuffers);
        proof {
            assert(created@ =~= session_creation_order());
        }
        ResourceLedger { created }
    }

    /// Releases every live resource, newest first: the returned sequence is
    /// the exact reverse of the creation order, each resource appears in it
    /// exactly once, and nothing stays live afterwards.
    pub fn shutdown(&mut self) -> (order: Vec<ResourceKind>)
        requires
            old(self).wf(),
        ensures
            final(self).created@.len() == 0,
            final(self).wf(),
            order@.len() == old(self).created@.len(),
            forall|i: int|
                0 <= i < order@.len() ==> order@[i] == old(self).created@[old(
                    self,
                ).created@.len() - 1 - i],
            forall|i: int, j: int| 0 <= i < j < order@.len() ==> order@[i] != order@[j],
    {
        let ghost n = old(self).created@.len() as int;
        let mut order: Vec<ResourceKind> = Vec::new();
        while self.created.len() > 0
            invariant
                n == old(self).created@.len(),
                order@.len() + self.created@.len() == n,
                self.created@ == old(self).created@.take(self.created@.len() as int),
                forall|i: int|
                    0 <= i < order@.len() ==> order@[i] == old(self).created@[n - 1 - i],
            decreases self.created.len(),
        {
            let ghost k = self.created@.len() as int;
            let r = self.created.pop().unwrap();
            proof {
                assert(old(self).created@.take(k).drop_last() =~= old(self).created@.take(k - 1));
                assert(r == old(self).created@.take(k)[k - 1]);
            }
            order.push(r);
        }
        proof {
            assert forall|i: int, j: int|
                0 <= i < j < order@.len() implies order@[i] != order@[j] by {
                assert(old(self).created@[n - 1 - j] != old(self).created@[n - 1 - i]);
            }
        }
        order
    }
}

} // verus!
