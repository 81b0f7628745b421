//! Teardown ordering: a destroy list that records resources in creation
//! order and hands them back in reverse, plus the fixed creation order of
//! the extent-dependent resource batch.
//!
//! Destruction of any composite object must happen in the reverse order of
//! its dependencies; recording creations as they happen and unwinding the
//! record guarantees that no resource is forgotten as the set grows.

use vstd::prelude::*;

verus! {

/// One kind of extent-dependent resource, rebuilt on every swapchain
/// reconstruction.
#[derive(Clone, Copy, Debug, PartialEq, Eq, Structural)]
pub enum ResourceKind {
    Swapchain,
    ImageViews,
    RenderPass,
    Pipeline,
    DepthResources,
    Framebuffers,
    UniformBuffers,
    DescriptorPool,
    CommandBuffers,
}

/// A recorded resource: its kind and the application's raw handle value.
#[derive(Clone, Copy, Debug, PartialEq, Eq, Structural)]
pub struct ResourceEntry {
    pub kind: ResourceKind,
    pub raw: u64,
}

/// A stack-like record of resources in creation order.
#[derive(Clone, Debug)]
pub struct DestroyList {
    entries: Vec<ResourceEntry>,
}

impl View for DestroyList {
    type V = Seq<ResourceEntry>;

    closed spec fn view(&self) -> Seq<ResourceEntry> {
        self.entries@
    }
}

impl DestroyList {
    /// An empty record.
    pub fn new() -> (r: DestroyList)
        ensures
            r@ == Seq::<ResourceEntry>::empty(),
    {
        DestroyList { entries: Vec::new() }
    }

    /// Records one resource as created, after everything recorded so far.
    pub fn record(&mut self, entry: ResourceEntry)
        ensures
            final(self)@ == old(self)@.push(entry),
    {
        self.entries.push(entry);
    }

    /// How many resources are recorded.
    pub fn len(&self) -> (r: usize)
        ensures
            r == self@.len(),
    {
        self.entries.len()
    }

    /// Hands every recorded resource back in reverse creation order and
    /// empties the record: the order in which they must be destroyed.
    pub fn drain_reverse(&mut self) -> (r: Vec<ResourceEntry>)
        ensures
            r@ == old(self)@.reverse(),
            final(self)@ == Seq::<ResourceEntry>::empty(),
    {
        let mut r: Vec<ResourceEntry> = Vec::new();
        let n = self.entries.len();
        let mut i: usize = 0;
        while i < n
            invariant
                n == self.entries@.len(),
                0 <= i <= n,
                r@.len() == i,
                forall|j: int| 0 <= j < i ==> r@[j] == self.entries@[n - 1 - j],
            decreases n - i,
        {
            r.push(self.entries[n - 1 - i]);
            i += 1;
        }
        assert(r@ =~= self.entries@.reverse());
        self.entries = Vec::new();
        r
    }
}

/// The order in which the extent-dependent batch is created on every
/// swapchain build.
pub open spec fn creation_order() -> Seq<ResourceKind> {
    seq![
        ResourceKind::Swapchain,
        ResourceKind::ImageViews,
        ResourceKind::RenderPass,
        ResourceKind::Pipeline,
        ResourceKind::DepthResources,
        ResourceKind::Framebuffers,
        ResourceKind::UniformBuffers,
        ResourceKind::DescriptorPool,
        ResourceKind::CommandBuffers,
    ]
}

/// The order in which the extent-dependent batch must be destroyed:
/// exactly the reverse of the order in which it is created.
pub fn swapchain_teardown_order() -> (r: Vec<ResourceKind>)
    ensures
        r@ == creation_order().reverse(),
{
    let mut r: Vec<ResourceKind> = Vec::new();
    r.push(ResourceKind::CommandBuffers);
    r.push(ResourceKind::DescriptorPool);
    r.push(ResourceKind::UniformBuffers);
    r.push(ResourceKind::Framebuffers);
    r.push(ResourceKind::DepthResources);
    r.push(ResourceKind::Pipeline);
    r.push(ResourceKind::RenderPass);
    r.push(ResourceKind::ImageViews);
    r.push(ResourceKind::Swapchain);
    assert(r@ =~= creation_order().reverse());
    r
}

} // verus!
