//! The launch configuration of a kernel function and the dispatch packet built
//! from it.
use vstd::prelude::*;
use crate::codegen::CodegenDesc;
use crate::launch::LaunchPlan;
use crate::grid::Dim3D;

verus! {

/// The scope of the memory fence the command processor runs around a dispatch.
#[derive(Clone, Copy, Debug, PartialEq, Eq, Structural)]
pub enum FenceScope {
    /// Fence at system scope: host-visible writes are synchronized.
    System,
    /// Fence at device scope only.
    Agent,
    /// No fence at all.
    NoFence,
}

/// A kernel function's launch configuration: the dynamic segment sizes added to
/// the compiled kernel's own, and the fences around each dispatch. Both fences
/// start at system scope.
#[derive(Clone, Copy, Debug)]
pub struct FuncModule {
    /// Extra workgroup (group) segment bytes per dispatch.
    pub dynamic_group_size: u32,
    /// Extra private segment bytes per workitem.
    pub dynamic_private_size: u32,
    begin_fence: FenceScope,
    end_fence: FenceScope,
}

/// A kernel dispatch packet, as enqueued on a device queue.
#[derive(Clone, Copy, Debug, PartialEq, Eq, Structural)]
pub struct DispatchPacket {
    pub workgroup_size: Dim3D<u16>,
    pub grid_size: Dim3D<u32>,
    pub group_segment_size: u32,
    pub private_segment_size: u32,
    /// The fence run before the dispatch's waves launch.
    pub scacquire_scope: FenceScope,
    /// The fence run before the completion signal is decremented.
    pub screlease_scope: FenceScope,
    /// Whether later packets wait for this one (it has no completion signal).
    pub ordered: bool,
    pub kernel_object: u64,
}

impl FuncModule {
    /// The fence before launch.
    pub closed spec fn acquire_spec(&self) -> FenceScope { self.begin_fence }

    /// The fence before completion.
    pub closed spec fn release_spec(&self) -> FenceScope { self.end_fence }

    /// The dynamic workgroup segment size.
    pub closed spec fn group_dyn(&self) -> u32 { self.dynamic_group_size }

    /// The dynamic private segment size.
    pub closed spec fn private_dyn(&self) -> u32 { self.dynamic_private_size }

    /// A configuration with no dynamic segments and system scope fences.
    pub fn new() -> (r: FuncModule)
        ensures
            r.group_dyn() == 0,
            r.private_dyn() == 0,
            r.acquire_spec() == FenceScope::System,
            r.release_spec() == FenceScope::System,
    {
        FuncModule {
            dynamic_group_size: 0,
            dynamic_private_size: 0,
            begin_fence: FenceScope::System,
            end_fence: FenceScope::System,
        }
    }

    fn set_acquire_fence(&mut self, scope: FenceScope)
        ensures
            final(self).acquire_spec() == scope,
            final(self).release_spec() == old(self).release_spec(),
            final(self).group_dyn() == old(self).group_dyn(),
            final(self).private_dyn() == old(self).private_dyn(),
    {
        self.begin_fence = scope;
    }

    /// The fence run before the dispatch's waves launch.
    pub fn acquire_fence(&self) -> (r: FenceScope)
        ensures r == self.acquire_spec(),
    {
        self.begin_fence
    }

    /// Fence at system scope before launch (the default, and the safe choice).
    pub fn system_acquire_fence(&mut self)
        ensures
            final(self).acquire_spec() == FenceScope::System,
            final(self).release_spec() == old(self).release_spec(),
            final(self).group_dyn() == old(self).group_dyn(),
            final(self).private_dyn() == old(self).private_dyn(),
    {
        self.set_acquire_fence(FenceScope::System);
    }

    /// Fence at device scope only before launch: host writes are not synchronized.
    pub fn device_acquire_fence(&mut self)
        ensures
            final(self).acquire_spec() == FenceScope::Agent,
            final(self).release_spec() == old(self).release_spec(),
            final(self).group_dyn() == old(self).group_dyn(),
            final(self).private_dyn() == old(self).private_dyn(),
    {
        self.set_acquire_fence(FenceScope::Agent);
    }

    /// No fence before launch.
    pub fn no_acquire_fence(&mut self)
        ensures
            final(self).acquire_spec() == FenceScope::NoFence,
            final(self).release_spec() == old(self).release_spec(),
            final(self).group_dyn() == old(self).group_dyn(),
            final(self).private_dyn() == old(self).private_dyn(),
    {
        self.set_acquire_fence(FenceScope::NoFence);
    }

    fn set_release_fence(&mut self, scope: FenceScope)
        ensures
            final(self).release_spec() == scope,
            final(self).acquire_spec() == old(self).acquire_spec(),
            final(self).group_dyn() == old(self).group_dyn(),
            final(self).private_dyn() == old(self).private_dyn(),
    {
        self.end_fence = scope;
    }

    /// The fence run before the completion signal is decremented.
    pub fn release_fence(&self) -> (r: FenceScope)
        ensures r == self.release_spec(),
    {
        self.end_fence
    }

    /// Fence at system scope before completion (the default, and the safe choice).
    pub fn system_release_fence(&mut self)
        ensures
            final(self).release_spec() == FenceScope::System,
            final(self).acquire_spec() == old(self).acquire_spec(),
            final(self).group_dyn() == old(self).group_dyn(),
            final(self).private_dyn() == old(self).private_dyn(),
    {
        self.set_release_fence(FenceScope::System);
    }

    /// Fence at device scope only before completion.
    pub fn device_release_fence(&mut self)
        ensures
            final(self).release_spec() == FenceScope::Agent,
            final(self).acquire_spec() == old(self).acquire_spec(),
            final(self).group_dyn() == old(self).group_dyn(),
            final(self).private_dyn() == old(self).private_dyn(),
    {
        self.set_release_fence(FenceScope::Agent);
    }

    /// No fence before completion.
    pub fn no_release_fence(&mut self)
        ensures
            final(self).release_spec() == FenceScope::NoFence,
            final(self).acquire_spec() == old(self).acquire_spec(),
            final(self).group_dyn() == old(self).group_dyn(),
            final(self).private_dyn() == old(self).private_dyn(),
    {
        self.set_release_fence(FenceScope::NoFence);
    }

    /// The workgroup segment size of a dispatch: the compiled kernel's plus the
    /// dynamic part.
    pub fn group_size(&self, desc: &CodegenDesc) -> (r: u32)
        requires desc.group_segment_size + self.group_dyn() <= u32::MAX,
        ensures r == desc.group_segment_size + self.group_dyn(),
    {
        desc.group_segment_size as u32 + self.dynamic_group_size
    }

    /// The private segment size of a dispatch: the compiled kernel's plus the
    /// dynamic part.
    pub fn private_size(&self, desc: &CodegenDesc) -> (r: u32)
        requires desc.private_segment_size + self.private_dyn() <= u32::MAX,
        ensures r == desc.private_segment_size + self.private_dyn(),
    {
        desc.private_segment_size as u32 + self.dynamic_private_size
    }

    /// The dispatch packet of a planned launch of the compiled kernel: the plan's
    /// workgroup and rounded grid, the segment sizes, this configuration's fences,
    /// and ordered exactly when there is no completion signal.
    pub fn dispatch_packet(&self, plan: &LaunchPlan, desc: &CodegenDesc, kernel_object: u64,
        has_completion: bool) -> (r: DispatchPacket)
        requires
            desc.group_segment_size + self.group_dyn() <= u32::MAX,
            desc.private_segment_size + self.private_dyn() <= u32::MAX,
        ensures
            r.workgroup_size == plan.workgroup,
            r.grid_size == plan.grid,
            r.group_segment_size == desc.group_segment_size + self.group_dyn(),
            r.private_segment_size == desc.private_segment_size + self.private_dyn(),
            r.scacquire_scope == self.acquire_spec(),
            r.screlease_scope == self.release_spec(),
            r.ordered == !has_completion,
            r.kernel_object == kernel_object,
    {
        DispatchPacket {
            workgroup_size: plan.workgroup,
            grid_size: plan.grid,
            group_segment_size: self.group_size(desc),
            private_segment_size: self.private_size(desc),
            scacquire_scope: self.begin_fence,
            screlease_scope: self.end_fence,
            ordered: !has_completion,
            kernel_object,
        }
    }
}

/// Launch dimensions: one to three axes of `usize`, with a unit value that every
/// launch starts from.
pub trait LaunchDims: Sized {
    fn default_unit() -> Self;
}

impl LaunchDims for (usize,) {
    fn default_unit() -> (r: Self)
        ensures r == (1usize,),
    {
        (1,)
    }
}

impl LaunchDims for (usize, usize) {
    fn default_unit() -> (r: Self)
        ensures r == (1usize, 1usize),
    {
        (1, 1)
    }
}

impl LaunchDims for (usize, usize, usize) {
    fn default_unit() -> (r: Self)
        ensures r == (1usize, 1usize, 1usize),
    {
        (1, 1, 1)
    }
}

} // verus!
