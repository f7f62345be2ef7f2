//! Workgroup-local (LDS) storage of a kernel, host side: the bookkeeping that
//! decides when a workgroup barrier must separate two uses of the same slot.
use vstd::prelude::*;
use std::marker::PhantomData;

verus! {

/// A workgroup-local storage slot for a value of type `A`. Kernels reach it
/// through the borrow handed out by `borrow`.
pub struct Lds<A> {
    _slot: PhantomData<A>,
}

impl<A> Lds<A> {
    /// An uninitialized slot.
    pub fn new() -> (r: Lds<A>) {
        Lds { _slot: PhantomData }
    }

    /// The single borrow of the slot a kernel works through; it has not been used.
    pub fn borrow(&self) -> (r: LdsBorrow<A>)
        ensures !r.used_spec(),
    {
        LdsBorrow { used: false, _slot: PhantomData }
    }
}

/// The borrow of a slot. Each use hands the slot to a closure through one of the
/// usage tokens below; every use after the first must be preceded by a
/// workgroup barrier, so that no workitem still holds the slot from the
/// previous use.
pub struct LdsBorrow<A> {
    used: bool,
    _slot: PhantomData<A>,
}

/// The slot, initialized once by the first workitem and shared by all. The token
/// holds the borrow for as long as it lives.
pub struct Singleton<'a, A>(PhantomData<&'a mut LdsBorrow<A>>);

/// The slot, viewed as one entry per workitem that every workitem may read.
pub struct Shared<'a, A>(PhantomData<&'a mut LdsBorrow<A>>);

/// The slot, viewed as one entry per workitem that only its workitem may use.
pub struct Unique<'a, A>(PhantomData<&'a mut LdsBorrow<A>>);

/// The token `with_singleton` hands out.
pub closed spec fn singleton_token<'a, A>() -> Singleton<'a, A> { Singleton(PhantomData) }

/// The token `with_shared` hands out.
pub closed spec fn shared_token<'a, A>() -> Shared<'a, A> { Shared(PhantomData) }

/// The token `with_mut` hands out.
pub closed spec fn unique_token<'a, A>() -> Unique<'a, A> { Unique(PhantomData) }

impl<A> LdsBorrow<A> {
    /// Whether the slot has been used since it was borrowed.
    pub closed spec fn used_spec(&self) -> bool { self.used }

    /// Mark the slot used; the result says whether a workgroup barrier must run
    /// first (it was used before).
    fn mark_used(&mut self) -> (barrier: bool)
        ensures barrier == old(self).used_spec(), final(self).used_spec(),
    {
        let barrier = self.used;
        self.used = true;
        barrier
    }

    /// Use the slot as a single shared value. When the slot was used
    /// before, `barrier` (the workgroup barrier) runs first, so that no workitem
    /// still holds the slot from that use; then `f` runs on the token. The first
    /// result says whether `barrier` ran, the second is what `f` returned.
    pub fn with_singleton<'a, B, F, R>(&'a mut self, barrier: B, f: F) -> (r: (bool, R))
        where B: FnOnce(), F: FnOnce(Singleton<'a, A>) -> R,
        requires
            old(self).used_spec() ==> call_requires(barrier, ()),
            call_requires(f, (singleton_token::<'a, A>(),)),
        ensures
            r.0 == old(self).used_spec(),
            r.0 ==> call_ensures(barrier, (), ()),
            final(self).used_spec(),
            call_ensures(f, (singleton_token::<'a, A>(),), r.1),
    {
        let needs_barrier = self.mark_used();
        if needs_barrier {
            barrier();
        }
        (needs_barrier, f(Singleton(PhantomData)))
    }

    /// Use the slot as per-workitem entries readable by all. When the slot was used
    /// before, `barrier` (the workgroup barrier) runs first, so that no workitem
    /// still holds the slot from that use; then `f` runs on the token. The first
    /// result says whether `barrier` ran, the second is what `f` returned.
    pub fn with_shared<'a, B, F, R>(&'a mut self, barrier: B, f: F) -> (r: (bool, R))
        where B: FnOnce(), F: FnOnce(Shared<'a, A>) -> R,
        requires
            old(self).used_spec() ==> call_requires(barrier, ()),
            call_requires(f, (shared_token::<'a, A>(),)),
        ensures
            r.0 == old(self).used_spec(),
            r.0 ==> call_ensures(barrier, (), ()),
            final(self).used_spec(),
            call_ensures(f, (shared_token::<'a, A>(),), r.1),
    {
        let needs_barrier = self.mark_used();
        if needs_barrier {
            barrier();
        }
        (needs_barrier, f(Shared(PhantomData)))
    }

    /// Use the slot as per-workitem entries private to each. When the slot was used
    /// before, `barrier` (the workgroup barrier) runs first, so that no workitem
    /// still holds the slot from that use; then `f` runs on the token. The first
    /// result says whether `barrier` ran, the second is what `f` returned.
    pub fn with_mut<'a, B, F, R>(&'a mut self, barrier: B, f: F) -> (r: (bool, R))
        where B: FnOnce(), F: FnOnce(Unique<'a, A>) -> R,
        requires
            old(self).used_spec() ==> call_requires(barrier, ()),
            call_requires(f, (unique_token::<'a, A>(),)),
        ensures
            r.0 == old(self).used_spec(),
            r.0 ==> call_ensures(barrier, (), ()),
            final(self).used_spec(),
            call_ensures(f, (unique_token::<'a, A>(),), r.1),
    {
        let needs_barrier = self.mark_used();
        if needs_barrier {
            barrier();
        }
        (needs_barrier, f(Unique(PhantomData)))
    }
}

} // verus!
