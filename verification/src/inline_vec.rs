//! The small inline vectors (`smallvec::SmallVec`) the runtime gathers signals,
//! device ids and agents in, and what this library relies on of them. Each
//! vector type is held in a struct of its own whose contents are named by a
//! specification function; the functions below are the only operations on them.
use vstd::prelude::*;
use smallvec::SmallVec;

verus! {

/// The signals of one barrier packet being gathered: `SmallVec<[u64; 5]>`.
#[verifier::external_body]
pub struct SignalBatch {
    inner: SmallVec<[u64; 5]>,
}

/// The signals a batch holds, in the order they were pushed.
pub uninterp spec fn batch_items(v: SignalBatch) -> Seq<u64>;

/// `SmallVec::new`: an empty vector.
#[verifier::external_body]
pub(crate) fn batch_new() -> (r: SignalBatch)
    ensures batch_items(r) == Seq::<u64>::empty(),
{
    SignalBatch { inner: SmallVec::new() }
}

/// `SmallVec::push`: appends `x` after the items already held.
#[verifier::external_body]
pub(crate) fn batch_push(v: &mut SignalBatch, x: u64)
    requires batch_items(*old(v)).len() < usize::MAX,
    ensures batch_items(*final(v)) == batch_items(*old(v)).push(x),
{
    v.inner.push(x)
}

/// `SmallVec::len`: the number of items held.
#[verifier::external_body]
pub(crate) fn batch_len(v: &SignalBatch) -> (r: usize)
    ensures r == batch_items(*v).len(),
{
    v.inner.len()
}

/// `SmallVec::clear`: removes every item.
#[verifier::external_body]
pub(crate) fn batch_clear(v: &mut SignalBatch)
    ensures batch_items(*final(v)) == Seq::<u64>::empty(),
{
    v.inner.clear()
}

/// The items of a batch, copied out in order (the slice `SmallVec` derefs to,
/// collected with `to_vec`).
#[verifier::external_body]
pub(crate) fn batch_to_vec(v: &SignalBatch) -> (r: Vec<u64>)
    ensures r@ == batch_items(*v),
{
    v.inner.to_vec()
}

/// The device ids an allocation is being granted to: `SmallVec<[usize; 16]>`.
#[verifier::external_body]
pub struct GrantList {
    inner: SmallVec<[usize; 16]>,
}

/// The device ids a grant list holds, in the order they were pushed.
pub uninterp spec fn grant_items(v: GrantList) -> Seq<usize>;

/// `SmallVec::new`: an empty vector.
#[verifier::external_body]
pub(crate) fn grant_new() -> (r: GrantList)
    ensures grant_items(r) == Seq::<usize>::empty(),
{
    GrantList { inner: SmallVec::new() }
}

/// `SmallVec::push`: appends `x` after the items already held.
#[verifier::external_body]
pub(crate) fn grant_push(v: &mut GrantList, x: usize)
    requires grant_items(*old(v)).len() < usize::MAX,
    ensures grant_items(*final(v)) == grant_items(*old(v)).push(x),
{
    v.inner.push(x)
}

/// `SmallVec::clear`: removes every item.
#[verifier::external_body]
pub(crate) fn grant_clear(v: &mut GrantList)
    ensures grant_items(*final(v)) == Seq::<usize>::empty(),
{
    v.inner.clear()
}

/// The items of a grant list, copied out in order.
#[verifier::external_body]
pub(crate) fn grant_to_vec(v: &GrantList) -> (r: Vec<usize>)
    ensures r@ == grant_items(*v),
{
    v.inner.to_vec()
}

/// Up to 32 handles held inline: the agents an allocator's memory is accessible
/// to, or the signals an asynchronous copy waits on. `SmallVec<[u64; 32]>`.
#[verifier::external_body]
pub struct HandleList {
    inner: SmallVec<[u64; 32]>,
}

/// The handles a handle list holds, in the order they were pushed.
pub uninterp spec fn handle_items(v: HandleList) -> Seq<u64>;

/// `SmallVec::new`: an empty vector.
#[verifier::external_body]
pub(crate) fn handles_new() -> (r: HandleList)
    ensures handle_items(r) == Seq::<u64>::empty(),
{
    HandleList { inner: SmallVec::new() }
}

/// `SmallVec::push`: appends `x` after the items already held.
#[verifier::external_body]
pub(crate) fn handles_push(v: &mut HandleList, x: u64)
    requires handle_items(*old(v)).len() < usize::MAX,
    ensures handle_items(*final(v)) == handle_items(*old(v)).push(x),
{
    v.inner.push(x)
}

/// `SmallVec::pop`: removes and returns the last item, `None` when empty.
#[verifier::external_body]
pub(crate) fn handles_pop(v: &mut HandleList) -> (r: Option<u64>)
    ensures
        handle_items(*old(v)).len() == 0 ==> r is None && handle_items(*final(v)) == handle_items(*old(v)),
        handle_items(*old(v)).len() > 0 ==> r == Some(handle_items(*old(v)).last())
            && handle_items(*final(v)) == handle_items(*old(v)).drop_last(),
{
    v.inner.pop()
}

/// The items of a handle list, copied out in order.
#[verifier::external_body]
pub(crate) fn handles_to_vec(v: &HandleList) -> (r: Vec<u64>)
    ensures r@ == handle_items(*v),
{
    v.inner.to_vec()
}

} // verus!
