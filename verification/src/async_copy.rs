//! Planning asynchronous copies between host and device memory.
use vstd::prelude::*;
use crate::inline_vec::{handle_items, handles_new, handles_push, handles_to_vec};

verus! {

/// What an asynchronous copy comes down to.
#[derive(Debug, PartialEq, Eq)]
pub enum CopyPlan {
    /// One side has no memory behind it: nothing is copied, and the completion
    /// signal is decremented by one at once.
    SignalOnly,
    /// Copy `bytes` bytes from `src_agent`'s side to `dst_agent`'s side once every
    /// signal in `signals` has reached zero; the copy decrements the completion
    /// signal when done.
    Copy { bytes: usize, dst_agent: u64, src_agent: u64, signals: Vec<u64> },
}

/// The smaller of two lengths.
pub open spec fn min_len(a: usize, b: usize) -> usize {
    if a <= b { a } else { b }
}

/// The plan of a copy between buffers of lengths `from_len` and `into_len`
/// (`None` where a buffer has no memory behind it), waiting on `deps`: the
/// common prefix of the two buffers is copied.
pub open spec fn copy_plan_ok(r: CopyPlan, from_len: Option<usize>, into_len: Option<usize>,
    deps: Seq<u64>, dst_agent: u64, src_agent: u64) -> bool
{
    match (from_len, into_len) {
        (Some(f), Some(i)) => r matches CopyPlan::Copy { bytes, dst_agent: d, src_agent: s, signals }
            && bytes == min_len(f, i) && d == dst_agent && s == src_agent && signals@ == deps,
        _ => r is SignalOnly,
    }
}

/// Plan a copy from a buffer of `from_len` bytes into one of `into_len` bytes
/// (`None` for a buffer with no memory behind it), run by the agents given, once
/// the signals of `deps` have all reached zero. The signals are gathered in a
/// small inline list.
pub fn plan_async_copy(from_len: Option<usize>, into_len: Option<usize>, deps: &Vec<u64>,
    dst_agent: u64, src_agent: u64) -> (r: CopyPlan)
    ensures copy_plan_ok(r, from_len, into_len, deps@, dst_agent, src_agent),
{
    match (from_len, into_len) {
        (Some(f), Some(i)) => {
            let mut signals = handles_new();
            let mut k: usize = 0;
            while k < deps.len()
                invariant
                    k <= deps.len(),
                    handle_items(signals) == deps@.take(k as int),
                decreases deps.len() - k,
            {
                handles_push(&mut signals, deps[k]);
                assert(deps@.take(k as int + 1) == deps@.take(k as int).push(deps@[k as int]));
                k = k + 1;
            }
            assert(deps@.take(deps.len() as int) == deps@);
            let bytes = if f <= i { f } else { i };
            CopyPlan::Copy { bytes, dst_agent, src_agent, signals: handles_to_vec(&signals) }
        },
        _ => CopyPlan::SignalOnly,
    }
}

/// A host to device copy: the device's agent receives from the host's agent.
pub fn plan_copy_into_device(from_len: Option<usize>, into_len: Option<usize>, deps: &Vec<u64>,
    device_agent: u64, host_agent: u64) -> (r: CopyPlan)
    ensures copy_plan_ok(r, from_len, into_len, deps@, device_agent, host_agent),
{
    plan_async_copy(from_len, into_len, deps, device_agent, host_agent)
}

/// A device to host copy: the host's agent receives from the device's agent.
pub fn plan_copy_from_device(from_len: Option<usize>, into_len: Option<usize>, deps: &Vec<u64>,
    device_agent: u64, host_agent: u64) -> (r: CopyPlan)
    ensures copy_plan_ok(r, from_len, into_len, deps@, host_agent, device_agent),
{
    plan_async_copy(from_len, into_len, deps, host_agent, device_agent)
}

/// A device to device copy: `into_agent`'s device receives from `from_agent`'s.
pub fn plan_copy_peer(from_len: Option<usize>, into_len: Option<usize>, deps: &Vec<u64>,
    from_agent: u64, into_agent: u64) -> (r: CopyPlan)
    ensures copy_plan_ok(r, from_len, into_len, deps@, into_agent, from_agent),
{
    plan_async_copy(from_len, into_len, deps, into_agent, from_agent)
}

/// Copies back to the host after a dispatch: each `(device, host)` buffer pair
/// (by length) is copied from the device once the dispatch's `signal` fires,
/// each copy decrementing `completion`. The dispatch's signal joins the
/// dependencies, and `completion` becomes the invocation's completion signal,
/// which is returned.
pub fn copies_to_host(deps: &mut Vec<u64>, signal: u64, completion: u64,
    pairs: &Vec<(Option<usize>, Option<usize>)>, device_agent: u64, host_agent: u64)
    -> (r: (Vec<CopyPlan>, u64))
    ensures
        r.1 == completion,
        final(deps)@ == old(deps)@.push(signal),
        r.0.len() == pairs.len(),
        forall|i: int| 0 <= i < pairs.len() ==> copy_plan_ok(#[trigger] r.0@[i], pairs@[i].0, pairs@[i].1,
            seq![signal], host_agent, device_agent),
{
    let mut plans: Vec<CopyPlan> = Vec::new();
    let mut one: Vec<u64> = Vec::new();
    one.push(signal);
    let mut i: usize = 0;
    while i < pairs.len()
        invariant
            i <= pairs.len(),
            one@ == seq![signal],
            plans.len() == i,
            forall|k: int| 0 <= k < i ==> copy_plan_ok(#[trigger] plans@[k], pairs@[k].0, pairs@[k].1,
                seq![signal], host_agent, device_agent),
        decreases pairs.len() - i,
    {
        let (from_len, into_len) = pairs[i];
        let p = plan_copy_from_device(from_len, into_len, &one, device_agent, host_agent);
        plans.push(p);
        i = i + 1;
    }
    deps.push(signal);
    (plans, completion)
}

} // verus!
