//! Waiting on signals, and what dropping a dispatch's completion does.
use vstd::prelude::*;

verus! {

/// A signal's value.
pub type Value = i64;

/// The condition a waiter wakes up on.
#[derive(Clone, Copy, Debug, PartialEq, Eq, Structural)]
pub enum WakeCondition {
    Equal(Value),
    NotEqual(Value),
    Less(Value),
    GreaterEqual(Value),
}

/// The comparison part of a wake condition, as the runtime's wait call takes it.
#[derive(Clone, Copy, Debug, PartialEq, Eq, Structural)]
pub enum ConditionOrdering {
    Equal,
    NotEqual,
    Less,
    GreaterEqual,
}

/// Whether `v` satisfies the condition.
pub open spec fn satisfied_spec(c: WakeCondition, v: Value) -> bool {
    match c {
        WakeCondition::Equal(e) => v == e,
        WakeCondition::NotEqual(e) => v != e,
        WakeCondition::Less(e) => v < e,
        WakeCondition::GreaterEqual(e) => v >= e,
    }
}

impl WakeCondition {
    /// The comparison and the value compared against.
    pub fn into_pair(self) -> (r: (ConditionOrdering, Value))
        ensures
            r == match self {
                WakeCondition::Equal(v) => (ConditionOrdering::Equal, v),
                WakeCondition::NotEqual(v) => (ConditionOrdering::NotEqual, v),
                WakeCondition::Less(v) => (ConditionOrdering::Less, v),
                WakeCondition::GreaterEqual(v) => (ConditionOrdering::GreaterEqual, v),
            },
    {
        match self {
            WakeCondition::Equal(v) => (ConditionOrdering::Equal, v),
            WakeCondition::NotEqual(v) => (ConditionOrdering::NotEqual, v),
            WakeCondition::Less(v) => (ConditionOrdering::Less, v),
            WakeCondition::GreaterEqual(v) => (ConditionOrdering::GreaterEqual, v),
        }
    }

    /// Whether `v` satisfies the condition.
    pub fn satisfied(&self, v: Value) -> (r: bool)
        ensures r == satisfied_spec(*self, v),
    {
        match *self {
            WakeCondition::Equal(e) => v == e,
            WakeCondition::NotEqual(e) => v != e,
            WakeCondition::Less(e) => v < e,
            WakeCondition::GreaterEqual(e) => v >= e,
        }
    }
}

/// The outcome of one wait: the value seen, as `Ok` when it satisfies the condition
/// and as `Err` when the wait ended (timed out) without it.
pub fn wait_outcome(cond: WakeCondition, seen: Value) -> (r: Result<Value, Value>)
    ensures r == if satisfied_spec(cond, seen) { Ok::<Value, Value>(seen) } else { Err::<Value, Value>(seen) },
{
    if cond.satisfied(seen) { Ok(seen) } else { Err(seen) }
}

/// What a wait for zero does after one wakeup (it waits for a value below one):
/// keep waiting when the value is not yet below one, else finish, failing with
/// the value when it is negative (a device reports errors that way).
#[derive(Clone, Copy, Debug, PartialEq, Eq)]
pub enum ZeroWait {
    KeepWaiting,
    Done(Result<(), Value>),
}

/// The condition a wait for zero waits on.
pub fn zero_condition() -> (r: WakeCondition)
    ensures r == WakeCondition::Less(1),
{
    WakeCondition::Less(1)
}

/// The next step of a wait for zero after a wakeup that saw `seen`.
pub fn zero_wait_step(seen: Value) -> (r: ZeroWait)
    ensures
        seen >= 1 ==> r == ZeroWait::KeepWaiting,
        seen < 0 ==> r == ZeroWait::Done(Err(seen)),
        seen == 0 ==> r == ZeroWait::Done(Ok(())),
{
    match wait_outcome(zero_condition(), seen) {
        Err(_) => ZeroWait::KeepWaiting,
        Ok(got) => if got < 0 { ZeroWait::Done(Err(got)) } else { ZeroWait::Done(Ok(())) },
    }
}

/// The outcome of a wait for zero with a timeout, after the wait returned `seen`:
/// a value not below one means the wait timed out.
pub fn zero_wait_timeout_outcome(seen: Value) -> (r: Result<(), Value>)
    ensures
        seen >= 1 ==> r == Err::<(), Value>(seen),
        seen < 0 ==> r == Err::<(), Value>(seen),
        seen == 0 ==> r is Ok,
{
    match wait_outcome(zero_condition(), seen) {
        Err(v) => Err(v),
        Ok(got) => if got < 0 { Err(got) } else { Ok(()) },
    }
}

/// A wait timeout in nanoseconds as the runtime takes it: `None` (wait forever)
/// when the duration does not fit in 64 bits.
pub fn timeout_nanos(nanos: u128) -> (r: Option<u64>)
    ensures r == if nanos <= u64::MAX { Some(nanos as u64) } else { None::<u64> },
{
    if nanos <= u64::MAX as u128 { Some(nanos as u64) } else { None }
}

/// How the host waits for a signal to reach zero.
#[derive(Clone, Copy, Debug, PartialEq, Eq, Structural)]
pub enum HostWait {
    /// There is nothing to wait for.
    Nothing,
    /// Block until the signal is below one (it is host consumable).
    WaitForZero,
    /// The signal cannot be waited on from the host: it must already be zero.
    ExpectZero,
}

/// Waiting on a dependency from the host: only on the host, only once, blocking
/// when the signal is host consumable and otherwise requiring it to be done.
pub fn host_wait_action(on_host: bool, already_waited: bool, host_consumable: bool) -> (r: HostWait)
    ensures
        r == if !on_host || already_waited {
            HostWait::Nothing
        } else if host_consumable {
            HostWait::WaitForZero
        } else {
            HostWait::ExpectZero
        },
{
    if !on_host || already_waited {
        HostWait::Nothing
    } else if host_consumable {
        HostWait::WaitForZero
    } else {
        HostWait::ExpectZero
    }
}

/// Dropping a memory transfer waits for it: nothing when its signal already reads
/// zero, else as a host wait.
pub fn transfer_drop_action(current: Value, host_consumable: bool) -> (r: HostWait)
    ensures
        r == if current == 0 {
            HostWait::Nothing
        } else if host_consumable {
            HostWait::WaitForZero
        } else {
            HostWait::ExpectZero
        },
{
    if current == 0 {
        HostWait::Nothing
    } else if host_consumable {
        HostWait::WaitForZero
    } else {
        HostWait::ExpectZero
    }
}

/// What dropping a dispatch's completion handle must do.
#[derive(Clone, Copy, Debug, PartialEq, Eq, Structural)]
pub enum CompletionDrop {
    /// The dispatch is known complete, or another dispatch waits on it.
    Release,
    /// Wait on the host for the completion signal, then release.
    WaitThenRelease,
    /// A device-only signal nobody waits on: the arguments may still be in use.
    Panic,
    /// As `Panic`, but the thread is already panicking: warn and leak.
    WarnLeak,
}

/// The drop decision of a completion handle: whether it was already consumed, whether
/// its signal can be waited on by the host, and whether the thread is panicking.
pub fn completion_drop(waited: bool, host_consumable: bool, panicking: bool) -> (r: CompletionDrop)
    ensures
        r == if waited {
            CompletionDrop::Release
        } else if host_consumable {
            CompletionDrop::WaitThenRelease
        } else if !panicking {
            CompletionDrop::Panic
        } else {
            CompletionDrop::WarnLeak
        },
{
    if waited {
        CompletionDrop::Release
    } else if host_consumable {
        CompletionDrop::WaitThenRelease
    } else if !panicking {
        CompletionDrop::Panic
    } else {
        CompletionDrop::WarnLeak
    }
}

} // verus!
