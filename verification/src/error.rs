//! The runtime's errors.
use vstd::prelude::*;

verus! {

/// Errors raised by the runtime's host-side logic.
#[derive(Clone, Copy, Debug, PartialEq, Eq, Structural)]
pub enum Error {
    /// An arithmetic result did not fit its integer type.
    Overflow,
    /// A range's end came before its start.
    Underflow,
    /// A launch grid or workgroup had an axis of length zero.
    ZeroGridLaunchAxis,
    /// A workgroup axis exceeded the device's per-axis maximum.
    KernelWorkgroupDimTooLargeForDevice,
    /// The workgroup's total size exceeded the device's maximum.
    KernelWorkgroupLenTooLargeForDevice,
    /// A launch grid axis exceeded the device's per-axis maximum.
    LaunchGridDimTooLargeForDevice,
    /// The launch grid's total size exceeded the device's maximum.
    LaunchGridLenTooLargeForDevice,
    /// The kernel argument arena had no room left.
    KernelArgsPoolOom,
    /// The arena's alignment is weaker than the argument layout's.
    Alloc,
    /// No host agent was given.
    NoCpuAgent,
    /// No GPU agent is present.
    NoGpuAgent,
    /// The GPU agent exposes no ISA.
    NoGpuAgentIsa,
    /// No region can hold kernel arguments.
    MissingKernelArgumentsRegion,
}

} // verus!
