//! Choosing a device's agents, regions, pools and queue sizes.
use vstd::prelude::*;
use crate::error::Error;

verus! {

/// What the runtime reads of a memory region of an agent.
#[derive(Clone, Copy, Debug, PartialEq, Eq, Structural)]
pub struct RegionInfo {
    /// The runtime may allocate from the region (false when the query failed).
    pub runtime_alloc_allowed: bool,
    /// The region can hold kernel arguments (false when the flags are unknown).
    pub kernel_arg: bool,
    /// The region is fine grained (false when the flags are unknown).
    pub fine_grained: bool,
}

/// What the runtime reads of a memory pool of an agent.
#[derive(Clone, Copy, Debug, PartialEq, Eq, Structural)]
pub struct PoolInfo {
    /// The runtime may allocate from the pool.
    pub alloc_allowed: bool,
    /// The pool is fine grained (false when the flags are unknown).
    pub fine_grained: bool,
    /// The pool is coarse grained (false when the flags are unknown).
    pub coarse_grained: bool,
    /// The pool's size (zero when the query failed).
    pub total_size: usize,
}

/// What the runtime reads of an agent when looking for devices.
#[derive(Clone, Copy, Debug, PartialEq, Eq, Structural)]
pub struct AgentInfo {
    /// The agent is a CPU.
    pub is_cpu: bool,
    /// The agent can run kernels.
    pub is_kernel: bool,
}

/// A region can hold kernel arguments.
pub open spec fn kernarg_capable(r: RegionInfo) -> bool {
    r.runtime_alloc_allowed && r.kernel_arg && r.fine_grained
}

/// A pool can be used for the wanted granularity.
pub open spec fn pool_eligible(p: PoolInfo, fine: bool) -> bool {
    p.alloc_allowed && if fine { p.fine_grained } else { p.coarse_grained }
}

/// The pool chosen among `pools`: the largest eligible one, the last among equals.
pub open spec fn is_chosen_pool(pools: Seq<PoolInfo>, fine: bool, i: int) -> bool {
    &&& 0 <= i < pools.len()
    &&& pool_eligible(pools[i], fine)
    &&& forall|k: int| 0 <= k < pools.len() && pool_eligible(pools[k], fine) ==>
        pools[k].total_size <= pools[i].total_size
    &&& forall|k: int| i < k < pools.len() && pool_eligible(pools[k], fine) ==>
        pools[k].total_size < pools[i].total_size
}

/// The region kernel arguments are placed in: the first region that the runtime
/// may allocate from and that is fine grained and can hold kernel arguments.
pub fn select_kernarg_region(regions: &Vec<RegionInfo>) -> (r: Result<usize, Error>)
    ensures
        r matches Ok(i) ==> i < regions.len() && kernarg_capable(regions@[i as int])
            && forall|k: int| 0 <= k < i ==> !kernarg_capable(#[trigger] regions@[k]),
        r is Err ==> r == Err::<usize, Error>(Error::MissingKernelArgumentsRegion)
            && forall|k: int| 0 <= k < regions.len() ==> !kernarg_capable(#[trigger] regions@[k]),
{
    let mut i: usize = 0;
    while i < regions.len()
        invariant
            i <= regions.len(),
            forall|k: int| 0 <= k < i ==> !kernarg_capable(#[trigger] regions@[k]),
        decreases regions.len() - i,
    {
        let r = regions[i];
        if r.runtime_alloc_allowed && r.kernel_arg && r.fine_grained {
            return Ok(i);
        }
        i = i + 1;
    }
    Err(Error::MissingKernelArgumentsRegion)
}

/// The pool to allocate from: the largest eligible pool of the wanted granularity,
/// the last one among pools of equal size, or `None` when no pool is eligible.
pub fn select_pool(pools: &Vec<PoolInfo>, fine: bool) -> (r: Option<usize>)
    ensures
        r matches Some(i) ==> is_chosen_pool(pools@, fine, i as int),
        r is None ==> forall|k: int| 0 <= k < pools.len() ==> !pool_eligible(#[trigger] pools@[k], fine),
{
    let mut best: Option<usize> = None;
    let mut i: usize = 0;
    while i < pools.len()
        invariant
            i <= pools.len(),
            best is None ==> forall|k: int| 0 <= k < i ==> !pool_eligible(#[trigger] pools@[k], fine),
            best matches Some(b) ==> {
                &&& b < i
                &&& pool_eligible(pools@[b as int], fine)
                &&& forall|k: int| 0 <= k < i && pool_eligible(#[trigger] pools@[k], fine) ==>
                    pools@[k].total_size <= pools@[b as int].total_size
                &&& forall|k: int| b < k < i && pool_eligible(#[trigger] pools@[k], fine) ==>
                    pools@[k].total_size < pools@[b as int].total_size
            },
        decreases pools.len() - i,
    {
        let p = pools[i];
        if p.alloc_allowed && (if fine { p.fine_grained } else { p.coarse_grained }) {
            match best {
                None => { best = Some(i); },
                Some(b) => {
                    if p.total_size >= pools[b].total_size {
                        best = Some(i);
                    }
                },
            }
        }
        i = i + 1;
    }
    best
}

/// The size of a new queue: at least `min` (and at least the smallest supported
/// size) when a minimum is asked for, else a quarter of the largest supported size.
pub fn queue_size(size_min: u32, size_max: u32, min: Option<u32>) -> (r: u32)
    ensures
        r == match min {
            Some(m) => if m < size_min { size_min } else { m },
            None => size_max / 4,
        },
{
    match min {
        Some(m) => if m < size_min { size_min } else { m },
        None => size_max / 4,
    }
}

/// The host agents among `agents`: the CPUs, in order.
pub fn host_agents(agents: &Vec<AgentInfo>) -> (r: Vec<usize>)
    ensures
        forall|k: int| 0 <= k < r.len() ==> #[trigger] r@[k] < agents.len() && agents@[r@[k] as int].is_cpu,
        forall|i: int| 0 <= i < agents.len() && agents@[i].is_cpu ==> r@.contains(i as usize),
        forall|k: int, l: int| 0 <= k < l < r.len() ==> r@[k] < r@[l],
{
    let mut out: Vec<usize> = Vec::new();
    let mut i: usize = 0;
    while i < agents.len()
        invariant
            i <= agents.len(),
            forall|k: int| 0 <= k < out.len() ==> #[trigger] out@[k] < i && agents@[out@[k] as int].is_cpu,
            forall|j: int| 0 <= j < i && agents@[j].is_cpu ==> out@.contains(j as usize),
            forall|k: int, l: int| 0 <= k < l < out.len() ==> out@[k] < out@[l],
        decreases agents.len() - i,
    {
        let ghost before = out@;
        if agents[i].is_cpu {
            out.push(i);
        }
        assert forall|j: int| 0 <= j < i + 1 && agents@[j].is_cpu implies out@.contains(j as usize) by {
            if j == i {
                assert(out@[out.len() - 1] == i);
            } else {
                let k = choose|k: int| 0 <= k < before.len() && before[k] == j as usize;
                assert(out@[k] == j as usize);
            }
        }
        i = i + 1;
    }
    out
}

/// The number of kernel agents among the first `n` agents.
pub open spec fn kernel_agents_before(agents: Seq<AgentInfo>, n: int) -> int
    decreases n,
{
    if n <= 0 {
        0
    } else {
        kernel_agents_before(agents, n - 1) + if agents[n - 1].is_kernel { 1int } else { 0int }
    }
}

/// The `n`th (from zero) agent that can run kernels, or `NoGpuAgent`.
pub fn nth_kernel_agent(agents: &Vec<AgentInfo>, n: usize) -> (r: Result<usize, Error>)
    ensures
        r matches Ok(i) ==> i < agents.len() && agents@[i as int].is_kernel
            && kernel_agents_before(agents@, i as int) == n,
        r is Err ==> r == Err::<usize, Error>(Error::NoGpuAgent)
            && kernel_agents_before(agents@, agents.len() as int) <= n,
{
    let mut seen: usize = 0;
    let mut i: usize = 0;
    while i < agents.len()
        invariant
            i <= agents.len(),
            seen == kernel_agents_before(agents@, i as int),
            seen <= n,
        decreases agents.len() - i,
    {
        if agents[i].is_kernel {
            if seen == n {
                return Ok(i);
            }
            seen = seen + 1;
        }
        i = i + 1;
    }
    Err(Error::NoGpuAgent)
}

/// The pools a device uses: for each host node (NUMA node) its fine and coarse
/// pools, and the device's own fine and coarse pools.
#[derive(Debug)]
pub struct DevicePools {
    /// The region holding kernel arguments.
    pub kernarg_region: usize,
    /// For each host node, its (fine, coarse) pools.
    pub host_nodes: Vec<(usize, usize)>,
    /// The device's fine grained pool, if it has one.
    pub device_fine: Option<usize>,
    /// The device's coarse grained pool.
    pub device_coarse: usize,
}

/// A node has a pool of the wanted granularity.
pub open spec fn has_pool(pools: Seq<PoolInfo>, fine: bool) -> bool {
    exists|k: int| 0 <= k < pools.len() && pool_eligible(#[trigger] pools[k], fine)
}

/// Every host node has both a fine and a coarse pool.
pub open spec fn hosts_have_pools(host_pools: Seq<Vec<PoolInfo>>) -> bool {
    forall|h: int| 0 <= h < host_pools.len() ==>
        has_pool(#[trigger] host_pools[h]@, true) && has_pool(host_pools[h]@, false)
}

/// Choose a device's regions and pools: `NoCpuAgent` without host nodes,
/// `MissingKernelArgumentsRegion` without a region for kernel arguments,
/// `NoGpuAgentIsa` when the device has no ISA. Each host node must then have a
/// fine and a coarse pool, and the device a coarse pool.
pub fn select_device_pools(host_pools: &Vec<Vec<PoolInfo>>, regions: &Vec<RegionInfo>,
    device_pools: &Vec<PoolInfo>, isa_count: usize) -> (r: Result<DevicePools, Error>)
    requires
        host_pools.len() > 0 && (exists|k: int| 0 <= k < regions.len() && kernarg_capable(#[trigger] regions@[k]))
            ==> hosts_have_pools(host_pools@),
        host_pools.len() > 0 && isa_count > 0
            && (exists|k: int| 0 <= k < regions.len() && kernarg_capable(#[trigger] regions@[k]))
            ==> has_pool(device_pools@, false),
    ensures
        host_pools.len() == 0 ==> r == Err::<DevicePools, Error>(Error::NoCpuAgent),
        host_pools.len() > 0 && (forall|k: int| 0 <= k < regions.len() ==> !kernarg_capable(#[trigger] regions@[k]))
            ==> r == Err::<DevicePools, Error>(Error::MissingKernelArgumentsRegion),
        host_pools.len() > 0 && (exists|k: int| 0 <= k < regions.len() && kernarg_capable(#[trigger] regions@[k]))
            && isa_count == 0 ==> r == Err::<DevicePools, Error>(Error::NoGpuAgentIsa),
        r matches Ok(d) ==> {
            &&& d.kernarg_region < regions.len() && kernarg_capable(regions@[d.kernarg_region as int])
            &&& forall|k: int| 0 <= k < d.kernarg_region ==> !kernarg_capable(#[trigger] regions@[k])
            &&& d.host_nodes.len() == host_pools.len()
            &&& forall|h: int| 0 <= h < host_pools.len() ==>
                is_chosen_pool(host_pools@[h]@, true, (#[trigger] d.host_nodes@[h]).0 as int)
                && is_chosen_pool(host_pools@[h]@, false, d.host_nodes@[h].1 as int)
            &&& match d.device_fine {
                Some(f) => is_chosen_pool(device_pools@, true, f as int),
                None => forall|k: int| 0 <= k < device_pools.len() ==> !pool_eligible(#[trigger] device_pools@[k], true),
            }
            &&& is_chosen_pool(device_pools@, false, d.device_coarse as int)
        },
        r is Ok <==> host_pools.len() > 0 && isa_count > 0
            && (exists|k: int| 0 <= k < regions.len() && kernarg_capable(#[trigger] regions@[k])),
{
    if host_pools.len() == 0 {
        return Err(Error::NoCpuAgent);
    }
    let kernarg_region = match select_kernarg_region(regions) {
        Ok(i) => i,
        Err(e) => { return Err(e); },
    };
    let mut host_nodes: Vec<(usize, usize)> = Vec::new();
    let mut h: usize = 0;
    while h < host_pools.len()
        invariant
            h <= host_pools.len(),
            hosts_have_pools(host_pools@),
            host_nodes.len() == h,
            forall|j: int| 0 <= j < h ==>
                is_chosen_pool(host_pools@[j]@, true, (#[trigger] host_nodes@[j]).0 as int)
                && is_chosen_pool(host_pools@[j]@, false, host_nodes@[j].1 as int),
        decreases host_pools.len() - h,
    {
        let fine = select_pool(&host_pools[h], true);
        let coarse = select_pool(&host_pools[h], false);
        match (fine, coarse) {
            (Some(f), Some(c)) => { host_nodes.push((f, c)); },
            _ => {
                proof {
                    assert(has_pool(host_pools@[h as int]@, true) && has_pool(host_pools@[h as int]@, false));
                }
                host_nodes.push((0, 0));
                assert(false);
            },
        }
        h = h + 1;
    }
    if isa_count == 0 {
        return Err(Error::NoGpuAgentIsa);
    }
    let device_fine = select_pool(device_pools, true);
    let device_coarse = match select_pool(device_pools, false) {
        Some(c) => c,
        None => {
            proof { assert(has_pool(device_pools@, false)); }
            0
        },
    };
    Ok(DevicePools { kernarg_region, host_nodes, device_fine, device_coarse })
}

} // verus!
