//! Which devices an allocation has been made accessible to, and the steps of
//! granting a device access.
use vstd::prelude::*;
use crate::inline_vec::{GrantList, grant_items, grant_new, grant_push, grant_clear, grant_to_vec,
    HandleList, handle_items, handles_new, handles_push, handles_pop, handles_to_vec};

verus! {

/// Whether bit `i` of `bits` is set.
pub open spec fn has_bit(bits: u64, i: u64) -> bool {
    (bits >> i) & 1u64 == 1u64
}

/// The number of set bits among the lowest `n` bits of `bits`.
pub open spec fn bits_set_below(bits: u64, n: nat) -> nat
    decreases n,
{
    if n == 0 {
        0
    } else {
        bits_set_below(bits, (n - 1) as nat) + if has_bit(bits, (n - 1) as u64) { 1nat } else { 0nat }
    }
}

/// The devices (ids below `n`) whose bit is set, in increasing order.
pub open spec fn granted_list(bits: u64, n: nat) -> Seq<usize>
    decreases n,
{
    if n == 0 {
        Seq::empty()
    } else if has_bit(bits, (n - 1) as u64) {
        granted_list(bits, (n - 1) as nat).push((n - 1) as usize)
    } else {
        granted_list(bits, (n - 1) as nat)
    }
}

/// `bits` with device `id` granted.
pub open spec fn grant_bits(bits: u64, id: usize) -> u64 {
    bits | (1u64 << id as u64)
}

/// `bits` with device `id` revoked.
pub open spec fn revoke_bits(bits: u64, id: usize) -> u64 {
    bits & !(1u64 << id as u64)
}

/// Law: revoking a device that a grant just added restores the set as it was
/// (what a failed shared grant relies on).
pub proof fn law_revoke_undoes_grant(bits: u64, id: usize)
    requires id < 64, !has_bit(bits, id as u64),
    ensures revoke_bits(grant_bits(bits, id), id) == bits,
{
    let i = id as u64;
    assert(((bits >> i) & 1u64 != 1u64) ==> (bits | (1u64 << i)) & !(1u64 << i) == bits) by (bit_vector)
        requires i < 64;
}

/// Law: granting twice is granting once.
pub proof fn law_grant_idempotent(bits: u64, id: usize)
    requires id < 64,
    ensures grant_bits(grant_bits(bits, id), id) == grant_bits(bits, id),
{
    let i = id as u64;
    assert((bits | (1u64 << i)) | (1u64 << i) == bits | (1u64 << i)) by (bit_vector);
}

/// Law: the device list has one entry per granted device (as many as `len`
/// counts), and lists exactly the granted devices.
pub proof fn law_granted_list_exact(bits: u64, n: nat)
    requires n <= 64,
    ensures
        granted_list(bits, n).len() == bits_set_below(bits, n),
        forall|i: usize| #[trigger] granted_list(bits, n).contains(i) <==> (i < n && has_bit(bits, i as u64)),
    decreases n,
{
    if n > 0 {
        let m = (n - 1) as nat;
        law_granted_list_exact(bits, m);
        let prev = granted_list(bits, m);
        assert forall|i: usize| #[trigger] granted_list(bits, n).contains(i) <==> (i < n && has_bit(bits, i as u64)) by {
            if has_bit(bits, m as u64) {
                assert(granted_list(bits, n) == prev.push(m as usize));
                if granted_list(bits, n).contains(i) {
                    let k = choose|k: int| 0 <= k < granted_list(bits, n).len() && granted_list(bits, n)[k] == i;
                    if k < prev.len() {
                        assert(prev[k] == i);
                        assert(prev.contains(i));
                    }
                }
                if i < n && has_bit(bits, i as u64) {
                    if i < m {
                        assert(prev.contains(i));
                        let k = choose|k: int| 0 <= k < prev.len() && prev[k] == i;
                        assert(granted_list(bits, n)[k] == i);
                    } else {
                        assert(granted_list(bits, n)[prev.len() as int] == i);
                    }
                }
            } else {
                assert(granted_list(bits, n) == prev);
            }
        }
    }
}

/// At most one device per id below `n` is listed.
proof fn lemma_granted_list_len(bits: u64, n: nat)
    ensures granted_list(bits, n).len() <= n,
    decreases n,
{
    if n > 0 {
        lemma_granted_list_len(bits, (n - 1) as nat);
    }
}

/// Errors reported by the HSA runtime.
#[derive(Clone, Copy, Debug, PartialEq, Eq, Structural)]
pub enum HsaError {
    /// A generic failure.
    General,
    /// The arguments of a call do not fit together.
    IncompatibleArguments,
    /// Any other status code.
    Status(u32),
}

/// How a memory pool may be shared with an agent.
#[derive(Clone, Copy, Debug, PartialEq, Eq, Structural)]
pub enum AgentAccess {
    /// The pool can never be used by the agent.
    NeverAllowed,
    /// The agent must be granted access to each allocation.
    DefaultDisallowed,
    /// The agent can use every allocation without a grant.
    DefaultAllowed,
}

/// What to do next while granting a device access to an allocation.
#[derive(Debug, PartialEq, Eq)]
pub enum GrantStep<A> {
    /// Granting is over, with this outcome.
    Done(Result<(), HsaError>),
    /// Grant the allocation to exactly these agents, then report the outcome.
    Grant(Vec<A>),
}

/// The grant call that makes a buffer accessible to a list of agents.
#[derive(Debug, PartialEq, Eq)]
pub enum GrantCall {
    /// Grant one agent.
    Agent(u64),
    /// Grant every agent of the list (possibly none).
    Agents(Vec<u64>),
}

/// How a buffer is made accessible to exactly `agents`: a single agent is
/// granted alone, any other number as a list.
pub fn grant_call(agents: &Vec<u64>) -> (r: GrantCall)
    ensures
        agents.len() == 1 ==> r == GrantCall::Agent(agents@[0]),
        agents.len() != 1 ==> (r matches GrantCall::Agents(list) && list@ == agents@),
{
    if agents.len() == 1 {
        GrantCall::Agent(agents[0])
    } else {
        let list = agents.clone();
        assert(list@ =~= agents@);
        GrantCall::Agents(list)
    }
}

/// Whether a pool allocating with alignment `pool_alignment` (`None` when it does
/// not say, read as zero) can hold a value aligned to `align`.
pub fn check_pool_alignment(pool_alignment: Option<usize>, align: usize) -> (r: Result<(), HsaError>)
    ensures
        r is Ok <==> match pool_alignment { Some(a) => a >= align, None => align == 0 },
        r is Err ==> r == Err::<(), HsaError>(HsaError::IncompatibleArguments),
{
    let a = match pool_alignment { Some(a) => a, None => 0 };
    if a < align {
        Err(HsaError::IncompatibleArguments)
    } else {
        Ok(())
    }
}

/// The set of devices (by id, below 64) that an allocator's memory has been made
/// accessible to, one bit per device.
pub struct Accessible {
    bits: u64,
}

impl Accessible {
    /// Whether device `id` has been granted access: its bit is set.
    pub open spec fn granted(&self, id: usize) -> bool {
        has_bit(self.bits_spec(), id as u64)
    }

    /// The raw bit set.
    pub closed spec fn bits_spec(&self) -> u64 {
        self.bits
    }

    /// No device has access.
    pub fn new() -> (r: Accessible)
        ensures
            r.bits_spec() == 0,
            forall|i: usize| i < 64 ==> !r.granted(i),
    {
        proof {
            assert(forall|i: u64| i < 64 ==> (0u64 >> i) & 1u64 != 1u64) by (bit_vector);
        }
        Accessible { bits: 0 }
    }

    /// Only the local device `id` has access.
    pub fn new_local(id: usize) -> (r: Accessible)
        requires id < 64,
        ensures
            r.bits_spec() == 1u64 << id as u64,
            r.granted(id),
            forall|i: usize| i < 64 && i != id ==> !r.granted(i),
    {
        let mut this = Accessible::new();
        this.set_mut(id);
        let i = id as u64;
        assert(0u64 | (1u64 << i) == 1u64 << i) by (bit_vector);
        this
    }

    /// Whether device `id` still needs to be granted access (its bit is clear).
    pub fn get(&self, id: usize) -> (r: bool)
        requires id < 64,
        ensures r == !self.granted(id),
    {
        let bit: u64 = 1u64 << (id as u64);
        let b = self.bits;
        let i = id as u64;
        proof {
            assert((b & (1u64 << i) == 0u64) == ((b >> i) & 1u64 != 1u64)) by (bit_vector)
                requires i < 64;
        }
        self.bits & bit == 0
    }

    /// Same as `get`, for an exclusively held set.
    pub fn get_mut(&mut self, id: usize) -> (r: bool)
        requires id < 64,
        ensures r == !old(self).granted(id), final(self).bits_spec() == old(self).bits_spec(),
    {
        self.get(id)
    }

    /// Grant device `id`; returns whether it was newly granted. Other devices are unchanged.
    pub fn set_mut(&mut self, id: usize) -> (r: bool)
        requires id < 64,
        ensures
            r == !old(self).granted(id),
            final(self).granted(id),
            forall|i: usize| i < 64 && i != id ==> final(self).granted(i) == old(self).granted(i),
            final(self).bits_spec() == grant_bits(old(self).bits_spec(), id),
    {
        let b = self.bits;
        let i = id as u64;
        let bit: u64 = 1u64 << i;
        proof {
            assert((b & (1u64 << i) == 0u64) == ((b >> i) & 1u64 != 1u64)) by (bit_vector)
                requires i < 64;
            assert(((b | (1u64 << i)) >> i) & 1u64 == 1u64) by (bit_vector) requires i < 64;
            assert(forall|j: u64| j < 64 && j != i ==>
                (((b | (1u64 << i)) >> j) & 1u64 == 1u64) == ((b >> j) & 1u64 == 1u64)) by (bit_vector)
                requires i < 64;
        }
        let was_clear = (self.bits & bit) == 0;
        self.bits = self.bits | bit;
        was_clear
    }

    /// Grant device `id`, as the shared form does under its lock; returns whether it
    /// was newly granted.
    pub fn set(&mut self, id: usize) -> (r: bool)
        requires id < 64,
        ensures
            r == !old(self).granted(id),
            final(self).granted(id),
            forall|i: usize| i < 64 && i != id ==> final(self).granted(i) == old(self).granted(i),
            final(self).bits_spec() == grant_bits(old(self).bits_spec(), id),
    {
        self.set_mut(id)
    }

    /// Revoke device `id`. Other devices are unchanged.
    pub fn unset(&mut self, id: usize)
        requires id < 64,
        ensures
            final(self).bits_spec() == revoke_bits(old(self).bits_spec(), id),
            !final(self).granted(id),
            forall|i: usize| i < 64 && i != id ==> final(self).granted(i) == old(self).granted(i),
    {
        let b = self.bits;
        let i = id as u64;
        proof {
            assert(((b & !(1u64 << i)) >> i) & 1u64 != 1u64) by (bit_vector) requires i < 64;
            assert(forall|j: u64| j < 64 && j != i ==>
                (((b & !(1u64 << i)) >> j) & 1u64 == 1u64) == ((b >> j) & 1u64 == 1u64)) by (bit_vector)
                requires i < 64;
        }
        self.bits = self.bits & !(1u64 << i);
    }

    /// The number of devices granted access.
    pub fn len(&self) -> (r: usize)
        ensures r == bits_set_below(self.bits_spec(), 64),
    {
        let mut count: usize = 0;
        let mut i: u64 = 0;
        while i < 64
            invariant
                i <= 64,
                count == bits_set_below(self.bits, i as nat),
                count <= i,
            decreases 64 - i,
        {
            if (self.bits >> i) & 1 == 1 {
                count = count + 1;
            }
            i = i + 1;
        }
        count
    }

    /// Fill `out` with the ids of the devices granted access, in increasing order
    /// (whatever `out` held before is cleared).
    pub fn agents(&self, out: &mut GrantList)
        ensures grant_items(*final(out)) == granted_list(self.bits_spec(), 64),
    {
        grant_clear(out);
        let mut i: usize = 0;
        while i < 64
            invariant
                i <= 64,
                grant_items(*out) == granted_list(self.bits, i as nat),
            decreases 64 - i,
        {
            proof { lemma_granted_list_len(self.bits, i as nat); }
            if (self.bits >> (i as u64)) & 1 == 1 {
                grant_push(out, i);
            }
            i = i + 1;
        }
    }

    /// The grants a fresh allocation of `size` bytes needs: every device already
    /// granted must be granted the new memory too. An empty allocation, or one no
    /// device was granted, needs none.
    pub fn plan_allocation_grants(&self, size: usize) -> (r: GrantStep<usize>)
        ensures
            (size == 0 || granted_list(self.bits_spec(), 64).len() == 0) ==> r == GrantStep::<usize>::Done(Ok(())),
            (size != 0 && granted_list(self.bits_spec(), 64).len() != 0) ==>
                (r matches GrantStep::<usize>::Grant(list) && list@ == granted_list(self.bits_spec(), 64)),
    {
        if size == 0 {
            return GrantStep::<usize>::Done(Ok(()));
        }
        let mut agents = grant_new();
        self.agents(&mut agents);
        let list = grant_to_vec(&agents);
        if list.len() == 0 {
            return GrantStep::<usize>::Done(Ok(()));
        }
        GrantStep::<usize>::Grant(list)
    }

    /// The first step of granting device `dev` access to an exclusively held
    /// allocation, given the pool's access mode for `dev` and whether the allocation
    /// exists yet. Nothing changes here; a `Grant` step lists the devices to grant:
    /// every device already granted, then `dev`.
    pub fn plan_grant_mut(&self, dev: usize, access: Result<AgentAccess, HsaError>,
        has_allocation: bool) -> (r: GrantStep<usize>)
        requires dev < 64,
        ensures
            self.granted(dev) ==> r == GrantStep::<usize>::Done(Ok(())),
            !self.granted(dev) ==> match access {
                Err(e) => r == GrantStep::<usize>::Done(Err(e)),
                Ok(AgentAccess::NeverAllowed) => r == GrantStep::<usize>::Done(Err(HsaError::General)),
                Ok(AgentAccess::DefaultDisallowed) => if has_allocation {
                    r matches GrantStep::<usize>::Grant(list) && list@ == granted_list(self.bits_spec(), 64).push(dev)
                } else {
                    r == GrantStep::<usize>::Done(Ok(()))
                },
                Ok(AgentAccess::DefaultAllowed) => r == GrantStep::<usize>::Done(Ok(())),
            },
    {
        if !self.get(dev) {
            return GrantStep::<usize>::Done(Ok(()));
        }
        match access {
            Err(e) => GrantStep::<usize>::Done(Err(e)),
            Ok(AgentAccess::NeverAllowed) => GrantStep::<usize>::Done(Err(HsaError::General)),
            Ok(AgentAccess::DefaultDisallowed) => {
                if !has_allocation {
                    return GrantStep::<usize>::Done(Ok(()));
                }
                let mut agents = grant_new();
                self.agents(&mut agents);
                proof { lemma_granted_list_len(self.bits, 64); }
                grant_push(&mut agents, dev);
                GrantStep::<usize>::Grant(grant_to_vec(&agents))
            },
            Ok(AgentAccess::DefaultAllowed) => GrantStep::<usize>::Done(Ok(())),
        }
    }

    /// The last step of an exclusive grant: record `dev` as granted when the grant
    /// succeeded, and pass the outcome on.
    pub fn finish_grant_mut(&mut self, dev: usize, result: Result<(), HsaError>)
        -> (r: Result<(), HsaError>)
        requires dev < 64,
        ensures
            r == result,
            result is Ok ==> final(self).granted(dev),
            result is Err ==> final(self).bits_spec() == old(self).bits_spec(),
            forall|i: usize| i < 64 && i != dev ==> final(self).granted(i) == old(self).granted(i),
    {
        match result {
            Ok(()) => {
                self.set_mut(dev);
                result
            },
            Err(_) => result,
        }
    }

    /// The first step of granting device `dev` access to a shared allocation. When a
    /// grant is needed `dev` is recorded first (so that no other grant repeats the
    /// work), and the `Grant` step lists every granted device, `dev` included. A pool
    /// that allows access by default only needs `dev` recorded.
    pub fn plan_grant_shared(&mut self, dev: usize, access: Result<AgentAccess, HsaError>,
        has_allocation: bool) -> (r: GrantStep<usize>)
        requires dev < 64,
        ensures
            old(self).granted(dev) ==> r == GrantStep::<usize>::Done(Ok(())) && final(self).bits_spec() == old(self).bits_spec(),
            !old(self).granted(dev) ==> match access {
                Err(e) => r == GrantStep::<usize>::Done(Err(e)) && final(self).bits_spec() == old(self).bits_spec(),
                Ok(AgentAccess::NeverAllowed) =>
                    r == GrantStep::<usize>::Done(Err(HsaError::General)) && final(self).bits_spec() == old(self).bits_spec(),
                Ok(AgentAccess::DefaultDisallowed) => if has_allocation {
                    &&& final(self).bits_spec() == old(self).bits_spec() | (1u64 << dev as u64)
                    &&& r matches GrantStep::<usize>::Grant(list) && list@ == granted_list(final(self).bits_spec(), 64)
                } else {
                    r == GrantStep::<usize>::Done(Ok(())) && final(self).bits_spec() == old(self).bits_spec()
                },
                Ok(AgentAccess::DefaultAllowed) =>
                    r == GrantStep::<usize>::Done(Ok(())) && final(self).bits_spec() == old(self).bits_spec() | (1u64 << dev as u64),
            },
    {
        if !self.get(dev) {
            return GrantStep::<usize>::Done(Ok(()));
        }
        match access {
            Err(e) => GrantStep::<usize>::Done(Err(e)),
            Ok(AgentAccess::NeverAllowed) => GrantStep::<usize>::Done(Err(HsaError::General)),
            Ok(AgentAccess::DefaultDisallowed) => {
                if !has_allocation {
                    return GrantStep::<usize>::Done(Ok(()));
                }
                if !self.set_mut(dev) {
                    return GrantStep::<usize>::Done(Ok(()));
                }
                let mut agents = grant_new();
                self.agents(&mut agents);
                GrantStep::<usize>::Grant(grant_to_vec(&agents))
            },
            Ok(AgentAccess::DefaultAllowed) => {
                self.set_mut(dev);
                GrantStep::<usize>::Done(Ok(()))
            },
        }
    }

    /// The last step of a shared grant: on failure `dev` is revoked again, so that
    /// no one believes the grant happened.
    pub fn finish_grant_shared(&mut self, dev: usize, result: Result<(), HsaError>)
        -> (r: Result<(), HsaError>)
        requires dev < 64,
        ensures
            r == result,
            result is Ok ==> final(self).bits_spec() == old(self).bits_spec(),
            result is Err ==> !final(self).granted(dev)
                && final(self).bits_spec() == revoke_bits(old(self).bits_spec(), dev),
            forall|i: usize| i < 64 && i != dev ==> final(self).granted(i) == old(self).granted(i),
    {
        match result {
            Ok(()) => result,
            Err(_) => {
                self.unset(dev);
                result
            },
        }
    }
}

/// What becomes of a fresh allocation once the grants it needed were made.
#[derive(Clone, Copy, Debug, PartialEq, Eq, Structural)]
pub enum AllocFinish {
    /// The allocation is handed out.
    Keep,
    /// A grant failed: the allocation is freed again and the allocation fails.
    FreeAndFail,
}

/// The last step of allocating: when the grants of the new memory (the devices
/// `plan_allocation_grants` listed) failed, the memory is freed and the
/// allocation fails, so no caller holds memory a granted device cannot reach.
pub fn finish_allocation(grants: Result<(), HsaError>) -> (r: AllocFinish)
    ensures r == (if grants is Ok { AllocFinish::Keep } else { AllocFinish::FreeAndFail }),
{
    match grants {
        Ok(()) => AllocFinish::Keep,
        Err(_) => AllocFinish::FreeAndFail,
    }
}

/// The agents (by handle) an allocator's memory has been made accessible to; `None`
/// until the first device is added. The allocator's own device agent is always put
/// first.
pub struct AccessList {
    owner: u64,
    agents: Option<HandleList>,
}

/// Whether `agent` is in an optional agent list.
pub open spec fn list_has(agents: Option<Seq<u64>>, agent: u64) -> bool {
    match agents {
        Some(l) => l.contains(agent),
        None => false,
    }
}

impl AccessList {
    /// The owning device's agent.
    pub closed spec fn owner_spec(&self) -> u64 { self.owner }

    /// The agents granted so far.
    pub closed spec fn agents_spec(&self) -> Option<Seq<u64>> {
        match self.agents {
            Some(v) => Some(handle_items(v)),
            None => None,
        }
    }

    /// A list for an allocator owned by `owner`, with no agent yet.
    pub fn new(owner: u64) -> (r: AccessList)
        ensures r.owner_spec() == owner, r.agents_spec() is None,
    {
        AccessList { owner, agents: None }
    }

    /// Whether `agent` can use the allocator's memory.
    pub fn is_accessible_to(&self, agent: u64) -> (r: bool)
        ensures r == list_has(self.agents_spec(), agent),
    {
        match &self.agents {
            None => false,
            Some(list) => {
                let v = handles_to_vec(list);
                assert(self.agents_spec() == Some(v@));
                let mut i: usize = 0;
                while i < v.len()
                    invariant
                        i <= v.len(),
                        self.agents_spec() == Some(v@),
                        forall|k: int| 0 <= k < i ==> v@[k] != agent,
                    decreases v.len() - i,
                {
                    if v[i] == agent {
                        assert(v@[i as int] == agent);
                        assert(v@.contains(agent));
                        assert(list_has(self.agents_spec(), agent));
                        return true;
                    }
                    i = i + 1;
                }
                false
            },
        }
    }

    /// The first step of adding `agent`: an agent already present needs nothing.
    /// Otherwise the list is started with the owner, `agent` is appended unless it is
    /// the owner, and the pool's access mode decides: a failed query undoes the
    /// append, a pool never shareable fails, a pool needing grants asks to grant the
    /// allocation (when it exists) to the whole list, and a pool allowing access by
    /// default is done.
    pub fn plan_add_access(&mut self, agent: u64, access: Result<AgentAccess, HsaError>,
        has_allocation: bool) -> (r: GrantStep<u64>)
        requires old(self).agents_spec() matches Some(l) ==> l.len() + 1 < usize::MAX,
        ensures
            final(self).owner_spec() == old(self).owner_spec(),
            list_has(old(self).agents_spec(), agent) ==>
                r == GrantStep::<u64>::Done(Ok(())) && final(self).agents_spec() == old(self).agents_spec(),
            !list_has(old(self).agents_spec(), agent) ==> {
                let base = match old(self).agents_spec() {
                    Some(l) => l,
                    None => seq![old(self).owner_spec()],
                };
                let added = if agent != old(self).owner_spec() { base.push(agent) } else { base };
                match access {
                    Err(e) => r == GrantStep::<u64>::Done(Err(e))
                        && final(self).agents_spec() == Some(if added.len() > 0 { added.drop_last() } else { added }),
                    Ok(AgentAccess::NeverAllowed) => r == GrantStep::<u64>::Done(Err(HsaError::General))
                        && final(self).agents_spec() == Some(added),
                    Ok(AgentAccess::DefaultDisallowed) => final(self).agents_spec() == Some(added) && if has_allocation {
                        r matches GrantStep::Grant(list) && list@ == added
                    } else {
                        r == GrantStep::<u64>::Done(Ok(()))
                    },
                    Ok(AgentAccess::DefaultAllowed) => r == GrantStep::<u64>::Done(Ok(()))
                        && final(self).agents_spec() == Some(added),
                }
            },
    {
        if self.is_accessible_to(agent) {
            return GrantStep::Done(Ok(()));
        }
        let mut list = match self.agents.take() {
            Some(v) => v,
            None => {
                let mut v = handles_new();
                handles_push(&mut v, self.owner);
                assert(handle_items(v) == seq![self.owner]);
                v
            },
        };
        let ghost base = handle_items(list);
        assert(base == match old(self).agents_spec() {
            Some(l) => l,
            None => seq![old(self).owner_spec()],
        });
        if agent != self.owner {
            handles_push(&mut list, agent);
        }
        let ghost added = handle_items(list);
        assert(added == if agent != old(self).owner_spec() { base.push(agent) } else { base });
        let step = match access {
            Err(e) => {
                handles_pop(&mut list);
                GrantStep::Done(Err(e))
            },
            Ok(AgentAccess::NeverAllowed) => GrantStep::Done(Err(HsaError::General)),
            Ok(AgentAccess::DefaultDisallowed) => {
                if has_allocation {
                    GrantStep::Grant(handles_to_vec(&list))
                } else {
                    GrantStep::Done(Ok(()))
                }
            },
            Ok(AgentAccess::DefaultAllowed) => GrantStep::Done(Ok(())),
        };
        self.agents = Some(list);
        step
    }

    /// The last step of adding an agent: a failed grant removes the last agent again.
    pub fn finish_add_access(&mut self, result: Result<(), HsaError>) -> (r: Result<(), HsaError>)
        ensures
            r == result,
            final(self).owner_spec() == old(self).owner_spec(),
            result is Ok ==> final(self).agents_spec() == old(self).agents_spec(),
            result is Err ==> final(self).agents_spec() == match old(self).agents_spec() {
                Some(l) => if l.len() > 0 { Some(l.drop_last()) } else { Some(l) },
                None => None::<Seq<u64>>,
            },
    {
        match result {
            Ok(()) => result,
            Err(_) => {
                match self.agents.take() {
                    Some(mut v) => {
                        handles_pop(&mut v);
                        self.agents = Some(v);
                    },
                    None => {},
                }
                result
            },
        }
    }
}

impl Default for Accessible {
    /// No device has access.
    fn default() -> (r: Self)
        ensures r.bits_spec() == 0,
    {
        Accessible::new()
    }
}

/// Law: a fresh set counts no device, and a set made for one local device counts
/// that one.
pub proof fn law_fresh_len(id: usize)
    requires id < 64,
    ensures
        bits_set_below(0u64, 64) == 0,
        bits_set_below(1u64 << id as u64, 64) == 1,
{
    lemma_bits_below_empty(64);
    lemma_bits_below_single(id as u64, 64);
}

/// No bit of the empty set is counted.
proof fn lemma_bits_below_empty(n: nat)
    requires n <= 64,
    ensures bits_set_below(0u64, n) == 0,
    decreases n,
{
    if n > 0 {
        lemma_bits_below_empty((n - 1) as nat);
        let j = (n - 1) as u64;
        assert((0u64 >> j) & 1u64 != 1u64) by (bit_vector);
    }
}

/// A set of one bit counts that bit once it lies below `n`.
proof fn lemma_bits_below_single(i: u64, n: nat)
    requires i < 64, n <= 64,
    ensures bits_set_below(1u64 << i, n) == if i < n { 1nat } else { 0nat },
    decreases n,
{
    if n > 0 {
        lemma_bits_below_single(i, (n - 1) as nat);
        let j = (n - 1) as u64;
        assert((((1u64 << i) >> j) & 1u64 == 1u64) == (i == j)) by (bit_vector)
            requires i < 64, j < 64;
    }
}

impl Clone for Accessible {
    /// A copy of the granted set (with a fresh lock in a concurrent setting).
    fn clone(&self) -> (r: Self)
        ensures r.bits_spec() == self.bits_spec(),
    {
        Accessible { bits: self.bits }
    }
}

} // verus!
