use geobacter_runtime::deps::{arg_deps, barrier_batches, barrier_packets, barrier_plan};
use geobacter_runtime::args_pool::{alignment_padding, args_pool_bytes, arena_bytes, ArgsPool, ARGS_ALIGN};
use geobacter_runtime::accessible::{check_pool_alignment, finish_allocation, grant_call, AllocFinish, AccessList, Accessible, AgentAccess,
    GrantCall, GrantStep, HsaError};
use geobacter_runtime::async_copy::{copies_to_host, plan_async_copy, plan_copy_from_device,
    plan_copy_into_device, plan_copy_peer, CopyPlan};
use geobacter_runtime::error::Error;
use geobacter_runtime::grid::Dim3D;
use geobacter_runtime::launch::{reserve_launch, LaunchPlan};
use geobacter_runtime::signal::{host_wait_action, transfer_drop_action, HostWait};
use geobacter_runtime::signal::{completion_drop, timeout_nanos, wait_outcome, zero_wait_step,
    zero_wait_timeout_outcome, CompletionDrop, ConditionOrdering, WakeCondition, ZeroWait};

#[test]
fn no_completion_in_deps() {
    let dep = 0x1000u64;
    let completion = 0x2000u64;
    let deps = arg_deps(&vec![dep, completion], completion);
    for s in deps.iter() {
        assert_ne!(*s, completion);
    }
    assert_eq!(deps, vec![dep]);
}

#[test]
fn barrier_packets_round_up_per_five() {
    assert_eq!(barrier_packets(&vec![]), 0);
    assert_eq!(barrier_packets(&vec![1]), 1);
    assert_eq!(barrier_packets(&vec![1, 2, 3, 4, 5]), 1);
    assert_eq!(barrier_packets(&vec![1, 2, 3, 4, 5, 6]), 2);
    assert_eq!(barrier_packets(&(0..11).collect()), 3);
}

#[test]
fn barrier_batches_split_in_order() {
    let signals: Vec<u64> = (1..=12).collect();
    let b = barrier_batches(&signals);
    assert_eq!(b, vec![vec![1, 2, 3, 4, 5], vec![6, 7, 8, 9, 10], vec![11, 12]]);
    let b = barrier_batches(&(1..=10).collect());
    assert_eq!(b, vec![vec![1, 2, 3, 4, 5], vec![6, 7, 8, 9, 10]]);
    assert!(barrier_batches(&vec![]).is_empty());
}

#[test]
fn barrier_plan_resets_to_packet_count() {
    let plan = barrier_plan(&(1..=7).collect());
    assert_eq!(plan.packets, 2);
    assert_eq!(plan.batches, vec![vec![1, 2, 3, 4, 5], vec![6, 7]]);
    let empty = barrier_plan(&vec![]);
    assert_eq!(empty.packets, 0);
    assert!(empty.batches.is_empty());
}

#[test]
fn args_pool_bump_allocates_aligned_blocks() {
    let mut pool = ArgsPool::from_arena(4096, 1024);
    assert_eq!(pool.size(), 1024);
    assert_eq!(pool.start_byte(), 4096);
    assert_eq!(pool.end_byte(), 5120);
    let a = pool.alloc_block(24, 8).unwrap();
    assert_eq!(a, 4096);
    let b = pool.alloc_block(24, 8).unwrap();
    assert_eq!(b % ARGS_ALIGN, 0);
    assert!(b >= a + 24);
    assert_eq!(b, 4096 + 128);
    let c = pool.alloc_block(8, 256).unwrap();
    assert_eq!(c % 256, 0);
    assert_eq!(c, 4096 + 256);
    // no room left for a large block
    assert_eq!(pool.alloc_block(2048, 8), None);
    // washing resets the arena
    pool.wash();
    assert_eq!(pool.alloc_block(24, 8), Some(4096));
}

#[test]
fn args_pool_sizes() {
    assert_eq!(alignment_padding(4096, 128), 0);
    assert_eq!(alignment_padding(4100, 128), 124);
    assert_eq!(arena_bytes(100, 4096), 4096);
    assert_eq!(arena_bytes(8192, 4096), 8192);
    assert_eq!(args_pool_bytes(24, 8, 10, 16, 0), Ok(240));
    assert_eq!(args_pool_bytes(24, 8, 10, 16, 4096), Ok(4096));
    assert_eq!(args_pool_bytes(24, 32, 10, 16, 0), Err(Error::Alloc));
    assert_eq!(args_pool_bytes(24, 8, usize::MAX, 16, 0), Err(Error::Overflow));
}

#[test]
fn accessible_bits() {
    let mut a = Accessible::new();
    assert_eq!(a.len(), 0);
    assert_eq!(Accessible::default().len(), 0);
    assert!(a.get(3));
    assert!(a.set_mut(3));
    assert!(!a.get(3));
    assert!(!a.set_mut(3));
    assert!(a.set(5));
    assert_eq!(a.len(), 2);
    a.unset(3);
    assert!(a.get(3));
    assert!(!a.get(5));
    assert_eq!(a.len(), 1);
    let local = Accessible::new_local(7);
    assert!(!local.get(7));
    assert_eq!(local.len(), 1);
    let copy = local.clone();
    assert!(!copy.get(7));
}

#[test]
fn accessible_grant_steps() {
    let mut a = Accessible::new_local(0);
    a.set_mut(2);
    // already granted: nothing to do
    assert_eq!(a.plan_grant_mut(2, Ok(AgentAccess::DefaultDisallowed), true), GrantStep::Done(Ok(())));
    assert_eq!(a.plan_grant_mut(4, Err(HsaError::Status(7)), true), GrantStep::Done(Err(HsaError::Status(7))));
    assert_eq!(a.plan_grant_mut(4, Ok(AgentAccess::NeverAllowed), true), GrantStep::Done(Err(HsaError::General)));
    assert_eq!(a.plan_grant_mut(4, Ok(AgentAccess::DefaultAllowed), true), GrantStep::Done(Ok(())));
    assert_eq!(a.plan_grant_mut(4, Ok(AgentAccess::DefaultDisallowed), false), GrantStep::Done(Ok(())));
    assert_eq!(a.plan_grant_mut(4, Ok(AgentAccess::DefaultDisallowed), true), GrantStep::Grant(vec![0, 2, 4]));
    assert_eq!(a.finish_grant_mut(4, Ok(())), Ok(()));
    assert!(!a.get(4));

    // shared grant: recorded first, revoked again when the grant fails
    let mut s = Accessible::new_local(1);
    assert_eq!(s.plan_grant_shared(6, Ok(AgentAccess::DefaultDisallowed), true), GrantStep::Grant(vec![1, 6]));
    assert!(!s.get(6));
    assert_eq!(s.finish_grant_shared(6, Err(HsaError::General)), Err(HsaError::General));
    assert!(s.get(6));
    assert_eq!(s.len(), 1);
    assert_eq!(s.plan_grant_shared(6, Ok(AgentAccess::DefaultAllowed), true), GrantStep::Done(Ok(())));
    assert!(!s.get(6));
}

#[test]
fn allocation_grants() {
    let none = Accessible::new();
    assert_eq!(none.plan_allocation_grants(64), GrantStep::Done(Ok(())));
    let mut a = Accessible::new_local(3);
    a.set_mut(9);
    assert_eq!(a.plan_allocation_grants(0), GrantStep::Done(Ok(())));
    assert_eq!(a.plan_allocation_grants(64), GrantStep::Grant(vec![3, 9]));
}

#[test]
fn access_list_adds_agents() {
    let mut l = AccessList::new(100);
    assert!(!l.is_accessible_to(100));
    assert_eq!(l.plan_add_access(200, Ok(AgentAccess::DefaultDisallowed), true), GrantStep::Grant(vec![100, 200]));
    assert!(l.is_accessible_to(100));
    assert!(l.is_accessible_to(200));
    assert_eq!(l.plan_add_access(200, Ok(AgentAccess::DefaultDisallowed), true), GrantStep::Done(Ok(())));
    // a failed grant takes the agent out again
    assert_eq!(l.plan_add_access(300, Ok(AgentAccess::DefaultDisallowed), true), GrantStep::Grant(vec![100, 200, 300]));
    assert_eq!(l.finish_add_access(Err(HsaError::General)), Err(HsaError::General));
    assert!(!l.is_accessible_to(300));
    // a failed query takes it out at once
    assert_eq!(l.plan_add_access(400, Err(HsaError::Status(3)), true), GrantStep::Done(Err(HsaError::Status(3))));
    assert!(!l.is_accessible_to(400));
    assert_eq!(l.plan_add_access(500, Ok(AgentAccess::NeverAllowed), true), GrantStep::Done(Err(HsaError::General)));
    assert_eq!(l.plan_add_access(600, Ok(AgentAccess::DefaultAllowed), true), GrantStep::Done(Ok(())));
    assert!(l.is_accessible_to(600));
}

#[test]
fn grant_calls_and_alignment() {
    assert_eq!(grant_call(&vec![]), GrantCall::Agents(vec![]));
    assert_eq!(grant_call(&vec![7]), GrantCall::Agent(7));
    assert_eq!(grant_call(&vec![7, 8]), GrantCall::Agents(vec![7, 8]));
    assert_eq!(check_pool_alignment(Some(4096), 64), Ok(()));
    assert_eq!(check_pool_alignment(Some(16), 64), Err(HsaError::IncompatibleArguments));
    assert_eq!(check_pool_alignment(None, 8), Err(HsaError::IncompatibleArguments));
}

#[test]
fn async_copy_plans() {
    assert_eq!(plan_async_copy(None, Some(8), &vec![1], 2, 3), CopyPlan::SignalOnly);
    assert_eq!(plan_async_copy(Some(8), None, &vec![1], 2, 3), CopyPlan::SignalOnly);
    assert_eq!(plan_copy_into_device(Some(64), Some(32), &vec![5, 6], 10, 20),
               CopyPlan::Copy { bytes: 32, dst_agent: 10, src_agent: 20, signals: vec![5, 6] });
    assert_eq!(plan_copy_from_device(Some(16), Some(32), &vec![], 10, 20),
               CopyPlan::Copy { bytes: 16, dst_agent: 20, src_agent: 10, signals: vec![] });
    assert_eq!(plan_copy_peer(Some(16), Some(16), &vec![9], 10, 30),
               CopyPlan::Copy { bytes: 16, dst_agent: 30, src_agent: 10, signals: vec![9] });
    let mut deps = vec![1u64];
    let (plans, c) = copies_to_host(&mut deps, 50, 60, &vec![(Some(8), Some(8)), (None, Some(4))], 10, 20);
    assert_eq!(c, 60);
    assert_eq!(deps, vec![1, 50]);
    assert_eq!(plans, vec![
        CopyPlan::Copy { bytes: 8, dst_agent: 20, src_agent: 10, signals: vec![50] },
        CopyPlan::SignalOnly,
    ]);
}

#[test]
fn signal_waits() {
    assert_eq!(WakeCondition::Less(3).into_pair(), (ConditionOrdering::Less, 3));
    assert!(WakeCondition::GreaterEqual(2).satisfied(2));
    assert!(!WakeCondition::NotEqual(2).satisfied(2));
    assert_eq!(wait_outcome(WakeCondition::Equal(0), 0), Ok(0));
    assert_eq!(wait_outcome(WakeCondition::Equal(0), 4), Err(4));
    assert_eq!(zero_wait_step(3), ZeroWait::KeepWaiting);
    assert_eq!(zero_wait_step(0), ZeroWait::Done(Ok(())));
    assert_eq!(zero_wait_step(-2), ZeroWait::Done(Err(-2)));
    assert_eq!(zero_wait_timeout_outcome(1), Err(1));
    assert_eq!(zero_wait_timeout_outcome(0), Ok(()));
    assert_eq!(zero_wait_timeout_outcome(-1), Err(-1));
    assert_eq!(timeout_nanos(5), Some(5));
    assert_eq!(timeout_nanos(u64::MAX as u128 + 1), None);
    assert_eq!(completion_drop(true, false, false), CompletionDrop::Release);
    assert_eq!(completion_drop(false, true, false), CompletionDrop::WaitThenRelease);
    assert_eq!(completion_drop(false, false, false), CompletionDrop::Panic);
    assert_eq!(completion_drop(false, false, true), CompletionDrop::WarnLeak);
}

#[test]
fn host_waits() {
    assert_eq!(host_wait_action(false, false, true), HostWait::Nothing);
    assert_eq!(host_wait_action(true, true, true), HostWait::Nothing);
    assert_eq!(host_wait_action(true, false, true), HostWait::WaitForZero);
    assert_eq!(host_wait_action(true, false, false), HostWait::ExpectZero);
    assert_eq!(transfer_drop_action(0, false), HostWait::Nothing);
    assert_eq!(transfer_drop_action(2, true), HostWait::WaitForZero);
    assert_eq!(transfer_drop_action(-1, false), HostWait::ExpectZero);
}

#[test]
fn launch_reserves_args_after_checks() {
    let plan = LaunchPlan { workgroup: Dim3D { x: 8, y: 1, z: 1 }, grid: Dim3D { x: 16, y: 1, z: 1 } };
    let mut pool = ArgsPool::from_arena(4096, 256);
    // a refused launch takes nothing from the arena and hands the arguments back
    assert_eq!(reserve_launch(Err(Error::ZeroGridLaunchAxis), &mut pool, 64, 8, "args"),
        Err((Error::ZeroGridLaunchAxis, "args")));
    assert_eq!(reserve_launch(Ok(plan), &mut pool, 64, 8, "args"), Ok((plan, 4096, "args")));
    assert_eq!(reserve_launch(Ok(plan), &mut pool, 64, 8, "args"), Ok((plan, 4224, "args")));
    // the arena is full: the arguments come back
    assert_eq!(reserve_launch(Ok(plan), &mut pool, 64, 8, "args"), Err((Error::KernelArgsPoolOom, "args")));
    pool.wash();
    assert_eq!(reserve_launch(Ok(plan), &mut pool, 64, 8, "args"), Ok((plan, 4096, "args")));
}

#[test]
fn failed_grant_frees_the_allocation() {
    assert_eq!(finish_allocation(Ok(())), AllocFinish::Keep);
    assert_eq!(finish_allocation(Err(HsaError::General)), AllocFinish::FreeAndFail);
}
