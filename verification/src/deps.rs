//! Dependencies of a dispatch and the barrier packets that wait on them.
use vstd::prelude::*;
use crate::inline_vec::{batch_items, batch_new, batch_push, batch_len, batch_clear, batch_to_vec};

verus! {

broadcast use vstd::seq::Seq::lemma_flatten_push, vstd::seq::Seq::lemma_flatten_singleton;

/// Number of dependency signals one barrier-AND packet can wait on.
pub const BARRIER_AND_SIGNALS: usize = 5;

/// The contents of each batch.
pub open spec fn batch_views(b: Seq<Vec<u64>>) -> Seq<Seq<u64>> {
    b.map_values(|v: Vec<u64>| v@)
}

/// The number of barrier packets needed to wait on `n` signals: `ceil(n / 5)`.
pub open spec fn barrier_packet_count(n: int) -> int {
    (n + 4) / 5
}

/// A splitting of a signal list into barrier packets: read in order the batches
/// give back the list, every batch but the last is full, and none is empty.
pub open spec fn is_barrier_split(signals: Seq<u64>, batches: Seq<Seq<u64>>) -> bool {
    &&& batches.flatten() == signals
    &&& forall|i: int| 0 <= i < batches.len() ==> 1 <= #[trigger] batches[i].len() <= 5
    &&& forall|i: int| 0 <= i < batches.len() - 1 ==> #[trigger] batches[i].len() == 5
}

/// Count the barrier packets needed for `signals`, the way the dependency walk
/// does: one packet per five signals and one more for a partial batch.
pub fn barrier_packets(signals: &Vec<u64>) -> (r: i64)
    ensures r == barrier_packet_count(signals.len() as int),
{
    let mut packets: i64 = 0;
    let mut count: usize = 0;
    let mut i: usize = 0;
    while i < signals.len()
        invariant
            i <= signals.len(),
            count < 5,
            packets as int * 5 + count as int == i as int,
            0 <= packets as int <= i as int / 5,
        decreases signals.len() - i,
    {
        count = count + 1;
        if count == BARRIER_AND_SIGNALS {
            packets = packets + 1;
            count = 0;
        }
        i = i + 1;
    }
    if count != 0 {
        packets = packets + 1;
    }
    packets
}

/// Split `signals` into the batches of the barrier-AND packets that wait on them:
/// signals are gathered in a small inline batch that is handed out whenever it
/// fills, and once more at the end if anything is left in it.
pub fn barrier_batches(signals: &Vec<u64>) -> (r: Vec<Vec<u64>>)
    ensures
        is_barrier_split(signals@, batch_views(r@)),
        r.len() == barrier_packet_count(signals.len() as int),
{
    let mut batches: Vec<Vec<u64>> = Vec::new();
    let mut current = batch_new();
    let mut i: usize = 0;
    while i < signals.len()
        invariant
            i <= signals.len(),
            batch_items(current).len() < 5,
            batch_views(batches@).flatten() + batch_items(current) == signals@.take(i as int),
            forall|k: int| 0 <= k < batches.len() ==> #[trigger] batches@[k]@.len() == 5,
            batches.len() * 5 + batch_items(current).len() == i,
        decreases signals.len() - i,
    {
        let ghost old_batches = batches@;
        batch_push(&mut current, signals[i]);
        assert(signals@.take(i as int + 1) == signals@.take(i as int).push(signals@[i as int]));
        if batch_len(&current) == BARRIER_AND_SIGNALS {
            let full = batch_to_vec(&current);
            batch_clear(&mut current);
            batches.push(full);
            assert(batch_views(batches@) == batch_views(old_batches).push(full@));
        }
        i = i + 1;
    }
    assert(signals@.take(signals.len() as int) == signals@);
    let ghost full_batches = batches@;
    assert(forall|k: int| 0 <= k < full_batches.len() ==> #[trigger] full_batches[k]@.len() == 5);
    if batch_len(&current) > 0 {
        let ghost old_batches = batches@;
        let last = batch_to_vec(&current);
        batches.push(last);
        assert(batch_views(batches@) == batch_views(old_batches).push(last@));
    } else {
        assert(batch_items(current) == Seq::<u64>::empty());
        assert(batch_views(batches@).flatten() + Seq::<u64>::empty() == batch_views(batches@).flatten());
    }
    assert forall|k: int| 0 <= k < batches.len() implies 1 <= #[trigger] batch_views(batches@)[k].len() <= 5 by {
        assert(batch_views(batches@)[k] == batches@[k]@);
        if k < full_batches.len() {
            assert(batches@[k] == full_batches[k]);
            assert(full_batches[k].len() == 5);
            assert(full_batches[k]@.len() == 5);
        } else {
            assert(batches@[k]@.len() >= 1);
        }
    }
    assert forall|k: int| 0 <= k < batches.len() - 1 implies #[trigger] batch_views(batches@)[k].len() == 5 by {
        assert(batch_views(batches@)[k] == batches@[k]@);
        assert(k < full_batches.len());
        assert(batches@[k] == full_batches[k]);
        assert(full_batches[k].len() == 5);
    }
    batches
}

/// The predicate "is not signal `c`".
pub open spec fn is_not(c: u64) -> spec_fn(u64) -> bool {
    |s: u64| s != c
}

/// The dependencies a dispatch waits on: every dependency signal except its own
/// completion signal, which would otherwise never be signaled.
pub fn arg_deps(deps: &Vec<u64>, completion: u64) -> (r: Vec<u64>)
    ensures r@ == deps@.filter(is_not(completion)),
{
    let mut out: Vec<u64> = Vec::new();
    let mut i: usize = 0;
    assert(deps@.take(0) =~= Seq::<u64>::empty());
    proof { reveal(Seq::filter); }
    while i < deps.len()
        invariant
            i <= deps.len(),
            out@ == deps@.take(i as int).filter(is_not(completion)),
        decreases deps.len() - i,
    {
        let ghost before = deps@.take(i as int);
        assert(deps@.take(i as int + 1) == before.push(deps@[i as int]));
        proof { before.lemma_filter_push(deps@[i as int], is_not(completion)); }
        if deps[i] != completion {
            out.push(deps[i]);
        }
        i = i + 1;
    }
    assert(deps@.take(deps.len() as int) == deps@);
    out
}

/// Law: a dispatch never waits on its own completion signal.
pub proof fn law_no_completion_in_arg_deps(deps: Seq<u64>, completion: u64)
    ensures !deps.filter(is_not(completion)).contains(completion),
{
    deps.filter_lemma(is_not(completion));
    if deps.filter(is_not(completion)).contains(completion) {
        let k = choose|k: int| 0 <= k < deps.filter(is_not(completion)).len()
            && deps.filter(is_not(completion))[k] == completion;
        assert(is_not(completion)(deps.filter(is_not(completion))[k]));
    }
}

/// A barrier over a set of dependencies: the value its completion signal is reset
/// to (one per packet) and the packets' signal batches.
pub struct BarrierPlan {
    /// The completion signal's starting value: the number of packets.
    pub packets: i64,
    /// The signals of each barrier-AND packet, in order.
    pub batches: Vec<Vec<u64>>,
}

/// Plan a barrier over `signals`: reset the completion signal to the packet count
/// and enqueue one barrier-AND packet per batch. With no signals there is nothing to
/// enqueue.
pub fn barrier_plan(signals: &Vec<u64>) -> (r: BarrierPlan)
    ensures
        r.packets == barrier_packet_count(signals.len() as int),
        r.packets == r.batches.len(),
        is_barrier_split(signals@, batch_views(r.batches@)),
{
    let packets = barrier_packets(signals);
    if packets == 0 {
        assert(signals@ =~= Seq::<u64>::empty());
        assert(batch_views(Seq::<Vec<u64>>::empty()) =~= Seq::<Seq<u64>>::empty());
        assert(Seq::<Seq<u64>>::empty().flatten() =~= Seq::<u64>::empty());
        return BarrierPlan { packets, batches: Vec::new() };
    }
    BarrierPlan { packets, batches: barrier_batches(signals) }
}

/// Law: splitting loses, duplicates and reorders no signal, and uses exactly one
/// packet per five signals, rounded up.
pub proof fn law_barrier_split_len(signals: Seq<u64>, batches: Seq<Seq<u64>>)
    requires is_barrier_split(signals, batches),
    ensures batches.len() == barrier_packet_count(signals.len() as int),
    decreases batches.len(),
{
    if batches.len() == 0 {
        assert(signals == batches.flatten());
    } else {
        let init = batches.drop_last();
        assert(batches == init.push(batches.last()));
        init.lemma_flatten_push(batches.last());
        assert(is_barrier_split(init.flatten(), init));
        law_barrier_split_len(init.flatten(), init);
        if init.len() > 0 {
            assert(init.flatten().len() == init.len() * 5) by {
                lemma_full_batches_len(init);
            }
        }
    }
}

proof fn lemma_full_batches_len(b: Seq<Seq<u64>>)
    requires forall|i: int| 0 <= i < b.len() ==> #[trigger] b[i].len() == 5,
    ensures b.flatten().len() == b.len() * 5,
    decreases b.len(),
{
    if b.len() > 0 {
        let init = b.drop_last();
        assert(b == init.push(b.last()));
        init.lemma_flatten_push(b.last());
        lemma_full_batches_len(init);
    }
}

} // verus!
