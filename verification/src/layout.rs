//! Pipeline layouts, descriptor sets and shader interfaces.
use vstd::prelude::*;
use crate::descriptors::{
    CompilerDescriptorDesc, DescriptorDesc, Format, FORMAT_COUNT, convert_descriptor_desc, desc_ok, desc_spec,
    compiler_img_format,
};

verus! {

/// The bindings of one descriptor set: its set number and its bindings, in
/// increasing binding order.
#[derive(Debug)]
pub struct CompilerDescriptorBindingsDesc(pub u32, pub Vec<CompilerDescriptorDesc>);

/// Every binding of a list can be converted.
pub open spec fn all_ok(s: Seq<CompilerDescriptorDesc>) -> bool {
    forall|i: int| 0 <= i < s.len() ==> desc_ok(#[trigger] s[i])
}

/// Binding numbers strictly increase along the list.
pub open spec fn bindings_sorted(s: Seq<CompilerDescriptorDesc>) -> bool {
    forall|i: int, j: int| 0 <= i < j < s.len() ==> s[i].0 < s[j].0
}

/// The number of binding slots of a set: one past its last binding, or zero.
pub open spec fn set_len(s: Seq<CompilerDescriptorDesc>) -> int {
    if s.len() == 0 { 0 } else { s.last().0 + 1 }
}

/// The set's bindings as one slot per binding number: the converted descriptor where
/// a binding exists, `None` in the gaps.
pub open spec fn dense(s: Seq<CompilerDescriptorDesc>) -> Seq<Option<DescriptorDesc>>
    decreases s.len(),
{
    if s.len() == 0 {
        Seq::empty()
    } else {
        let prev = dense(s.drop_last());
        prev + gaps(s.last().0 - prev.len()) + seq![Some(desc_spec(s.last()))]
    }
}

/// A descriptor set of a pipeline layout.
#[derive(Clone, Copy)]
pub struct StaticDescSet<'a> {
    pub set: u32,
    pub bindings: &'a Vec<CompilerDescriptorDesc>,
}

impl<'a> StaticDescSet<'a> {
    /// The number of binding slots: one past the last binding, or zero.
    pub fn len(&self) -> (r: u32)
        requires self.bindings.len() > 0 ==> self.bindings@.last().0 < u32::MAX,
        ensures r == set_len(self.bindings@),
    {
        if self.bindings.len() == 0 {
            0
        } else {
            self.bindings[self.bindings.len() - 1].0 + 1
        }
    }

    /// An iterator over the binding slots.
    pub fn iter(&self) -> (r: StaticDescSetIter<'a>)
        requires self.bindings.len() > 0 ==> self.bindings@.last().0 < u32::MAX,
        ensures
            r.set_id_spec() == self.set,
            r.descs_spec() == self.bindings@,
            r.pos_spec() == 0,
            r.last_binding_id_spec() == 0,
            r.next_binding_spec() is None,
            r.len_spec() == set_len(self.bindings@),
    {
        StaticDescSetIter {
            set: self.set,
            descs: self.bindings,
            pos: 0,
            last_binding_id: 0,
            len: self.len(),
            next_binding: None,
        }
    }

    /// Every binding slot of the set, in order: the descriptor where one is bound,
    /// `None` in the gaps. The bindings must be in increasing order.
    pub fn slots(&self) -> (r: Vec<Option<DescriptorDesc>>)
        requires
            all_ok(self.bindings@),
            bindings_sorted(self.bindings@),
            self.bindings.len() > 0 ==> self.bindings@.last().0 < u32::MAX,
        ensures r@ == dense(self.bindings@),
    {
        let mut it = self.iter();
        let mut out: Vec<Option<DescriptorDesc>> = Vec::new();
        let ghost s = self.bindings@;
        assert(s.take(0) =~= Seq::<CompilerDescriptorDesc>::empty());
        loop
            invariant
                it.descs_spec() == s,
                s == self.bindings@,
                all_ok(s),
                bindings_sorted(s),
                s.len() > 0 ==> s.last().0 < u32::MAX,
                it.pos_spec() <= s.len(),
                out.len() == it.last_binding_id_spec(),
                it.next_binding_spec() is None ==> out@ == dense(s.take(it.pos_spec() as int)),
                it.next_binding_spec() matches Some(nb) ==> {
                    &&& nb + 1 == it.pos_spec()
                    &&& dense(s.take(nb as int)).len() <= out.len() <= s[nb as int].0
                    &&& out@ == dense(s.take(nb as int)) + gaps(out.len() - dense(s.take(nb as int)).len())
                },
            ensures
                out@ == dense(s),
            decreases
                s.len() - it.pos_spec(),
                match it.next_binding_spec() { Some(nb) => s[nb as int].0 - it.last_binding_id_spec() + 1, None => 0 },
        {
            let ghost old_it = it;
            let ghost old_out = out@;
            let ghost nb = it_binding(old_it);
            proof {
                if !(it.next_binding_spec() is None && it.pos_spec() == s.len()) {
                    lemma_dense_take_len(s, nb);
                    lemma_binding_below_max(s, nb);
                    if it.next_binding_spec() is None {
                        assert(old_out =~= dense(s.take(nb)) + gaps(old_out.len() - dense(s.take(nb)).len()));
                    }
                }
            }
            match it.next() {
                None => {
                    assert(s.take(s.len() as int) =~= s);
                    break;
                },
                Some(slot) => {
                    out.push(slot);
                    proof {
                        let prefix = dense(s.take(nb));
                        if slot is Some {
                            lemma_dense_step(s, nb);
                            assert(out@ =~= dense(s.take(nb + 1)));
                        } else {
                            assert(out@ =~= prefix + gaps(out.len() - prefix.len()));
                        }
                    }
                },
            }
        }
        out
    }
}

/// `n` empty binding slots.
pub open spec fn gaps(n: int) -> Seq<Option<DescriptorDesc>> {
    Seq::new(n as nat, |i: int| None::<DescriptorDesc>)
}

/// The binding the iterator works on in its next step from `a`.
pub open spec fn it_binding<'a>(a: StaticDescSetIter<'a>) -> int {
    match a.next_binding_spec() {
        Some(nb) => nb as int,
        None => a.pos_spec() as int,
    }
}

/// Law: the slots of a set with increasing bindings are exactly `len()` many;
/// each binding's slot holds its descriptor, and every other slot is empty.
pub proof fn law_dense_slots(s: Seq<CompilerDescriptorDesc>)
    requires bindings_sorted(s),
    ensures
        dense(s).len() == set_len(s),
        forall|j: int| 0 <= j < s.len() ==> dense(s)[#[trigger] s[j].0 as int] == Some(desc_spec(s[j])),
        forall|k: int| 0 <= k < dense(s).len() && (forall|j: int| 0 <= j < s.len() ==> s[j].0 != k)
            ==> #[trigger] dense(s)[k] is None,
    decreases s.len(),
{
    if s.len() > 0 {
        let init = s.drop_last();
        assert(bindings_sorted(init));
        law_dense_slots(init);
        let prev = dense(init);
        if init.len() > 0 {
            assert(init.last() == s[s.len() - 2]);
        }
        let last = s.last();
        assert(prev.len() <= last.0) by {
            if init.len() > 0 {
                assert(s[s.len() - 2].0 < s[s.len() - 1].0);
            }
        }
        let d = dense(s);
        assert(d == prev + gaps(last.0 - prev.len()) + seq![Some(desc_spec(last))]);
        assert forall|j: int| 0 <= j < s.len() implies d[#[trigger] s[j].0 as int] == Some(desc_spec(s[j])) by {
            if j < s.len() - 1 {
                assert(s[j] == init[j]);
                assert(prev[init[j].0 as int] == Some(desc_spec(init[j])));
                assert(init[j].0 < prev.len()) by {
                    if init.len() > 0 {
                        assert(init[j].0 <= init.last().0);
                    }
                }
            }
        }
        assert forall|k: int| 0 <= k < d.len() && (forall|j: int| 0 <= j < s.len() ==> s[j].0 != k)
            implies #[trigger] d[k] is None by {
            if k < prev.len() {
                assert forall|j: int| 0 <= j < init.len() implies init[j].0 != k by {
                    assert(init[j] == s[j]);
                }
                assert(prev[k] is None);
            } else if k == d.len() - 1 {
                assert(s[s.len() - 1].0 != k);
            }
        }
    }
}

proof fn lemma_dense_len(s: Seq<CompilerDescriptorDesc>)
    requires bindings_sorted(s),
    ensures dense(s).len() == set_len(s),
{
    law_dense_slots(s);
}

proof fn lemma_dense_take_len(s: Seq<CompilerDescriptorDesc>, k: int)
    requires bindings_sorted(s), 0 <= k < s.len(),
    ensures dense(s.take(k)).len() <= s[k].0,
        dense(s.take(k)).len() == set_len(s.take(k)),
{
    assert(bindings_sorted(s.take(k)));
    lemma_dense_len(s.take(k));
    if k > 0 {
        assert(s.take(k).last() == s[k - 1]);
    }
}

proof fn lemma_binding_below_max(s: Seq<CompilerDescriptorDesc>, k: int)
    requires bindings_sorted(s), 0 <= k < s.len(), s.last().0 < u32::MAX,
    ensures s[k].0 < u32::MAX,
{
    if k < s.len() - 1 {
        assert(s[k].0 < s[s.len() - 1].0);
    }
}

proof fn lemma_dense_step(s: Seq<CompilerDescriptorDesc>, k: int)
    requires bindings_sorted(s), 0 <= k < s.len(),
    ensures dense(s.take(k + 1)) == dense(s.take(k))
        + gaps(s[k].0 - dense(s.take(k)).len()) + seq![Some(desc_spec(s[k]))],
{
    assert(s.take(k + 1).drop_last() == s.take(k));
    assert(s.take(k + 1).last() == s[k]);
}

/// An iterator over the binding slots of a descriptor set: each call yields the
/// next slot, `Some(desc)` for a bound slot and `None` for a gap.
pub struct StaticDescSetIter<'a> {
    set: u32,
    descs: &'a Vec<CompilerDescriptorDesc>,
    pos: usize,
    last_binding_id: u32,
    len: u32,
    next_binding: Option<usize>,
}

impl<'a> StaticDescSetIter<'a> {
    pub closed spec fn set_id_spec(&self) -> u32 { self.set }
    pub closed spec fn descs_spec(&self) -> Seq<CompilerDescriptorDesc> { self.descs@ }
    pub closed spec fn pos_spec(&self) -> usize { self.pos }
    pub closed spec fn last_binding_id_spec(&self) -> u32 { self.last_binding_id }
    pub closed spec fn len_spec(&self) -> u32 { self.len }
    pub closed spec fn next_binding_spec(&self) -> Option<usize> { self.next_binding }

    /// The set number.
    pub fn set_id(&self) -> (r: u32)
        ensures r == self.set_id_spec(),
    {
        self.set
    }

    /// The number of slots left, as a size hint: `len - last_binding_id`.
    pub fn remaining(&self) -> (r: usize)
        requires self.last_binding_id_spec() <= self.len_spec(),
        ensures r == self.len_spec() - self.last_binding_id_spec(),
    {
        (self.len - self.last_binding_id) as usize
    }

    /// The next slot. A pending binding is yielded once the slot counter reaches its
    /// number, after a `None` for each gap slot before it; with no pending binding
    /// the next binding of the list becomes pending, and the iterator ends when there
    /// is none.
    pub fn next(&mut self) -> (r: Option<Option<DescriptorDesc>>)
        requires
            old(self).pos_spec() <= old(self).descs_spec().len(),
            old(self).next_binding_spec() matches Some(nb) ==> nb < old(self).descs_spec().len(),
            all_ok(old(self).descs_spec()),
            !(old(self).next_binding_spec() is None && old(self).pos_spec() == old(self).descs_spec().len())
                ==> old(self).last_binding_id_spec() < u32::MAX,
        ensures
            final(self).set_id_spec() == old(self).set_id_spec(),
            final(self).descs_spec() == old(self).descs_spec(),
            final(self).len_spec() == old(self).len_spec(),
            (old(self).next_binding_spec() is None && old(self).pos_spec() == old(self).descs_spec().len()) ==> {
                &&& r is None
                &&& final(self).pos_spec() == old(self).pos_spec()
                &&& final(self).last_binding_id_spec() == old(self).last_binding_id_spec()
                &&& final(self).next_binding_spec() is None
            },
            !(old(self).next_binding_spec() is None && old(self).pos_spec() == old(self).descs_spec().len()) ==> {
                let nb = match old(self).next_binding_spec() { Some(b) => b, None => old(self).pos_spec() };
                &&& final(self).pos_spec() == if old(self).next_binding_spec() is None { old(self).pos_spec() + 1 } else { old(self).pos_spec() as int }
                &&& final(self).last_binding_id_spec() == old(self).last_binding_id_spec() + 1
                &&& if old(self).last_binding_id_spec() == old(self).descs_spec()[nb as int].0 {
                    r == Some(Some(desc_spec(old(self).descs_spec()[nb as int]))) && final(self).next_binding_spec() is None
                } else {
                    r == Some(None::<DescriptorDesc>) && final(self).next_binding_spec() == Some(nb)
                }
            },
    {
        if self.next_binding.is_none() {
            if self.pos >= self.descs.len() {
                return None;
            }
            self.next_binding = Some(self.pos);
            self.pos = self.pos + 1;
        }
        let nb = match self.next_binding { Some(b) => b, None => 0 };
        let last_id = self.last_binding_id;
        self.last_binding_id = self.last_binding_id + 1;
        if last_id == self.descs[nb].0 {
            self.next_binding = None;
            Some(Some(convert_descriptor_desc(&self.descs[nb])))
        } else {
            Some(None)
        }
    }
}

/// The number of sets of a layout: one past its last set, or zero.
pub open spec fn num_sets_spec(sets: Seq<CompilerDescriptorBindingsDesc>) -> int {
    if sets.len() == 0 { 0 } else { sets.last().0 + 1 }
}

/// Set numbers strictly increase along the list.
pub open spec fn sets_sorted(s: Seq<CompilerDescriptorBindingsDesc>) -> bool {
    forall|i: int, j: int| 0 <= i < j < s.len() ==> s[i].0 < s[j].0
}

/// The descriptor set layout of a pipeline: its sets, in increasing set order.
pub struct StaticPipelineLayoutDesc(pub Vec<CompilerDescriptorBindingsDesc>);

/// Binary search by key: an index whose key is `key`, or `None`. Keys must increase
/// along the list for `None` to mean the key is absent.
fn search_sets(sets: &Vec<CompilerDescriptorBindingsDesc>, key: usize) -> (r: Option<usize>)
    ensures
        r matches Some(i) ==> i < sets.len() && sets@[i as int].0 as int == key,
        r is None && sets_sorted(sets@) ==> forall|i: int| 0 <= i < sets.len() ==> sets@[i].0 as int != key,
{
    let mut lo: usize = 0;
    let mut hi: usize = sets.len();
    while lo < hi
        invariant
            lo <= hi <= sets.len(),
            sets_sorted(sets@) ==>
                forall|i: int| 0 <= i < sets.len() && (i < lo || i >= hi) ==> sets@[i].0 as int != key,
        decreases hi - lo,
    {
        let mid = lo + (hi - lo) / 2;
        let k = sets[mid].0 as usize;
        if k == key {
            return Some(mid);
        } else if k < key {
            lo = mid + 1;
        } else {
            hi = mid;
        }
    }
    None
}

/// Binary search of a set's bindings by binding number.
fn search_bindings(bindings: &Vec<CompilerDescriptorDesc>, key: usize) -> (r: Option<usize>)
    ensures
        r matches Some(i) ==> i < bindings.len() && bindings@[i as int].0 as int == key,
        r is None && bindings_sorted(bindings@) ==> forall|i: int| 0 <= i < bindings.len() ==> bindings@[i].0 as int != key,
{
    let mut lo: usize = 0;
    let mut hi: usize = bindings.len();
    while lo < hi
        invariant
            lo <= hi <= bindings.len(),
            bindings_sorted(bindings@) ==>
                forall|i: int| 0 <= i < bindings.len() && (i < lo || i >= hi) ==> bindings@[i].0 as int != key,
        decreases hi - lo,
    {
        let mid = lo + (hi - lo) / 2;
        let k = bindings[mid].0 as usize;
        if k == key {
            return Some(mid);
        } else if k < key {
            lo = mid + 1;
        } else {
            hi = mid;
        }
    }
    None
}

impl StaticPipelineLayoutDesc {
    /// The layout's descriptor sets, in order.
    pub fn set_iter(&self) -> (r: Vec<StaticDescSet<'_>>)
        ensures
            r.len() == self.0.len(),
            forall|i: int| 0 <= i < r.len() ==> (#[trigger] r@[i]).set == self.0@[i].0 && r@[i].bindings@ == self.0@[i].1@,
    {
        let mut out: Vec<StaticDescSet<'_>> = Vec::new();
        let mut i: usize = 0;
        while i < self.0.len()
            invariant
                i <= self.0.len(),
                out.len() == i,
                forall|k: int| 0 <= k < i ==> (#[trigger] out@[k]).set == self.0@[k].0 && out@[k].bindings@ == self.0@[k].1@,
            decreases self.0.len() - i,
        {
            out.push(StaticDescSet { set: self.0[i].0, bindings: &self.0[i].1 });
            i = i + 1;
        }
        out
    }

    /// The number of sets: one past the last set number, or zero.
    pub fn num_sets(&self) -> (r: usize)
        requires self.0.len() > 0 ==> self.0@.last().0 < usize::MAX,
        ensures r == num_sets_spec(self.0@),
    {
        if self.0.len() == 0 { 0 } else { self.0[self.0.len() - 1].0 as usize + 1 }
    }

    /// The number of binding slots of set `set`, or `None` when there is no such set.
    pub fn num_bindings_in_set(&self, set: usize) -> (r: Option<usize>)
        requires forall|i: int| 0 <= i < self.0.len() ==> (#[trigger] self.0@[i]).1.len() > 0 ==> self.0@[i].1@.last().0 < u32::MAX,
        ensures
            r matches Some(n) ==> exists|i: int| 0 <= i < self.0.len() && self.0@[i].0 as int == set
                && self.0@[i].1.len() > 0 && n == self.0@[i].1@.last().0 + 1,
            sets_sorted(self.0@) ==> (
                r is None <==> forall|i: int| 0 <= i < self.0.len() && self.0@[i].0 as int == set ==> self.0@[i].1.len() == 0),
    {
        match search_sets(&self.0, set) {
            None => None,
            Some(i) => {
                let b = &self.0[i].1;
                if b.len() == 0 {
                    proof {
                        if sets_sorted(self.0@) {
                            assert forall|j: int| 0 <= j < self.0.len() && self.0@[j].0 as int == set
                                implies self.0@[j].1.len() == 0 by {
                                if j < i {
                                    assert(self.0@[j].0 < self.0@[i as int].0);
                                } else if j > i {
                                    assert(self.0@[i as int].0 < self.0@[j].0);
                                }
                            }
                        }
                    }
                    None
                } else {
                    assert(self.0@[i as int].1.len() > 0);
                    Some(b[b.len() - 1].0 as usize + 1)
                }
            },
        }
    }

    /// The descriptor bound at `binding` of set `set`, if any. With sets and
    /// bindings in increasing order, `None` means there is no such binding.
    pub fn descriptor(&self, set: usize, binding: usize) -> (r: Option<DescriptorDesc>)
        requires forall|i: int| 0 <= i < self.0.len() ==> all_ok(#[trigger] self.0@[i].1@),
        ensures
            r matches Some(d) ==> exists|i: int, j: int| 0 <= i < self.0.len() && self.0@[i].0 as int == set
                && 0 <= j < self.0@[i].1.len() && self.0@[i].1@[j].0 as int == binding
                && d == desc_spec(self.0@[i].1@[j]),
            (sets_sorted(self.0@) && forall|i: int| 0 <= i < self.0.len() ==> bindings_sorted(#[trigger] self.0@[i].1@))
                ==> (r is None <==> !exists|i: int, j: int| 0 <= i < self.0.len() && self.0@[i].0 as int == set
                    && 0 <= j < self.0@[i].1.len() && #[trigger] self.0@[i].1@[j].0 as int == binding),
    {
        match search_sets(&self.0, set) {
            None => None,
            Some(i) => {
                let b = &self.0[i].1;
                proof { assert(all_ok(self.0@[i as int].1@)); }
                match search_bindings(b, binding) {
                    None => {
                        proof {
                            if sets_sorted(self.0@) && forall|x: int| 0 <= x < self.0.len() ==> bindings_sorted(#[trigger] self.0@[x].1@) {
                                assert(bindings_sorted(self.0@[i as int].1@));
                                assert forall|x: int, j: int| 0 <= x < self.0.len() && self.0@[x].0 as int == set
                                    && 0 <= j < self.0@[x].1.len() implies #[trigger] self.0@[x].1@[j].0 as int != binding by {
                                    if x < i {
                                        assert(self.0@[x].0 < self.0@[i as int].0);
                                    } else if x > i {
                                        assert(self.0@[i as int].0 < self.0@[x].0);
                                    }
                                }
                            }
                        }
                        None
                    },
                    Some(j) => Some(convert_descriptor_desc(&b[j])),
                }
            },
        }
    }
}

/// One input or output of a shader interface: its location range, format, and name.
#[derive(Debug)]
pub struct CompilerShaderInterfaceDefEntry(pub (u32, u32), pub u32, pub Vec<String>);

/// A shader interface entry in the pipeline's terms.
#[derive(Debug)]
pub struct ShaderInterfaceDefEntry {
    pub location_start: u32,
    pub location_end: u32,
    pub format: Format,
    pub name: Option<String>,
}

/// The inputs or outputs of a shader.
pub struct StaticShaderInterfaceDef(pub Vec<CompilerShaderInterfaceDefEntry>);

/// An iterator over the entries of a shader interface.
pub struct StaticShaderInterfaceDefEntryIter<'a> {
    entries: &'a Vec<CompilerShaderInterfaceDefEntry>,
    pos: usize,
}

impl StaticShaderInterfaceDef {
    /// An iterator over the entries.
    pub fn elements(&self) -> (r: StaticShaderInterfaceDefEntryIter<'_>)
        ensures r.pos_spec() == 0, r.entries_spec() == self.0@,
    {
        StaticShaderInterfaceDefEntryIter { entries: &self.0, pos: 0 }
    }
}

impl<'a> StaticShaderInterfaceDefEntryIter<'a> {
    pub closed spec fn pos_spec(&self) -> usize { self.pos }
    pub closed spec fn entries_spec(&self) -> Seq<CompilerShaderInterfaceDefEntry> { self.entries@ }

    /// The number of entries left.
    pub fn len(&self) -> (r: usize)
        requires self.pos_spec() <= self.entries_spec().len(),
        ensures r == self.entries_spec().len() - self.pos_spec(),
    {
        self.entries.len() - self.pos
    }

    /// The next entry, converted: its location range, its format, and its name (the
    /// first name given, if any).
    pub fn next(&mut self) -> (r: Option<ShaderInterfaceDefEntry>)
        requires
            forall|i: int| 0 <= i < old(self).entries_spec().len() ==> (#[trigger] old(self).entries_spec()[i]).1 < FORMAT_COUNT,
        ensures
            final(self).entries_spec() == old(self).entries_spec(),
            old(self).pos_spec() >= old(self).entries_spec().len() ==> r is None && final(self).pos_spec() == old(self).pos_spec(),
            old(self).pos_spec() < old(self).entries_spec().len() ==> {
                let e = old(self).entries_spec()[old(self).pos_spec() as int];
                &&& final(self).pos_spec() == old(self).pos_spec() + 1
                &&& r matches Some(x) && x.location_start == e.0.0 && x.location_end == e.0.1
                    && x.format == Format(e.1)
                    && (x.name matches Some(n) ==> e.2.len() > 0 && n@ == e.2@[0]@)
                    && (x.name is None ==> e.2.len() == 0)
            },
    {
        if self.pos >= self.entries.len() {
            return None;
        }
        let e = &self.entries[self.pos];
        assert(old(self).entries_spec()[self.pos as int].1 < FORMAT_COUNT);
        self.pos = self.pos + 1;
        let name = if e.2.len() > 0 { Some(e.2[0].clone()) } else { None };
        Some(ShaderInterfaceDefEntry {
            location_start: (e.0).0,
            location_end: (e.0).1,
            format: compiler_img_format(e.1),
            name,
        })
    }
}

} // verus!
