//! Target specifications of accelerator devices.
use vstd::prelude::*;

verus! {

/// The calling convention kernels are compiled with.
#[derive(Clone, Copy, Debug, PartialEq, Eq, Structural, Hash)]
pub enum Abi {
    C,
    AmdGpuKernel,
    SpirKernel,
}

/// What a panic does on the target.
#[derive(Clone, Copy, Debug, PartialEq, Eq, Structural, Hash)]
pub enum PanicStrategy {
    Unwind,
    Abort,
}

/// The code model of a target.
#[derive(Clone, Copy, Debug, PartialEq, Eq, Structural, Hash)]
pub enum CodeModel {
    Small,
    Kernel,
    Medium,
    Large,
}

/// The kinds of address space an AMDGPU target distinguishes.
#[derive(Clone, Copy, Debug, PartialEq, Eq, Structural, Hash)]
pub enum AddrSpaceKind {
    Flat,
    ReadWrite,
    Region,
    Local,
    ReadOnly,
    Alloca,
    Constant32Bit,
    Input,
    Output,
    Uniform,
    Buffer,
    PhysBuffer,
}

/// One address space of a target: its kind, its LLVM index, and the kinds it
/// shares storage with.
#[derive(Debug, Hash)]
pub struct AddrSpace {
    pub kind: AddrSpaceKind,
    pub index: u32,
    pub shared_with: Vec<AddrSpaceKind>,
}

/// The parts of a compiler target specification that the runtime reads or sets.
#[derive(Debug, Hash)]
pub struct TargetSpec {
    pub llvm_target: String,
    pub target_endian: String,
    pub target_pointer_width: String,
    pub arch: String,
    pub data_layout: String,
    pub cpu: String,
    pub features: String,
    pub panic_strategy: PanicStrategy,
    pub trap_unreachable: bool,
    pub position_independent_executables: bool,
    pub dynamic_linking: bool,
    pub executables: bool,
    pub requires_lto: bool,
    pub atomic_cas: bool,
    pub default_codegen_units: Option<u64>,
    pub obj_is_bitcode: bool,
    pub is_builtin: bool,
    pub simd_types_indirect: bool,
    pub stack_probes: bool,
    pub code_model: Option<CodeModel>,
    pub addr_spaces: Vec<AddrSpace>,
}

/// An address space as plain values.
pub open spec fn addr_space_view(a: AddrSpace) -> (AddrSpaceKind, u32, Seq<AddrSpaceKind>) {
    (a.kind, a.index, a.shared_with@)
}

/// The address space table as plain values.
pub open spec fn addr_spaces_view(s: Seq<AddrSpace>) -> Seq<(AddrSpaceKind, u32, Seq<AddrSpaceKind>)> {
    s.map_values(|a: AddrSpace| addr_space_view(a))
}

/// Two target specifications agree on every field.
pub open spec fn same_target(a: TargetSpec, b: TargetSpec) -> bool {
    &&& a.llvm_target@ == b.llvm_target@
    &&& a.target_endian@ == b.target_endian@
    &&& a.target_pointer_width@ == b.target_pointer_width@
    &&& a.arch@ == b.arch@
    &&& a.data_layout@ == b.data_layout@
    &&& a.cpu@ == b.cpu@
    &&& a.features@ == b.features@
    &&& a.panic_strategy == b.panic_strategy
    &&& a.trap_unreachable == b.trap_unreachable
    &&& a.position_independent_executables == b.position_independent_executables
    &&& a.dynamic_linking == b.dynamic_linking
    &&& a.executables == b.executables
    &&& a.requires_lto == b.requires_lto
    &&& a.atomic_cas == b.atomic_cas
    &&& a.default_codegen_units == b.default_codegen_units
    &&& a.obj_is_bitcode == b.obj_is_bitcode
    &&& a.is_builtin == b.is_builtin
    &&& a.simd_types_indirect == b.simd_types_indirect
    &&& a.stack_probes == b.stack_probes
    &&& a.code_model == b.code_model
    &&& addr_spaces_view(a.addr_spaces@) == addr_spaces_view(b.addr_spaces@)
}

fn copy_kinds(v: &Vec<AddrSpaceKind>) -> (r: Vec<AddrSpaceKind>)
    ensures r@ == v@,
{
    let mut out: Vec<AddrSpaceKind> = Vec::new();
    let mut i: usize = 0;
    while i < v.len()
        invariant i <= v.len(), out@ == v@.take(i as int),
        decreases v.len() - i,
    {
        out.push(v[i]);
        assert(v@.take(i as int + 1) == v@.take(i as int).push(v@[i as int]));
        i = i + 1;
    }
    assert(v@.take(v.len() as int) == v@);
    out
}

fn eq_kinds(a: &Vec<AddrSpaceKind>, b: &Vec<AddrSpaceKind>) -> (r: bool)
    ensures r == (a@ == b@),
{
    if a.len() != b.len() {
        return false;
    }
    let mut i: usize = 0;
    while i < a.len()
        invariant
            i <= a.len(), a.len() == b.len(),
            forall|k: int| 0 <= k < i ==> a@[k] == b@[k],
        decreases a.len() - i,
    {
        if a[i] != b[i] {
            return false;
        }
        i = i + 1;
    }
    assert(a@ =~= b@);
    true
}

impl TargetSpec {
    /// A field-for-field copy.
    pub fn duplicate(&self) -> (r: TargetSpec)
        ensures same_target(r, *self),
    {
        let mut spaces: Vec<AddrSpace> = Vec::new();
        let mut i: usize = 0;
        while i < self.addr_spaces.len()
            invariant
                i <= self.addr_spaces.len(),
                addr_spaces_view(spaces@) == addr_spaces_view(self.addr_spaces@.take(i as int)),
            decreases self.addr_spaces.len() - i,
        {
            let a = &self.addr_spaces[i];
            let ghost before = spaces@;
            spaces.push(AddrSpace { kind: a.kind, index: a.index, shared_with: copy_kinds(&a.shared_with) });
            assert(self.addr_spaces@.take(i as int + 1) == self.addr_spaces@.take(i as int).push(self.addr_spaces@[i as int]));
            assert(addr_spaces_view(spaces@) =~= addr_spaces_view(before).push(addr_space_view(spaces@[i as int])));
            assert(addr_spaces_view(self.addr_spaces@.take(i as int + 1)) =~=
                addr_spaces_view(self.addr_spaces@.take(i as int)).push(addr_space_view(self.addr_spaces@[i as int])));
            i = i + 1;
        }
        assert(self.addr_spaces@.take(self.addr_spaces.len() as int) == self.addr_spaces@);
        TargetSpec {
            llvm_target: self.llvm_target.clone(),
            target_endian: self.target_endian.clone(),
            target_pointer_width: self.target_pointer_width.clone(),
            arch: self.arch.clone(),
            data_layout: self.data_layout.clone(),
            cpu: self.cpu.clone(),
            features: self.features.clone(),
            panic_strategy: self.panic_strategy,
            trap_unreachable: self.trap_unreachable,
            position_independent_executables: self.position_independent_executables,
            dynamic_linking: self.dynamic_linking,
            executables: self.executables,
            requires_lto: self.requires_lto,
            atomic_cas: self.atomic_cas,
            default_codegen_units: self.default_codegen_units,
            obj_is_bitcode: self.obj_is_bitcode,
            is_builtin: self.is_builtin,
            simd_types_indirect: self.simd_types_indirect,
            stack_probes: self.stack_probes,
            code_model: self.code_model,
            addr_spaces: spaces,
        }
    }

    /// Whether two specifications agree on every field.
    pub fn same_as(&self, other: &TargetSpec) -> (r: bool)
        ensures r == same_target(*self, *other),
    {
        if !(self.llvm_target == other.llvm_target && self.target_endian == other.target_endian
            && self.target_pointer_width == other.target_pointer_width && self.arch == other.arch
            && self.data_layout == other.data_layout && self.cpu == other.cpu
            && self.features == other.features && self.panic_strategy == other.panic_strategy
            && self.trap_unreachable == other.trap_unreachable
            && self.position_independent_executables == other.position_independent_executables
            && self.dynamic_linking == other.dynamic_linking && self.executables == other.executables
            && self.requires_lto == other.requires_lto && self.atomic_cas == other.atomic_cas
            && self.default_codegen_units == other.default_codegen_units
            && self.obj_is_bitcode == other.obj_is_bitcode && self.is_builtin == other.is_builtin
            && self.simd_types_indirect == other.simd_types_indirect
            && self.stack_probes == other.stack_probes && self.code_model == other.code_model) {
            return false;
        }
        let n = self.addr_spaces.len();
        if n != other.addr_spaces.len() {
            assert(addr_spaces_view(self.addr_spaces@).len() != addr_spaces_view(other.addr_spaces@).len());
            return false;
        }
        let mut i: usize = 0;
        while i < n
            invariant
                i <= n, n == self.addr_spaces.len(), n == other.addr_spaces.len(),
                forall|k: int| 0 <= k < i ==>
                    #[trigger] addr_space_view(self.addr_spaces@[k]) == addr_space_view(other.addr_spaces@[k]),
            decreases n - i,
        {
            let a = &self.addr_spaces[i];
            let b = &other.addr_spaces[i];
            if !(a.kind == b.kind && a.index == b.index && eq_kinds(&a.shared_with, &b.shared_with)) {
                assert(addr_spaces_view(self.addr_spaces@)[i as int] != addr_spaces_view(other.addr_spaces@)[i as int]);
                return false;
            }
            i = i + 1;
        }
        assert(addr_spaces_view(self.addr_spaces@) =~= addr_spaces_view(other.addr_spaces@));
        true
    }
}

/// The position of the last `-` in `s`, if any.
pub open spec fn last_hyphen(s: Seq<char>) -> Option<int>
    decreases s.len(),
{
    if s.len() == 0 {
        None
    } else if s.last() == '-' {
        Some(s.len() - 1)
    } else {
        last_hyphen(s.drop_last())
    }
}

/// The GPU model named by an ISA name: everything after its last `-`.
pub open spec fn isa_cpu(isa_name: Seq<char>) -> Seq<char> {
    isa_name.subrange(last_hyphen(isa_name)->Some_0 + 1, isa_name.len() as int)
}

proof fn lemma_last_hyphen(s: Seq<char>)
    ensures last_hyphen(s) matches Some(i) ==> 0 <= i < s.len() && s[i] == '-',
    decreases s.len(),
{
    if s.len() > 0 && s.last() != '-' {
        lemma_last_hyphen(s.drop_last());
    }
}

/// The GPU model of an ISA name such as `amdgcn-amd-amdhsa--gfx900`. The name must
/// hold a `-`.
pub fn isa_cpu_model(isa_name: &str) -> (r: String)
    requires last_hyphen(isa_name@) is Some,
    ensures r@ == isa_cpu(isa_name@),
{
    let n = isa_name.unicode_len();
    let mut i: usize = n;
    proof { lemma_last_hyphen(isa_name@); }
    assert(isa_name@.take(n as int) == isa_name@);
    while i > 0
        invariant
            i <= n, n == isa_name@.len(),
            last_hyphen(isa_name@) == last_hyphen(isa_name@.take(i as int)),
            last_hyphen(isa_name@.take(i as int)) is Some,
        decreases i,
    {
        assert(isa_name@.take(i as int).drop_last() == isa_name@.take(i as int - 1));
        assert(isa_name@.take(i as int).last() == isa_name@[i as int - 1]);
        if isa_name.get_char(i - 1) == '-' {
            return isa_name.substring_char(i, n).to_string();
        }
        i = i - 1;
    }
    assert(last_hyphen(isa_name@.take(0)) is None) by {
        assert(isa_name@.take(0).len() == 0);
    }
    String::new()
}

/// The LLVM data layout of the AMDGPU target.
pub open spec fn amdgpu_data_layout() -> Seq<char> {
    "e-p:64:64-p1:64:64-p2:32:32-p3:32:32-p4:64:64-p5:32:32-p6:32:32-i64:64-v16:16-v24:32-v32:32-v48:64-v96:128-v192:256-v256:256-v512:512-v1024:1024-v2048:2048-n32:64-S32-A5-ni:7"@
}

/// The address spaces of the AMDGPU target: flat (0) shares storage with every
/// other kind; global (1), region (2), local (3), constant (4), private (5) and 32 bit
/// constant (6) each share storage with flat.
pub open spec fn amdgpu_addr_spaces() -> Seq<(AddrSpaceKind, u32, Seq<AddrSpaceKind>)> {
    seq![
        (AddrSpaceKind::Flat, 0u32, seq![AddrSpaceKind::Alloca, AddrSpaceKind::Region, AddrSpaceKind::Local,
            AddrSpaceKind::ReadOnly, AddrSpaceKind::ReadWrite, AddrSpaceKind::Constant32Bit]),
        (AddrSpaceKind::ReadWrite, 1u32, seq![AddrSpaceKind::Flat]),
        (AddrSpaceKind::Region, 2u32, seq![AddrSpaceKind::Flat]),
        (AddrSpaceKind::Local, 3u32, seq![AddrSpaceKind::Flat]),
        (AddrSpaceKind::ReadOnly, 4u32, seq![AddrSpaceKind::Flat]),
        (AddrSpaceKind::Alloca, 5u32, seq![AddrSpaceKind::Flat]),
        (AddrSpaceKind::Constant32Bit, 6u32, seq![AddrSpaceKind::Flat]),
    ]
}

/// The features enabled for an AMDGPU ISA: DPP, `s_memrealtime` and code object v3,
/// plus 16 bit instructions where the ISA has fast f16.
pub open spec fn amdgpu_features(fast_f16: bool) -> Seq<char> {
    "+dpp,+s-memrealtime"@ + ",+code-object-v3"@ + if fast_f16 { ",+16-bit-insts"@ } else { Seq::empty() }
}

/// The target specification for an AMDGPU device with ISA `isa_name`, derived
/// from the host's.
pub open spec fn is_amdgpu_target(t: TargetSpec, host: TargetSpec, isa_name: Seq<char>, fast_f16: bool) -> bool {
    &&& t.llvm_target@ == "amdgcn-amd-amdhsa-amdgiz"@
    &&& t.cpu@ == isa_cpu(isa_name)
    &&& t.features@ == amdgpu_features(fast_f16)
    &&& t.target_endian@ == host.target_endian@
    &&& t.target_pointer_width@ == host.target_pointer_width@
    &&& t.arch@ == "amdgpu"@
    &&& t.data_layout@ == amdgpu_data_layout()
    &&& t.panic_strategy == PanicStrategy::Abort
    &&& t.trap_unreachable
    &&& t.position_independent_executables
    &&& t.dynamic_linking
    &&& t.executables
    &&& !t.requires_lto
    &&& t.atomic_cas
    &&& t.default_codegen_units == Some(1u64)
    &&& !t.obj_is_bitcode
    &&& !t.is_builtin
    &&& !t.simd_types_indirect
    &&& !t.stack_probes
    &&& t.code_model == Some(CodeModel::Small)
    &&& addr_spaces_view(t.addr_spaces@) == amdgpu_addr_spaces()
}

fn one_kind(k: AddrSpaceKind) -> (r: Vec<AddrSpaceKind>)
    ensures r@ == seq![k],
{
    let mut v = Vec::new();
    v.push(k);
    v
}

fn amdgpu_address_spaces() -> (r: Vec<AddrSpace>)
    ensures addr_spaces_view(r@) == amdgpu_addr_spaces(),
{
    let mut flat_shared = Vec::new();
    flat_shared.push(AddrSpaceKind::Alloca);
    flat_shared.push(AddrSpaceKind::Region);
    flat_shared.push(AddrSpaceKind::Local);
    flat_shared.push(AddrSpaceKind::ReadOnly);
    flat_shared.push(AddrSpaceKind::ReadWrite);
    flat_shared.push(AddrSpaceKind::Constant32Bit);
    assert(flat_shared@ =~= seq![AddrSpaceKind::Alloca, AddrSpaceKind::Region, AddrSpaceKind::Local,
        AddrSpaceKind::ReadOnly, AddrSpaceKind::ReadWrite, AddrSpaceKind::Constant32Bit]);
    let mut out = Vec::new();
    out.push(AddrSpace { kind: AddrSpaceKind::Flat, index: 0, shared_with: flat_shared });
    out.push(AddrSpace { kind: AddrSpaceKind::ReadWrite, index: 1, shared_with: one_kind(AddrSpaceKind::Flat) });
    out.push(AddrSpace { kind: AddrSpaceKind::Region, index: 2, shared_with: one_kind(AddrSpaceKind::Flat) });
    out.push(AddrSpace { kind: AddrSpaceKind::Local, index: 3, shared_with: one_kind(AddrSpaceKind::Flat) });
    out.push(AddrSpace { kind: AddrSpaceKind::ReadOnly, index: 4, shared_with: one_kind(AddrSpaceKind::Flat) });
    out.push(AddrSpace { kind: AddrSpaceKind::Alloca, index: 5, shared_with: one_kind(AddrSpaceKind::Flat) });
    out.push(AddrSpace { kind: AddrSpaceKind::Constant32Bit, index: 6, shared_with: one_kind(AddrSpaceKind::Flat) });
    assert(addr_spaces_view(out@).len() == 7);
    assert(forall|k: int| 0 <= k < 7 ==> #[trigger] addr_spaces_view(out@)[k] == addr_space_view(out@[k]));
    assert(addr_spaces_view(out@) =~= amdgpu_addr_spaces());
    out
}

/// The target specification for an AMDGPU device: the GPU model comes from the ISA
/// name (which must hold a `-`), byte order and pointer width from the host, and the
/// rest is fixed for the architecture.
pub fn amdgpu_target(host: &TargetSpec, isa_name: &str, fast_f16: bool) -> (r: TargetSpec)
    requires last_hyphen(isa_name@) is Some,
    ensures is_amdgpu_target(r, *host, isa_name@, fast_f16),
{
    let mut features = String::from_str("+dpp,+s-memrealtime");
    features.append(",+code-object-v3");
    if fast_f16 {
        features.append(",+16-bit-insts");
    } else {
        assert(features@ + Seq::<char>::empty() == features@);
    }
    TargetSpec {
        llvm_target: String::from_str("amdgcn-amd-amdhsa-amdgiz"),
        target_endian: host.target_endian.clone(),
        target_pointer_width: host.target_pointer_width.clone(),
        arch: String::from_str("amdgpu"),
        data_layout: String::from_str("e-p:64:64-p1:64:64-p2:32:32-p3:32:32-p4:64:64-p5:32:32-p6:32:32-i64:64-v16:16-v24:32-v32:32-v48:64-v96:128-v192:256-v256:256-v512:512-v1024:1024-v2048:2048-n32:64-S32-A5-ni:7"),
        cpu: isa_cpu_model(isa_name),
        features,
        panic_strategy: PanicStrategy::Abort,
        trap_unreachable: true,
        position_independent_executables: true,
        dynamic_linking: true,
        executables: true,
        requires_lto: false,
        atomic_cas: true,
        default_codegen_units: Some(1),
        obj_is_bitcode: false,
        is_builtin: false,
        simd_types_indirect: false,
        stack_probes: false,
        code_model: Some(CodeModel::Small),
        addr_spaces: amdgpu_address_spaces(),
    }
}

/// The optional features a Vulkan device has enabled, as far as code generation
/// cares.
#[derive(Clone, Copy, Debug, Default, PartialEq, Eq, Structural)]
pub struct VkFeatures {
    pub variable_pointers: bool,
    pub variable_pointers_storage_buffer: bool,
    pub shader_int8: bool,
    pub shader_int16: bool,
    pub shader_int64: bool,
    pub shader_float16: bool,
    pub shader_f3264: bool,
    pub shader_buffer_int64_atomics: bool,
    pub storage_uniform_8bit: bool,
    pub storage_buffer_8bit: bool,
    pub storage_uniform_16bit: bool,
    pub storage_buffer_16bit: bool,
    pub storage_input_output_16bit: bool,
    pub buffer_device_address: bool,
}

/// `s` added to a comma separated feature list.
pub open spec fn push_feature(acc: Seq<char>, s: Seq<char>) -> Seq<char> {
    if acc.len() != 0 { acc + ","@ + s } else { acc + s }
}

/// `s` added when `on`.
pub open spec fn push_if(acc: Seq<char>, on: bool, s: Seq<char>) -> Seq<char> {
    if on { push_feature(acc, s) } else { acc }
}

/// The SPIR-V features of a device, added to the feature list `start`: shaders,
/// then one entry per enabled feature (of each pair of alternatives the first).
pub open spec fn spirv_features(start: Seq<char>, f: VkFeatures) -> Seq<char> {
    let a = push_feature(start, "+shader"@);
    let a = if f.variable_pointers {
        push_feature(a, "+variable-pointers"@)
    } else {
        push_if(a, f.variable_pointers_storage_buffer, "+variable-pointers-storage-buffer"@)
    };
    let a = push_if(a, f.shader_int8, "+i8"@);
    let a = push_if(a, f.shader_int16, "+i16"@);
    let a = push_if(a, f.shader_int64, "+i64"@);
    let a = push_if(a, f.shader_float16, "+f16"@);
    let a = push_if(a, f.shader_f3264, "+f64"@);
    let a = push_if(a, f.shader_buffer_int64_atomics, "+i64-atomics"@);
    let a = if f.storage_uniform_8bit {
        push_feature(a, "+storage-uniform-i8-access"@)
    } else {
        push_if(a, f.storage_buffer_8bit, "+storage-buffer-i8-access"@)
    };
    let a = if f.storage_uniform_16bit {
        push_feature(a, "+storage-uniform-i16-access"@)
    } else {
        push_if(a, f.storage_buffer_16bit, "+storage-buffer-i16-access"@)
    };
    let a = push_if(a, f.storage_input_output_16bit, "+storage-input-output-i16-access"@);
    push_if(a, f.buffer_device_address, "+physical-storage-buffer-addresses"@)
}

/// `,`
pub open spec fn comma() -> char { ',' }

/// The entries of a comma separated feature list, in order.
pub open spec fn feature_entries(list: Seq<char>) -> Seq<Seq<char>>
    decreases list.len(),
{
    if list.len() == 0 {
        seq![Seq::<char>::empty()]
    } else {
        let prev = feature_entries(list.drop_last());
        if list.last() == comma() {
            prev.push(Seq::<char>::empty())
        } else {
            prev.update(prev.len() - 1, prev.last().push(list.last()))
        }
    }
}

/// Whether `name` is one of the entries of the feature list `list`.
#[verifier::opaque]
pub open spec fn has_feature(list: Seq<char>, name: Seq<char>) -> bool {
    feature_entries(list).contains(name)
}

/// A list always has at least one entry.
proof fn lemma_entries_nonempty(list: Seq<char>)
    ensures feature_entries(list).len() >= 1,
    decreases list.len(),
{
    if list.len() > 0 {
        lemma_entries_nonempty(list.drop_last());
    }
}

/// Appending text with no comma extends the last entry.
proof fn lemma_entries_extend(acc: Seq<char>, s: Seq<char>)
    requires !s.contains(comma()),
    ensures
        feature_entries(acc + s).len() == feature_entries(acc).len(),
        feature_entries(acc + s) == feature_entries(acc).update(feature_entries(acc).len() - 1,
            feature_entries(acc).last() + s),
    decreases s.len(),
{
    lemma_entries_nonempty(acc);
    if s.len() == 0 {
        assert(acc + s =~= acc);
        assert(feature_entries(acc).last() + s =~= feature_entries(acc).last());
        assert(feature_entries(acc).update(feature_entries(acc).len() - 1, feature_entries(acc).last())
            =~= feature_entries(acc));
    } else {
        let init = s.drop_last();
        assert(!init.contains(comma())) by {
            if init.contains(comma()) {
                let k = choose|k: int| 0 <= k < init.len() && init[k] == comma();
                assert(s[k] == comma());
            }
        }
        assert(s.last() != comma()) by {
            assert(s[s.len() - 1] == s.last());
        }
        lemma_entries_extend(acc, init);
        assert((acc + s).drop_last() =~= acc + init);
        assert((acc + s).last() == s.last());
        let e = feature_entries(acc);
        assert(e.last() + init + seq![s.last()] =~= e.last() + s);
        assert((e.last() + init).push(s.last()) =~= e.last() + s);
        assert(feature_entries(acc + s) =~= e.update(e.len() - 1, e.last() + s));
    }
}

/// Adding a feature with no comma in its name makes it an entry of the list, and
/// keeps every nonempty entry the list had.
proof fn lemma_push_feature(acc: Seq<char>, s: Seq<char>)
    requires !s.contains(comma()),
    ensures
        has_feature(push_feature(acc, s), s),
        forall|e: Seq<char>| e.len() > 0 && #[trigger] has_feature(acc, e) ==> has_feature(push_feature(acc, s), e),
{
    reveal(has_feature);
    lemma_entries_nonempty(acc);
    if acc.len() != 0 {
        let with_comma = acc + ","@;
        reveal_strlit(",");
        assert(",".view() == seq![comma()]);
        assert(with_comma =~= acc.push(comma()));
        assert(with_comma.drop_last() =~= acc);
        let prev = feature_entries(acc);
        assert(feature_entries(with_comma) == prev.push(Seq::<char>::empty()));
        lemma_entries_extend(with_comma, s);
        assert(Seq::<char>::empty() + s =~= s);
        let after = feature_entries(with_comma + s);
        assert(after =~= prev.push(s));
        assert(after[prev.len() as int] == s);
        assert forall|e: Seq<char>| e.len() > 0 && #[trigger] has_feature(acc, e) implies has_feature(push_feature(acc, s), e) by {
            let k = choose|k: int| 0 <= k < prev.len() && prev[k] == e;
            assert(after[k] == e);
        }
    } else {
        assert(acc =~= Seq::<char>::empty());
        lemma_entries_extend(acc, s);
        assert(acc + s =~= s);
        assert(feature_entries(acc) == seq![Seq::<char>::empty()]);
        assert(Seq::<char>::empty() + s =~= s);
        assert(feature_entries(acc + s)[0] == s);
        assert forall|e: Seq<char>| e.len() > 0 && #[trigger] has_feature(acc, e) implies has_feature(push_feature(acc, s), e) by {
            let k = choose|k: int| 0 <= k < feature_entries(acc).len() && feature_entries(acc)[k] == e;
            assert(feature_entries(acc)[k].len() == 0);
        }
    }
}

/// The feature names are not empty and have no comma in them.
proof fn lemma_feature_names_no_comma()
    ensures
        !"+shader"@.contains(comma()),
        !"+variable-pointers"@.contains(comma()),
        !"+variable-pointers-storage-buffer"@.contains(comma()),
        !"+i8"@.contains(comma()),
        !"+i16"@.contains(comma()),
        !"+i64"@.contains(comma()),
        !"+f16"@.contains(comma()),
        !"+f64"@.contains(comma()),
        !"+i64-atomics"@.contains(comma()),
        !"+storage-uniform-i8-access"@.contains(comma()),
        !"+storage-buffer-i8-access"@.contains(comma()),
        !"+storage-uniform-i16-access"@.contains(comma()),
        !"+storage-buffer-i16-access"@.contains(comma()),
        !"+storage-input-output-i16-access"@.contains(comma()),
        !"+physical-storage-buffer-addresses"@.contains(comma()),
        "+shader"@.len() > 0,
        "+variable-pointers"@.len() > 0,
        "+variable-pointers-storage-buffer"@.len() > 0,
        "+i8"@.len() > 0,
        "+i16"@.len() > 0,
        "+i64"@.len() > 0,
        "+f16"@.len() > 0,
        "+f64"@.len() > 0,
        "+i64-atomics"@.len() > 0,
        "+storage-uniform-i8-access"@.len() > 0,
        "+storage-buffer-i8-access"@.len() > 0,
        "+storage-uniform-i16-access"@.len() > 0,
        "+storage-buffer-i16-access"@.len() > 0,
        "+storage-input-output-i16-access"@.len() > 0,
        "+physical-storage-buffer-addresses"@.len() > 0,
{
    reveal_strlit("+shader");
    reveal_strlit("+variable-pointers");
    reveal_strlit("+variable-pointers-storage-buffer");
    reveal_strlit("+i8");
    reveal_strlit("+i16");
    reveal_strlit("+i64");
    reveal_strlit("+f16");
    reveal_strlit("+f64");
    reveal_strlit("+i64-atomics");
    reveal_strlit("+storage-uniform-i8-access");
    reveal_strlit("+storage-buffer-i8-access");
    reveal_strlit("+storage-uniform-i16-access");
    reveal_strlit("+storage-buffer-i16-access");
    reveal_strlit("+storage-input-output-i16-access");
    reveal_strlit("+physical-storage-buffer-addresses");
}

/// Adding a feature when `on`: it is then an entry, and nonempty entries stay.
proof fn lemma_push_if(acc: Seq<char>, on: bool, s: Seq<char>)
    requires !s.contains(comma()),
    ensures
        on ==> has_feature(push_if(acc, on, s), s),
        forall|e: Seq<char>| e.len() > 0 && #[trigger] has_feature(acc, e) ==> has_feature(push_if(acc, on, s), e),
{
    lemma_push_feature(acc, s);
}

/// Of two alternative features, the first when `first`, else the second when
/// `second`: the one chosen is then an entry, and nonempty entries stay.
proof fn lemma_push_alt(acc: Seq<char>, first: bool, s1: Seq<char>, second: bool, s2: Seq<char>)
    requires !s1.contains(comma()), !s2.contains(comma()),
    ensures ({
        let r = if first { push_feature(acc, s1) } else { push_if(acc, second, s2) };
        &&& first ==> has_feature(r, s1)
        &&& !first && second ==> has_feature(r, s2)
        &&& forall|e: Seq<char>| e.len() > 0 && #[trigger] has_feature(acc, e) ==> has_feature(r, e)
    }),
{
    lemma_push_feature(acc, s1);
    lemma_push_feature(acc, s2);
}

/// Law: the SPIR-V feature list announces shaders and every feature the device
/// has enabled, each under its own name (of two alternatives, the stronger when
/// the device has it, else the weaker), and keeps every feature the list had.
#[verifier::rlimit(50)]
pub proof fn law_spirv_features_announced(start: Seq<char>, f: VkFeatures)
    ensures ({
        let l = spirv_features(start, f);
        &&& has_feature(l, "+shader"@)
        &&& f.variable_pointers ==> has_feature(l, "+variable-pointers"@)
        &&& !f.variable_pointers && f.variable_pointers_storage_buffer
            ==> has_feature(l, "+variable-pointers-storage-buffer"@)
        &&& f.shader_int8 ==> has_feature(l, "+i8"@)
        &&& f.shader_int16 ==> has_feature(l, "+i16"@)
        &&& f.shader_int64 ==> has_feature(l, "+i64"@)
        &&& f.shader_float16 ==> has_feature(l, "+f16"@)
        &&& f.shader_f3264 ==> has_feature(l, "+f64"@)
        &&& f.shader_buffer_int64_atomics ==> has_feature(l, "+i64-atomics"@)
        &&& f.storage_uniform_8bit ==> has_feature(l, "+storage-uniform-i8-access"@)
        &&& !f.storage_uniform_8bit && f.storage_buffer_8bit ==> has_feature(l, "+storage-buffer-i8-access"@)
        &&& f.storage_uniform_16bit ==> has_feature(l, "+storage-uniform-i16-access"@)
        &&& !f.storage_uniform_16bit && f.storage_buffer_16bit ==> has_feature(l, "+storage-buffer-i16-access"@)
        &&& f.storage_input_output_16bit ==> has_feature(l, "+storage-input-output-i16-access"@)
        &&& f.buffer_device_address ==> has_feature(l, "+physical-storage-buffer-addresses"@)
        &&& forall|e: Seq<char>| e.len() > 0 && #[trigger] has_feature(start, e) ==> has_feature(l, e)
    }),
{
    lemma_feature_names_no_comma();
    let a1 = push_feature(start, "+shader"@);
    lemma_push_feature(start, "+shader"@);
    let a2 = if f.variable_pointers { push_feature(a1, "+variable-pointers"@) }
        else { push_if(a1, f.variable_pointers_storage_buffer, "+variable-pointers-storage-buffer"@) };
    lemma_push_alt(a1, f.variable_pointers, "+variable-pointers"@, f.variable_pointers_storage_buffer,
        "+variable-pointers-storage-buffer"@);
    let a3 = push_if(a2, f.shader_int8, "+i8"@);
    lemma_push_if(a2, f.shader_int8, "+i8"@);
    let a4 = push_if(a3, f.shader_int16, "+i16"@);
    lemma_push_if(a3, f.shader_int16, "+i16"@);
    let a5 = push_if(a4, f.shader_int64, "+i64"@);
    lemma_push_if(a4, f.shader_int64, "+i64"@);
    let a6 = push_if(a5, f.shader_float16, "+f16"@);
    lemma_push_if(a5, f.shader_float16, "+f16"@);
    let a7 = push_if(a6, f.shader_f3264, "+f64"@);
    lemma_push_if(a6, f.shader_f3264, "+f64"@);
    let a8 = push_if(a7, f.shader_buffer_int64_atomics, "+i64-atomics"@);
    lemma_push_if(a7, f.shader_buffer_int64_atomics, "+i64-atomics"@);
    let a9 = if f.storage_uniform_8bit { push_feature(a8, "+storage-uniform-i8-access"@) }
        else { push_if(a8, f.storage_buffer_8bit, "+storage-buffer-i8-access"@) };
    lemma_push_alt(a8, f.storage_uniform_8bit, "+storage-uniform-i8-access"@, f.storage_buffer_8bit,
        "+storage-buffer-i8-access"@);
    let a10 = if f.storage_uniform_16bit { push_feature(a9, "+storage-uniform-i16-access"@) }
        else { push_if(a9, f.storage_buffer_16bit, "+storage-buffer-i16-access"@) };
    lemma_push_alt(a9, f.storage_uniform_16bit, "+storage-uniform-i16-access"@, f.storage_buffer_16bit,
        "+storage-buffer-i16-access"@);
    let a11 = push_if(a10, f.storage_input_output_16bit, "+storage-input-output-i16-access"@);
    lemma_push_if(a10, f.storage_input_output_16bit, "+storage-input-output-i16-access"@);
    let a12 = push_if(a11, f.buffer_device_address, "+physical-storage-buffer-addresses"@);
    lemma_push_if(a11, f.buffer_device_address, "+physical-storage-buffer-addresses"@);
    assert(a12 == spirv_features(start, f));
}

/// Add `s` to the feature list `acc`.
fn add_feature(acc: &mut String, s: &str)
    ensures final(acc)@ == push_feature(old(acc)@, s@),
{
    if acc.as_str().unicode_len() != 0 {
        acc.append(",");
    }
    acc.append(s);
}

/// Add `s` to the feature list `acc` when `on`.
fn add_feature_if(acc: &mut String, on: bool, s: &str)
    ensures final(acc)@ == push_if(old(acc)@, on, s@),
{
    if on {
        add_feature(acc, s);
    }
}

/// The address spaces of the SPIR-V target: flat (4) shares storage with every
/// other kind; each other kind shares storage with flat.
pub open spec fn spirv_addr_spaces() -> Seq<(AddrSpaceKind, u32, Seq<AddrSpaceKind>)> {
    seq![
        (AddrSpaceKind::Flat, 4u32, seq![AddrSpaceKind::Alloca, AddrSpaceKind::Region, AddrSpaceKind::Local,
            AddrSpaceKind::ReadOnly, AddrSpaceKind::ReadWrite, AddrSpaceKind::Input, AddrSpaceKind::Output,
            AddrSpaceKind::Uniform, AddrSpaceKind::Buffer, AddrSpaceKind::PhysBuffer]),
        (AddrSpaceKind::ReadWrite, 4u32, seq![AddrSpaceKind::Flat]),
        (AddrSpaceKind::Region, 1u32, seq![AddrSpaceKind::Flat]),
        (AddrSpaceKind::Local, 3u32, seq![AddrSpaceKind::Flat]),
        (AddrSpaceKind::ReadOnly, 4u32, seq![AddrSpaceKind::Flat]),
        (AddrSpaceKind::Alloca, 0u32, seq![AddrSpaceKind::Flat]),
        (AddrSpaceKind::Input, 5u32, seq![AddrSpaceKind::Flat]),
        (AddrSpaceKind::Output, 6u32, seq![AddrSpaceKind::Flat]),
        (AddrSpaceKind::Uniform, 7u32, seq![AddrSpaceKind::Flat]),
        (AddrSpaceKind::Buffer, 8u32, seq![AddrSpaceKind::Flat]),
        (AddrSpaceKind::PhysBuffer, 9u32, seq![AddrSpaceKind::Flat]),
    ]
}

fn spirv_address_spaces() -> (r: Vec<AddrSpace>)
    ensures addr_spaces_view(r@) == spirv_addr_spaces(),
{
    let mut flat_shared = Vec::new();
    flat_shared.push(AddrSpaceKind::Alloca);
    flat_shared.push(AddrSpaceKind::Region);
    flat_shared.push(AddrSpaceKind::Local);
    flat_shared.push(AddrSpaceKind::ReadOnly);
    flat_shared.push(AddrSpaceKind::ReadWrite);
    flat_shared.push(AddrSpaceKind::Input);
    flat_shared.push(AddrSpaceKind::Output);
    flat_shared.push(AddrSpaceKind::Uniform);
    flat_shared.push(AddrSpaceKind::Buffer);
    flat_shared.push(AddrSpaceKind::PhysBuffer);
    assert(flat_shared@ =~= seq![AddrSpaceKind::Alloca, AddrSpaceKind::Region, AddrSpaceKind::Local,
        AddrSpaceKind::ReadOnly, AddrSpaceKind::ReadWrite, AddrSpaceKind::Input, AddrSpaceKind::Output,
        AddrSpaceKind::Uniform, AddrSpaceKind::Buffer, AddrSpaceKind::PhysBuffer]);
    let mut out = Vec::new();
    out.push(AddrSpace { kind: AddrSpaceKind::Flat, index: 4, shared_with: flat_shared });
    out.push(AddrSpace { kind: AddrSpaceKind::ReadWrite, index: 4, shared_with: one_kind(AddrSpaceKind::Flat) });
    out.push(AddrSpace { kind: AddrSpaceKind::Region, index: 1, shared_with: one_kind(AddrSpaceKind::Flat) });
    out.push(AddrSpace { kind: AddrSpaceKind::Local, index: 3, shared_with: one_kind(AddrSpaceKind::Flat) });
    out.push(AddrSpace { kind: AddrSpaceKind::ReadOnly, index: 4, shared_with: one_kind(AddrSpaceKind::Flat) });
    out.push(AddrSpace { kind: AddrSpaceKind::Alloca, index: 0, shared_with: one_kind(AddrSpaceKind::Flat) });
    out.push(AddrSpace { kind: AddrSpaceKind::Input, index: 5, shared_with: one_kind(AddrSpaceKind::Flat) });
    out.push(AddrSpace { kind: AddrSpaceKind::Output, index: 6, shared_with: one_kind(AddrSpaceKind::Flat) });
    out.push(AddrSpace { kind: AddrSpaceKind::Uniform, index: 7, shared_with: one_kind(AddrSpaceKind::Flat) });
    out.push(AddrSpace { kind: AddrSpaceKind::Buffer, index: 8, shared_with: one_kind(AddrSpaceKind::Flat) });
    out.push(AddrSpace { kind: AddrSpaceKind::PhysBuffer, index: 9, shared_with: one_kind(AddrSpaceKind::Flat) });
    assert(addr_spaces_view(out@).len() == 11);
    assert(forall|k: int| 0 <= k < 11 ==> #[trigger] addr_spaces_view(out@)[k] == addr_space_view(out@[k]));
    assert(addr_spaces_view(out@) =~= spirv_addr_spaces());
    out
}

/// The target specification `t` for a Vulkan device with features `f`, made from
/// the specification `old` (the host's): the settings of the SPIR-V architecture,
/// byte order from the host, the device's features added to the old list, and
/// everything else as it was.
pub open spec fn is_spirv_target(t: TargetSpec, old: TargetSpec, host: TargetSpec, f: VkFeatures) -> bool {
    &&& t.llvm_target@ == "spirv64-vulkan-unknown"@
    &&& t.target_endian@ == host.target_endian@
    &&& t.target_pointer_width@ == "64"@
    &&& t.arch@ == "spirv64"@
    &&& t.cpu@ == Seq::<char>::empty()
    &&& t.data_layout@ == "e-m:e-p:64:64"@
    &&& t.features@ == spirv_features(old.features@, f)
    &&& t.panic_strategy == PanicStrategy::Abort
    &&& !t.trap_unreachable
    &&& t.position_independent_executables
    &&& !t.dynamic_linking
    &&& t.executables
    &&& !t.requires_lto
    &&& t.atomic_cas
    &&& t.default_codegen_units == Some(1u64)
    &&& !t.simd_types_indirect
    &&& !t.is_builtin
    &&& t.obj_is_bitcode == old.obj_is_bitcode
    &&& t.stack_probes == old.stack_probes
    &&& t.code_model == old.code_model
    &&& addr_spaces_view(t.addr_spaces@) == spirv_addr_spaces()
}

/// The feature list of a SPIR-V target: the device's features added to `start`.
fn spirv_feature_list(start: &String, f: &VkFeatures) -> (r: String)
    ensures r@ == spirv_features(start@, *f),
{
    let mut features = start.clone();
    add_feature(&mut features, "+shader");
    if f.variable_pointers {
        add_feature(&mut features, "+variable-pointers");
    } else {
        add_feature_if(&mut features, f.variable_pointers_storage_buffer, "+variable-pointers-storage-buffer");
    }
    add_feature_if(&mut features, f.shader_int8, "+i8");
    add_feature_if(&mut features, f.shader_int16, "+i16");
    add_feature_if(&mut features, f.shader_int64, "+i64");
    add_feature_if(&mut features, f.shader_float16, "+f16");
    add_feature_if(&mut features, f.shader_f3264, "+f64");
    add_feature_if(&mut features, f.shader_buffer_int64_atomics, "+i64-atomics");
    if f.storage_uniform_8bit {
        add_feature(&mut features, "+storage-uniform-i8-access");
    } else {
        add_feature_if(&mut features, f.storage_buffer_8bit, "+storage-buffer-i8-access");
    }
    if f.storage_uniform_16bit {
        add_feature(&mut features, "+storage-uniform-i16-access");
    } else {
        add_feature_if(&mut features, f.storage_buffer_16bit, "+storage-buffer-i16-access");
    }
    add_feature_if(&mut features, f.storage_input_output_16bit, "+storage-input-output-i16-access");
    add_feature_if(&mut features, f.buffer_device_address, "+physical-storage-buffer-addresses");
    features
}

/// The target specification for a Vulkan device with features `f`, made from `old`.
pub fn spirv_target(old: &TargetSpec, host: &TargetSpec, f: &VkFeatures) -> (r: TargetSpec)
    ensures is_spirv_target(r, *old, *host, *f),
{
    TargetSpec {
        llvm_target: String::from_str("spirv64-vulkan-unknown"),
        target_endian: host.target_endian.clone(),
        target_pointer_width: String::from_str("64"),
        arch: String::from_str("spirv64"),
        data_layout: String::from_str("e-m:e-p:64:64"),
        cpu: String::new(),
        features: spirv_feature_list(&old.features, f),
        panic_strategy: PanicStrategy::Abort,
        trap_unreachable: false,
        position_independent_executables: true,
        dynamic_linking: false,
        executables: true,
        requires_lto: false,
        atomic_cas: true,
        default_codegen_units: Some(1),
        obj_is_bitcode: old.obj_is_bitcode,
        is_builtin: false,
        simd_types_indirect: false,
        stack_probes: old.stack_probes,
        code_model: old.code_model,
        addr_spaces: spirv_address_spaces(),
    }
}

/// What a device is best compiled for: whether it allows indirect calls, the kernel
/// calling convention, the host's target and the device's target, and the
/// platform's own description.
#[derive(Hash)]
pub struct AcceleratorTargetDesc<P> {
    pub allow_indirect_function_calls: bool,
    pub kernel_abi: Abi,
    pub host_target: TargetSpec,
    pub target: TargetSpec,
    pub platform: P,
}

impl<P> AcceleratorTargetDesc<P> {
    /// A description based on the host: the device target starts as a copy of the
    /// host target, indirect calls are allowed and kernels use the C convention.
    pub fn new(host: TargetSpec, platform: P) -> (r: Self)
        ensures
            r.allow_indirect_function_calls,
            r.kernel_abi == Abi::C,
            same_target(r.host_target, host),
            same_target(r.target, host),
            r.platform == platform,
    {
        let target = host.duplicate();
        AcceleratorTargetDesc {
            allow_indirect_function_calls: true,
            kernel_abi: Abi::C,
            host_target: host,
            target,
            platform,
        }
    }

    /// Whether indirect function calls are allowed.
    pub fn allow_indirect_function_calls(&self) -> (r: bool)
        ensures r == self.allow_indirect_function_calls,
    {
        self.allow_indirect_function_calls
    }

    /// Overwrite `target` with this description's device target.
    pub fn rustc_target_options(&self, target: &mut TargetSpec)
        ensures same_target(*final(target), self.target),
    {
        *target = self.target.duplicate();
    }

    /// Whether the device target is the host target.
    pub fn is_host(&self) -> (r: bool)
        ensures r == same_target(self.target, self.host_target),
    {
        self.target.same_as(&self.host_target)
    }

    /// Whether the device target is an AMDGPU.
    pub fn is_amdgpu(&self) -> (r: bool)
        ensures r == (self.target.arch@ == "amdgpu"@),
    {
        let amdgpu = String::from_str("amdgpu");
        self.target.arch == amdgpu
    }

    /// Whether the device target is SPIR-V.
    pub fn is_spirv(&self) -> (r: bool)
        ensures r == (self.target.llvm_target@ == "spir64-unknown-unknown"@),
    {
        let spirv = String::from_str("spir64-unknown-unknown");
        self.target.llvm_target == spirv
    }

    /// Whether the device target is CUDA: never, for now.
    pub fn is_cuda(&self) -> (r: bool)
        ensures !r,
    {
        false
    }

    /// Turn a host-based description into one for a Vulkan device with features
    /// `f`: no indirect calls, kernels use the SPIR-V kernel convention, and the
    /// device target is set up for SPIR-V.
    pub fn init_spirv(&mut self, f: &VkFeatures)
        ensures
            !final(self).allow_indirect_function_calls,
            final(self).kernel_abi == Abi::SpirKernel,
            same_target(final(self).host_target, old(self).host_target),
            is_spirv_target(final(self).target, old(self).target, old(self).host_target, *f),
            final(self).platform == old(self).platform,
    {
        self.allow_indirect_function_calls = false;
        self.kernel_abi = Abi::SpirKernel;
        self.target = spirv_target(&self.target, &self.host_target, f);
        proof {
            assert(same_target(self.host_target, old(self).host_target));
        }
    }

    /// Turn a host-based description into one for an AMDGPU device with ISA
    /// `isa_name`: indirect calls stay allowed, kernels use the AMDGPU kernel
    /// convention, and the device target is derived from the host's.
    pub fn init_amdgpu(&mut self, isa_name: &str, fast_f16: bool)
        requires last_hyphen(isa_name@) is Some,
        ensures
            final(self).allow_indirect_function_calls,
            final(self).kernel_abi == Abi::AmdGpuKernel,
            same_target(final(self).host_target, old(self).host_target),
            is_amdgpu_target(final(self).target, old(self).host_target, isa_name@, fast_f16),
            final(self).platform == old(self).platform,
    {
        self.allow_indirect_function_calls = true;
        self.kernel_abi = Abi::AmdGpuKernel;
        self.target = amdgpu_target(&self.host_target, isa_name, fast_f16);
        proof {
            assert(same_target(self.host_target, old(self).host_target));
        }
    }
}

} // verus!
