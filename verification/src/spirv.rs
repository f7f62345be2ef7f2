//! The entry points of a SPIR-V module, and the address spaces of SPIR-V
//! storage classes.
use vstd::prelude::*;
use crate::target::{spirv_addr_spaces, AddrSpaceKind};

verus! {

/// The execution model of a SPIR-V entry point.
#[derive(Clone, Copy, Debug, PartialEq, Eq, Structural)]
pub enum ExeModel {
    Vertex,
    TessellationControl,
    TessellationEvaluation,
    Geometry,
    Fragment,
    GLCompute,
    Kernel,
}

/// An entry point of this model is a compute kernel (anything else is a graphics
/// shader).
pub open spec fn is_kernel_model(m: ExeModel) -> bool {
    m == ExeModel::Kernel || m == ExeModel::GLCompute
}

/// The position of the first entry whose model satisfies `pick`, if any.
pub open spec fn first_entry(models: Seq<ExeModel>, pick: spec_fn(ExeModel) -> bool) -> Option<int>
    decreases models.len(),
{
    if models.len() == 0 {
        None
    } else if pick(models[0]) {
        Some(0)
    } else {
        match first_entry(models.drop_first(), pick) {
            Some(i) => Some(i + 1),
            None => None,
        }
    }
}

/// Picks compute kernels.
pub open spec fn kernel_pick() -> spec_fn(ExeModel) -> bool {
    |m: ExeModel| is_kernel_model(m)
}

/// Picks graphics shaders of model `want`.
pub open spec fn shader_pick(want: ExeModel) -> spec_fn(ExeModel) -> bool {
    |m: ExeModel| !is_kernel_model(m) && m == want
}

/// Whether an entry of model `m` is a compute kernel.
pub fn is_kernel(m: ExeModel) -> (r: bool)
    ensures r == is_kernel_model(m),
{
    match m {
        ExeModel::Kernel | ExeModel::GLCompute => true,
        _ => false,
    }
}

proof fn lemma_first_entry_step(models: Seq<ExeModel>, pick: spec_fn(ExeModel) -> bool, k: int)
    requires
        0 <= k < models.len(),
        forall|j: int| 0 <= j < k ==> !pick(#[trigger] models[j]),
    ensures
        pick(models[k]) ==> first_entry(models, pick) == Some(k),
    decreases k,
{
    if k > 0 {
        assert(!pick(models[0]));
        assert forall|j: int| 0 <= j < k - 1 implies !pick(#[trigger] models.drop_first()[j]) by {
            assert(models.drop_first()[j] == models[j + 1]);
        }
        assert(models.drop_first()[k - 1] == models[k]);
        lemma_first_entry_step(models.drop_first(), pick, k - 1);
    }
}

proof fn lemma_first_entry_none(models: Seq<ExeModel>, pick: spec_fn(ExeModel) -> bool)
    requires forall|j: int| 0 <= j < models.len() ==> !pick(#[trigger] models[j]),
    ensures first_entry(models, pick) is None,
    decreases models.len(),
{
    if models.len() > 0 {
        assert forall|j: int| 0 <= j < models.len() - 1 implies !pick(#[trigger] models.drop_first()[j]) by {
            assert(models.drop_first()[j] == models[j + 1]);
        }
        lemma_first_entry_none(models.drop_first(), pick);
    }
}

/// The first compute kernel entry of a module with entries of `models`.
pub fn compute_entry(models: &Vec<ExeModel>) -> (r: Option<usize>)
    ensures
        r matches Some(i) ==> first_entry(models@, kernel_pick()) == Some(i as int),
        r is None ==> first_entry(models@, kernel_pick()) is None,
{
    let mut i: usize = 0;
    while i < models.len()
        invariant
            i <= models.len(),
            forall|j: int| 0 <= j < i ==> !kernel_pick()(#[trigger] models@[j]),
        decreases models.len() - i,
    {
        if is_kernel(models[i]) {
            proof { lemma_first_entry_step(models@, kernel_pick(), i as int); }
            return Some(i);
        }
        i = i + 1;
    }
    proof { lemma_first_entry_none(models@, kernel_pick()); }
    None
}

/// The first graphics shader entry of model `want`.
fn shader_entry(models: &Vec<ExeModel>, want: ExeModel) -> (r: Option<usize>)
    ensures
        r matches Some(i) ==> first_entry(models@, shader_pick(want)) == Some(i as int),
        r is None ==> first_entry(models@, shader_pick(want)) is None,
{
    let mut i: usize = 0;
    while i < models.len()
        invariant
            i <= models.len(),
            forall|j: int| 0 <= j < i ==> !shader_pick(want)(#[trigger] models@[j]),
        decreases models.len() - i,
    {
        if !is_kernel(models[i]) && models[i] == want {
            proof { lemma_first_entry_step(models@, shader_pick(want), i as int); }
            return Some(i);
        }
        i = i + 1;
    }
    proof { lemma_first_entry_none(models@, shader_pick(want)); }
    None
}

/// The first vertex shader entry.
pub fn vertex_entry(models: &Vec<ExeModel>) -> (r: Option<usize>)
    ensures
        r matches Some(i) ==> first_entry(models@, shader_pick(ExeModel::Vertex)) == Some(i as int),
        r is None ==> first_entry(models@, shader_pick(ExeModel::Vertex)) is None,
{
    shader_entry(models, ExeModel::Vertex)
}

/// The first fragment shader entry.
pub fn frag_entry(models: &Vec<ExeModel>) -> (r: Option<usize>)
    ensures
        r matches Some(i) ==> first_entry(models@, shader_pick(ExeModel::Fragment)) == Some(i as int),
        r is None ==> first_entry(models@, shader_pick(ExeModel::Fragment)) is None,
{
    shader_entry(models, ExeModel::Fragment)
}

/// The storage classes of the SPIR-V language items.
#[derive(Clone, Copy, Debug, PartialEq, Eq, Structural)]
pub enum SpirvLangItemStorageClass {
    BuiltinInput,
    BuiltinOutput,
    ShaderInput,
    ShaderOutput,
    Buffer,
    Uniform,
}

/// The address space number of a storage class.
pub open spec fn class_space(c: SpirvLangItemStorageClass) -> u32 {
    match c {
        SpirvLangItemStorageClass::BuiltinInput | SpirvLangItemStorageClass::ShaderInput => 5u32,
        SpirvLangItemStorageClass::BuiltinOutput | SpirvLangItemStorageClass::ShaderOutput => 6u32,
        SpirvLangItemStorageClass::Uniform => 7u32,
        SpirvLangItemStorageClass::Buffer => 8u32,
    }
}

/// The address space kind of a storage class.
pub open spec fn class_kind(c: SpirvLangItemStorageClass) -> AddrSpaceKind {
    match c {
        SpirvLangItemStorageClass::BuiltinInput | SpirvLangItemStorageClass::ShaderInput => AddrSpaceKind::Input,
        SpirvLangItemStorageClass::BuiltinOutput | SpirvLangItemStorageClass::ShaderOutput => AddrSpaceKind::Output,
        SpirvLangItemStorageClass::Uniform => AddrSpaceKind::Uniform,
        SpirvLangItemStorageClass::Buffer => AddrSpaceKind::Buffer,
    }
}

/// Law: the address space a storage class is placed in is the one the SPIR-V
/// target declares for its kind, and it shares storage with the flat space.
pub proof fn law_class_spaces_declared(c: SpirvLangItemStorageClass)
    ensures exists|k: int| 0 <= k < spirv_addr_spaces().len()
        && #[trigger] spirv_addr_spaces()[k] == (class_kind(c), class_space(c), seq![AddrSpaceKind::Flat]),
{
    let s = spirv_addr_spaces();
    match c {
        SpirvLangItemStorageClass::BuiltinInput | SpirvLangItemStorageClass::ShaderInput => { assert(s[6] == (class_kind(c), class_space(c), seq![AddrSpaceKind::Flat])); },
        SpirvLangItemStorageClass::BuiltinOutput | SpirvLangItemStorageClass::ShaderOutput => { assert(s[7] == (class_kind(c), class_space(c), seq![AddrSpaceKind::Flat])); },
        SpirvLangItemStorageClass::Uniform => { assert(s[8] == (class_kind(c), class_space(c), seq![AddrSpaceKind::Flat])); },
        SpirvLangItemStorageClass::Buffer => { assert(s[9] == (class_kind(c), class_space(c), seq![AddrSpaceKind::Flat])); },
    }
}

impl SpirvLangItemStorageClass {
    /// The address space of the storage class: inputs 5, outputs 6, uniforms 7,
    /// buffers 8 (as the SPIR-V target numbers them).
    pub fn addr_space(&self) -> (r: u32)
        ensures r == class_space(*self),
    {
        match self {
            SpirvLangItemStorageClass::BuiltinInput | SpirvLangItemStorageClass::ShaderInput => 5,
            SpirvLangItemStorageClass::BuiltinOutput | SpirvLangItemStorageClass::ShaderOutput => 6,
            SpirvLangItemStorageClass::Uniform => 7,
            SpirvLangItemStorageClass::Buffer => 8,
        }
    }
}

} // verus!
