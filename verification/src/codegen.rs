//! The AMDGPU steps after code generation: entry symbols, the code object's
//! metadata note, and the dispatch parameters read from it.
use vstd::prelude::*;
use vstd::std_specs::bits::u32_trailing_zeros;
use crate::products::{CodegenResults, EntryDesc, OutputType, lemma_outputs_determine_output};

verus! {

/// The ELF note type carrying the AMDGPU code object metadata.
pub const NT_AMDGPU_METADATA: u32 = 32;

/// The metadata record of one kernel, as found in the code object's metadata note.
#[derive(Debug)]
pub struct KernelMetadata {
    /// The kernel's name.
    pub name: String,
    /// The symbol of the kernel's descriptor.
    pub kernel_desc_symbol: String,
    /// Size of the kernel's argument segment.
    pub kernarg_segment_size: u32,
    /// Fixed size of the workgroup (group) segment.
    pub group_segment_size: u32,
    /// Fixed size of the per-workitem private segment.
    pub private_segment_size: u32,
    /// Alignment of the argument segment.
    pub kernarg_segment_align: u32,
    /// Wavefront width.
    pub wavefront_size: u32,
    /// Scalar registers used.
    pub sgpr_count: u32,
    /// Vector registers used.
    pub vgpr_count: u32,
    /// Largest workgroup the kernel supports.
    pub max_flat_workgroup_size: u32,
}

/// The dispatch parameters of a compiled kernel, filled in from its metadata.
#[derive(Clone, Copy, Debug, PartialEq, Eq, Structural)]
pub struct CodegenDesc {
    pub group_segment_size: usize,
    pub kernarg_segment_size: usize,
    pub private_segment_size: usize,
    /// Always zero; the metadata does not record it.
    pub workgroup_fbarrier_count: u32,
    pub group_segment_p2align: u8,
    pub kernarg_segment_p2align: u8,
    pub private_segment_p2align: u8,
}

/// The platform-specific part of a kernel's codegen results.
pub trait PlatformCodegenDesc {}

impl PlatformCodegenDesc for CodegenDesc {}

/// Why the code object's metadata could not be used.
#[derive(Clone, Copy, Debug, PartialEq, Eq, Structural)]
pub enum MetadataError {
    /// No note of type `NT_AMDGPU_METADATA` was found.
    MissingMetadataNote,
    /// A kernel entry had no metadata record.
    MissingKernelRecord,
    /// The code object, or one of its notes, could not be read.
    Malformed,
}

/// The descriptor symbol of a kernel entry: its symbol with `.kd` appended.
pub open spec fn kd_symbol(symbol: Seq<char>) -> Seq<char> {
    symbol + seq!['.', 'k', 'd']
}

/// The dispatch parameters a metadata record gives.
pub open spec fn desc_from_metadata(md: KernelMetadata) -> CodegenDesc {
    CodegenDesc {
        group_segment_size: md.group_segment_size as usize,
        kernarg_segment_size: md.kernarg_segment_size as usize,
        private_segment_size: md.private_segment_size as usize,
        workgroup_fbarrier_count: 0,
        group_segment_p2align: 5,
        kernarg_segment_p2align: u32_trailing_zeros(md.kernarg_segment_align) as u8,
        private_segment_p2align: 5,
    }
}

/// The index of the record for `symbol`: the last record whose descriptor symbol
/// is `symbol`, as a symbol-to-index map built in order keeps the last.
pub open spec fn record_for(kernels: Seq<KernelMetadata>, symbol: Seq<char>) -> Option<int>
    decreases kernels.len(),
{
    if kernels.len() == 0 {
        None
    } else if kernels.last().kernel_desc_symbol@ == symbol {
        Some(kernels.len() - 1)
    } else {
        record_for(kernels.drop_last(), symbol)
    }
}

/// Append `.kd` to the symbol of every entry: the entry points of a code object
/// are their kernel descriptors. Nothing else changes.
pub fn add_kd_suffixes(codegen: &mut CodegenResults<CodegenDesc>)
    ensures
        final(codegen).outputs() == old(codegen).outputs(),
        final(codegen).entries.len() == old(codegen).entries.len(),
        forall|i: int| 0 <= i < final(codegen).entries.len() ==> {
            &&& (#[trigger] final(codegen).entries@[i]).symbol@ == kd_symbol(old(codegen).entries@[i].symbol@)
            &&& final(codegen).entries@[i].kernel_instance == old(codegen).entries@[i].kernel_instance
            &&& final(codegen).entries@[i].platform == old(codegen).entries@[i].platform
        },
{
    let mut i: usize = 0;
    while i < codegen.entries.len()
        invariant
            i <= codegen.entries.len(),
            codegen.entries.len() == old(codegen).entries.len(),
            codegen.outputs() == old(codegen).outputs(),
            forall|k: int| 0 <= k < i ==> {
                &&& (#[trigger] codegen.entries@[k]).symbol@ == kd_symbol(old(codegen).entries@[k].symbol@)
                &&& codegen.entries@[k].kernel_instance == old(codegen).entries@[k].kernel_instance
                &&& codegen.entries@[k].platform == old(codegen).entries@[k].platform
            },
            forall|k: int| i <= k < codegen.entries.len() ==> #[trigger] codegen.entries@[k] == old(codegen).entries@[k],
        decreases codegen.entries.len() - i,
    {
        let ghost before = codegen.entries@;
        let mut e = codegen.entries.remove(i);
        proof { reveal_strlit(".kd"); }
        e.symbol.append(".kd");
        codegen.entries.insert(i, e);
        assert(forall|k: int| 0 <= k < codegen.entries.len() && k != i ==> codegen.entries@[k] == before[k]);
        i = i + 1;
    }
}

/// One note of an ELF note section: its type and its descriptor bytes.
pub struct ElfNote {
    pub n_type: u32,
    pub desc: Vec<u8>,
}

/// What reading the note sections of an object file gave.
pub enum ElfNotes {
    /// The bytes are not a well-formed object file.
    Malformed,
    /// The bytes are a well-formed object file, but not an ELF image.
    NotElf,
    /// An ELF image: the notes of its note sections, in order, `None` standing for
    /// a note that could not be read (reading its section stops there).
    Notes(Vec<Option<ElfNote>>),
}

/// `ElfNotes` in mathematical terms: each note as its type and descriptor bytes.
pub enum NoteScan {
    Malformed,
    NotElf,
    Notes(Seq<Option<(u32, Seq<u8>)>>),
}

/// A note in mathematical terms.
pub open spec fn note_view(n: Option<ElfNote>) -> Option<(u32, Seq<u8>)> {
    match n {
        Some(n) => Some((n.n_type, n.desc@)),
        None => None,
    }
}

/// A list of notes in mathematical terms.
pub open spec fn notes_view(v: Seq<Option<ElfNote>>) -> Seq<Option<(u32, Seq<u8>)>> {
    v.map_values(|n: Option<ElfNote>| note_view(n))
}

impl View for ElfNotes {
    type V = NoteScan;

    open spec fn view(&self) -> NoteScan {
        match self {
            ElfNotes::Malformed => NoteScan::Malformed,
            ElfNotes::NotElf => NoteScan::NotElf,
            ElfNotes::Notes(v) => NoteScan::Notes(notes_view(v@)),
        }
    }
}

/// What `goblin` reads from the object file `bytes`: whether it parses, whether it
/// is an ELF image, and the notes of its note sections.
pub uninterp spec fn elf_notes_of(bytes: Seq<u8>) -> NoteScan;

/// Reads the note sections of an object file with `goblin`: `Object::parse`, then,
/// for an ELF image, `Elf::iter_note_sections` over every note section, each note
/// copied out (an unreadable one as `None`). No note sections at all reads as no
/// notes. The contract claims only that the outcome is a function of the bytes.
#[verifier::external_body]
fn read_elf_notes(bytes: &[u8]) -> (r: ElfNotes)
    ensures r@ == elf_notes_of(bytes@),
{
    match goblin::Object::parse(bytes) {
        Err(_) => ElfNotes::Malformed,
        Ok(goblin::Object::Elf(elf)) => match elf.iter_note_sections(bytes, None) {
            None => ElfNotes::Notes(Vec::new()),
            Some(notes) => ElfNotes::Notes(notes.map(|n| n.ok().map(|n|
                ElfNote { n_type: n.n_type, desc: n.desc.to_vec() })).collect()),
        },
        Ok(_) => ElfNotes::NotElf,
    }
}

/// The search for the metadata note along a list of notes: the descriptor of the
/// first note of type `NT_AMDGPU_METADATA`; an unreadable note met before it fails
/// the search as `Malformed`, and no such note as `MissingMetadataNote`.
pub open spec fn note_search(s: Seq<Option<(u32, Seq<u8>)>>) -> Result<Seq<u8>, MetadataError>
    decreases s.len(),
{
    if s.len() == 0 {
        Err(MetadataError::MissingMetadataNote)
    } else {
        match s[0] {
            None => Err(MetadataError::Malformed),
            Some(n) => if n.0 == NT_AMDGPU_METADATA {
                Ok(n.1)
            } else {
                note_search(s.drop_first())
            },
        }
    }
}

/// The metadata note's descriptor of an object file's note scan.
pub open spec fn metadata_note_spec(scan: NoteScan) -> Result<Seq<u8>, MetadataError> {
    match scan {
        NoteScan::Notes(s) => note_search(s),
        _ => Err(MetadataError::Malformed),
    }
}

/// A result in mathematical terms.
pub open spec fn bytes_result(r: Result<Vec<u8>, MetadataError>) -> Result<Seq<u8>, MetadataError> {
    match r {
        Ok(v) => Ok(v@),
        Err(e) => Err(e),
    }
}

/// The descriptor of the code object's `NT_AMDGPU_METADATA` note: the first such
/// note along the note sections. An object that did not parse, or a note that
/// could not be read before it, is `Malformed`; none at all is
/// `MissingMetadataNote`. The object must be an ELF image.
pub fn metadata_note(notes: &ElfNotes) -> (r: Result<Vec<u8>, MetadataError>)
    requires !(notes@ is NotElf),
    ensures bytes_result(r) == metadata_note_spec(notes@),
{
    match notes {
        ElfNotes::Malformed => Err(MetadataError::Malformed),
        ElfNotes::NotElf => Err(MetadataError::Malformed),
        ElfNotes::Notes(v) => {
            let ghost s = notes_view(v@);
            let mut i: usize = 0;
            assert(s.subrange(0, s.len() as int) == s);
            while i < v.len()
                invariant
                    i <= v.len(),
                    s == notes_view(v@),
                    metadata_note_spec(notes@) == note_search(s),
                    note_search(s) == note_search(s.subrange(i as int, s.len() as int)),
                decreases v.len() - i,
            {
                let ghost rest = s.subrange(i as int, s.len() as int);
                assert(rest[0] == note_view(v@[i as int]));
                assert(rest.drop_first() == s.subrange(i as int + 1, s.len() as int));
                assert(note_search(s) == note_search(rest));
                match &v[i] {
                    None => {
                        assert(rest[0] is None);
                        return Err(MetadataError::Malformed);
                    },
                    Some(n) => {
                        assert(rest[0] == Some((n.n_type, n.desc@)));
                        if n.n_type == NT_AMDGPU_METADATA {
                            let d = n.desc.clone();
                            assert(d@ =~= n.desc@);
                            return Ok(d);
                        }
                    },
                }
                i = i + 1;
            }
            assert(s.subrange(i as int, s.len() as int).len() == 0);
            Err(MetadataError::MissingMetadataNote)
        },
    }
}

/// The descriptor of the metadata note of the code object `exe`, read with
/// `goblin`; `None` when `exe` is a well-formed object file that is not an ELF
/// image (a code object is always one).
pub fn exe_metadata_note(exe: &[u8]) -> (r: Option<Result<Vec<u8>, MetadataError>>)
    ensures
        r is None <==> elf_notes_of(exe@) is NotElf,
        r matches Some(x) ==> bytes_result(x) == metadata_note_spec(elf_notes_of(exe@)),
{
    let notes = read_elf_notes(exe);
    match notes {
        ElfNotes::NotElf => None,
        _ => Some(metadata_note(&notes)),
    }
}

/// The position of the record for `symbol` (the last one with that descriptor symbol).
pub fn find_record(kernels: &Vec<KernelMetadata>, symbol: &String) -> (r: Option<usize>)
    ensures
        r is None <==> record_for(kernels@, symbol@) is None,
        r matches Some(j) ==> record_for(kernels@, symbol@) == Some(j as int),
{
    let mut i: usize = kernels.len();
    assert(kernels@.take(i as int) == kernels@);
    while i > 0
        invariant
            i <= kernels.len(),
            record_for(kernels@, symbol@) == record_for(kernels@.take(i as int), symbol@),
        decreases i,
    {
        assert(kernels@.take(i as int).drop_last() == kernels@.take(i as int - 1));
        assert(kernels@.take(i as int).last() == kernels@[i as int - 1]);
        if kernels[i - 1].kernel_desc_symbol == *symbol {
            return Some(i - 1);
        }
        i = i - 1;
    }
    None
}

/// The dispatch parameters of a kernel, from its metadata record.
pub fn desc_for(md: &KernelMetadata) -> (r: CodegenDesc)
    ensures r == desc_from_metadata(*md),
{
    CodegenDesc {
        group_segment_size: md.group_segment_size as usize,
        kernarg_segment_size: md.kernarg_segment_size as usize,
        private_segment_size: md.private_segment_size as usize,
        workgroup_fbarrier_count: 0,
        group_segment_p2align: 5,
        kernarg_segment_p2align: md.kernarg_segment_align.trailing_zeros() as u8,
        private_segment_p2align: 5,
    }
}

/// What the linker is given: the object that code generation wrote or, when it
/// wrote none, its bitcode, which `llc` must compile first.
pub enum LinkInput {
    Object(Vec<u8>),
    Bitcode(Vec<u8>),
}

/// Take the linker's input out of `codegen`: its object output if it has one,
/// else its bitcode output; `None` when it has neither. Only the output taken is
/// removed.
pub fn take_link_input<CD>(codegen: &mut CodegenResults<CD>) -> (r: Option<LinkInput>)
    ensures
        final(codegen).entries@ == old(codegen).entries@,
        old(codegen).output(OutputType::Object) is Some ==> (r matches Some(LinkInput::Object(v))
            && old(codegen).output(OutputType::Object) == Some(v@) && final(codegen).outputs() == old(codegen).outputs().remove(OutputType::Object)),
        (old(codegen).output(OutputType::Object) is None && old(codegen).output(OutputType::Bitcode) is Some)
            ==> (r matches Some(LinkInput::Bitcode(v))
            && old(codegen).output(OutputType::Bitcode) == Some(v@) && final(codegen).outputs() == old(codegen).outputs().remove(OutputType::Bitcode)),
        (old(codegen).output(OutputType::Object) is None && old(codegen).output(OutputType::Bitcode) is None)
            ==> (r is None && final(codegen).outputs() == old(codegen).outputs()),
{
    match codegen.take_object() {
        Some(o) => Some(LinkInput::Object(o)),
        None => {
            assert(old(codegen).outputs().remove(OutputType::Object) =~= old(codegen).outputs());
            proof { lemma_outputs_determine_output(*codegen, *old(codegen), OutputType::Bitcode); }
            match codegen.take_bitcode() {
                Some(b) => Some(LinkInput::Bitcode(b)),
                None => {
                    assert(old(codegen).outputs().remove(OutputType::Bitcode) =~= old(codegen).outputs());
                    None
                },
            }
        },
    }
}

/// Whether entry `e` carries the dispatch parameters that the metadata records
/// give its symbol.
pub open spec fn entry_described(kernels: Seq<KernelMetadata>, e: EntryDesc<CodegenDesc>) -> bool {
    record_for(kernels, e.symbol@) matches Some(j)
        && e.platform == desc_from_metadata(kernels[j])
}

/// Whether `after` is `before` with the dispatch parameters of its first `n`
/// entries read from the metadata records, and nothing else changed.
pub open spec fn described_upto(kernels: Seq<KernelMetadata>, before: CodegenResults<CodegenDesc>,
    after: CodegenResults<CodegenDesc>, n: int) -> bool
{
    &&& after.outputs() == before.outputs()
    &&& after.entries.len() == before.entries.len()
    &&& forall|k: int| 0 <= k < after.entries.len() ==> {
        &&& (#[trigger] after.entries@[k]).symbol == before.entries@[k].symbol
        &&& after.entries@[k].kernel_instance == before.entries@[k].kernel_instance
    }
    &&& forall|k: int| 0 <= k < n ==> entry_described(kernels, #[trigger] after.entries@[k])
    &&& forall|k: int| n <= k < after.entries.len() ==> (#[trigger] after.entries@[k]).platform == before.entries@[k].platform
}

/// Fill in the dispatch parameters of each entry (by its descriptor symbol) from
/// the code object's kernel metadata records, in order. At the first entry with
/// no record this stops with `MissingKernelRecord`: the entries before it are
/// filled in, it and those after it are left as they were.
pub fn apply_kernel_metadata(codegen: &mut CodegenResults<CodegenDesc>, kernels: &Vec<KernelMetadata>)
    -> (r: Result<(), MetadataError>)
    ensures
        r is Ok <==> forall|i: int| 0 <= i < old(codegen).entries.len()
            ==> record_for(kernels@, (#[trigger] old(codegen).entries@[i]).symbol@) is Some,
        r is Ok ==> described_upto(kernels@, *old(codegen), *final(codegen), old(codegen).entries.len() as int),
        r is Err ==> r == Err::<(), MetadataError>(MetadataError::MissingKernelRecord)
            && exists|j: int| 0 <= j < old(codegen).entries.len()
                && record_for(kernels@, (#[trigger] old(codegen).entries@[j]).symbol@) is None
                && described_upto(kernels@, *old(codegen), *final(codegen), j),
{
    let mut i: usize = 0;
    while i < codegen.entries.len()
        invariant
            i <= codegen.entries.len(),
            described_upto(kernels@, *old(codegen), *codegen, i as int),
        decreases codegen.entries.len() - i,
    {
        let ghost before = codegen.entries@;
        match find_record(kernels, &codegen.entries[i].symbol) {
            Some(idx) => {
                proof { lemma_record_for_bound(kernels@, codegen.entries@[i as int].symbol@); }
                let d = desc_for(&kernels[idx]);
                let mut e = codegen.entries.remove(i);
                e.platform = d;
                codegen.entries.insert(i, e);
                assert(forall|k: int| 0 <= k < codegen.entries.len() && k != i ==> codegen.entries@[k] == before[k]);
                assert(entry_described(kernels@, codegen.entries@[i as int]));
                assert(codegen.outputs() == old(codegen).outputs());
                assert(codegen.entries.len() == old(codegen).entries.len());
                assert(forall|k: int| 0 <= k < codegen.entries.len() ==> (#[trigger] codegen.entries@[k]).symbol == old(codegen).entries@[k].symbol);
                assert(forall|k: int| 0 <= k < i + 1 ==> entry_described(kernels@, #[trigger] codegen.entries@[k]));
            },
            None => {
                assert(record_for(kernels@, old(codegen).entries@[i as int].symbol@) is None);
                return Err(MetadataError::MissingKernelRecord);
            },
        }
        i = i + 1;
    }
    assert forall|k: int| 0 <= k < old(codegen).entries.len() implies
        record_for(kernels@, (#[trigger] old(codegen).entries@[k]).symbol@) is Some by {
        assert(entry_described(kernels@, codegen.entries@[k]));
    }
    Ok(())
}

proof fn lemma_record_for_bound(kernels: Seq<KernelMetadata>, symbol: Seq<char>)
    ensures record_for(kernels, symbol) matches Some(i) ==> 0 <= i < kernels.len()
        && kernels[i].kernel_desc_symbol@ == symbol,
    decreases kernels.len(),
{
    if kernels.len() > 0 && kernels.last().kernel_desc_symbol@ != symbol {
        lemma_record_for_bound(kernels.drop_last(), symbol);
    }
}

} // verus!
