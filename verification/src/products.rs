//! The results of a successful code generation: its output files, and its
//! entry points.
use vstd::prelude::*;
use vstd::utf8::valid_utf8;
use vstd::string::StringSliceAdditionalSpecFns;

verus! {

/// The kinds of output file code generation writes.
#[derive(Clone, Copy, Debug, PartialEq, Eq, Structural)]
pub enum OutputType {
    Bitcode,
    Assembly,
    LlvmAssembly,
    Mir,
    Metadata,
    Object,
    Exe,
    DepInfo,
}

/// A kernel instance as code generation saw it: its name and its encoded
/// instance.
#[derive(Clone, Debug, PartialEq, Eq)]
pub struct CodegenKernelInstance {
    pub name: String,
    pub instance: Vec<u8>,
}

/// One entry point of the generated code: its kernel, its symbol (which differs
/// between accelerators), and the platform's description of it.
#[derive(Debug)]
pub struct EntryDesc<CD> {
    pub kernel_instance: CodegenKernelInstance,
    pub symbol: String,
    pub platform: CD,
}

/// The outputs of code generation, at most one of each type, and its entry
/// points (the first is the root).
#[derive(Debug)]
pub struct CodegenResults<CD> {
    pub bitcode: Option<Vec<u8>>,
    pub assembly: Option<Vec<u8>>,
    pub llvm_assembly: Option<Vec<u8>>,
    pub mir: Option<Vec<u8>>,
    pub metadata: Option<Vec<u8>>,
    pub object: Option<Vec<u8>>,
    pub exe: Option<Vec<u8>>,
    pub dep_info: Option<Vec<u8>>,
    pub entries: Vec<EntryDesc<CD>>,
}

/// An optional output in mathematical terms.
pub open spec fn bytes_view(o: Option<Vec<u8>>) -> Option<Seq<u8>> {
    match o {
        Some(v) => Some(v@),
        None => None,
    }
}

/// Whether the first `n` bytes of `s` are its longest valid UTF-8 prefix.
pub open spec fn is_utf8_prefix_len(s: Seq<u8>, n: int) -> bool {
    &&& 0 <= n <= s.len()
    &&& valid_utf8(s.take(n))
    &&& forall|m: int| n < m <= s.len() ==> !valid_utf8(#[trigger] s.take(m))
}

/// `std::str::from_utf8`: the bytes as a string slice when they are valid UTF-8
/// (the slice's bytes are exactly the input), else the error's `valid_up_to`, the
/// largest length whose prefix is valid UTF-8.
#[verifier::external_body]
pub(crate) fn utf8_str(b: &[u8]) -> (r: Result<&str, usize>)
    ensures
        r is Ok <==> valid_utf8(b@),
        r matches Ok(s) ==> s.spec_bytes() == b@,
        r matches Err(n) ==> is_utf8_prefix_len(b@, n as int),
{
    match std::str::from_utf8(b) {
        Ok(s) => Ok(s),
        Err(e) => Err(e.valid_up_to()),
    }
}

/// Store `data` in `slot`, returning what it held.
fn replace_slot(slot: &mut Option<Vec<u8>>, data: Vec<u8>) -> (r: Option<Vec<u8>>)
    ensures
        r == *old(slot),
        *final(slot) == Some(data),
{
    let r = slot.take();
    *slot = Some(data);
    r
}

impl<CD> CodegenResults<CD> {
    /// The output of type `t`, if any.
    pub open spec fn output(&self, t: OutputType) -> Option<Seq<u8>> {
        match t {
            OutputType::Bitcode => bytes_view(self.bitcode),
            OutputType::Assembly => bytes_view(self.assembly),
            OutputType::LlvmAssembly => bytes_view(self.llvm_assembly),
            OutputType::Mir => bytes_view(self.mir),
            OutputType::Metadata => bytes_view(self.metadata),
            OutputType::Object => bytes_view(self.object),
            OutputType::Exe => bytes_view(self.exe),
            OutputType::DepInfo => bytes_view(self.dep_info),
        }
    }

    /// The outputs as a map from their type to their bytes.
    pub open spec fn outputs(&self) -> Map<OutputType, Seq<u8>> {
        Map::new(|t: OutputType| self.output(t) is Some, |t: OutputType| self.output(t)->0)
    }

    /// No outputs and no entries.
    pub fn new() -> (r: Self)
        ensures
            r.outputs() == Map::<OutputType, Seq<u8>>::empty(),
            r.entries.len() == 0,
    {
        CodegenResults {
            bitcode: None,
            assembly: None,
            llvm_assembly: None,
            mir: None,
            metadata: None,
            object: None,
            exe: None,
            dep_info: None,
            entries: Vec::new(),
        }
    }

    /// The output of type `t`, if any.
    pub fn output_ref(&self, t: OutputType) -> (r: Option<&[u8]>)
        ensures
            r is Some <==> self.output(t) is Some,
            r matches Some(b) ==> self.output(t) == Some(b@),
    {
        let o = match t {
            OutputType::Bitcode => &self.bitcode,
            OutputType::Assembly => &self.assembly,
            OutputType::LlvmAssembly => &self.llvm_assembly,
            OutputType::Mir => &self.mir,
            OutputType::Metadata => &self.metadata,
            OutputType::Object => &self.object,
            OutputType::Exe => &self.exe,
            OutputType::DepInfo => &self.dep_info,
        };
        match o {
            Some(v) => Some(v.as_slice()),
            None => None,
        }
    }

    /// Remove the output of type `t`, returning it.
    pub fn take(&mut self, t: OutputType) -> (r: Option<Vec<u8>>)
        ensures
            bytes_view(r) == old(self).output(t),
            final(self).outputs() == old(self).outputs().remove(t),
            final(self).entries@ == old(self).entries@,
    {
        match t {
            OutputType::Bitcode => self.bitcode.take(),
            OutputType::Assembly => self.assembly.take(),
            OutputType::LlvmAssembly => self.llvm_assembly.take(),
            OutputType::Mir => self.mir.take(),
            OutputType::Metadata => self.metadata.take(),
            OutputType::Object => self.object.take(),
            OutputType::Exe => self.exe.take(),
            OutputType::DepInfo => self.dep_info.take(),
        }
    }

    /// Store `data` as the output of type `t`, returning the output it replaces.
    pub fn put(&mut self, t: OutputType, data: Vec<u8>) -> (r: Option<Vec<u8>>)
        ensures
            bytes_view(r) == old(self).output(t),
            final(self).outputs() == old(self).outputs().insert(t, data@),
            final(self).entries@ == old(self).entries@,
    {
        match t {
            OutputType::Bitcode => replace_slot(&mut self.bitcode, data),
            OutputType::Assembly => replace_slot(&mut self.assembly, data),
            OutputType::LlvmAssembly => replace_slot(&mut self.llvm_assembly, data),
            OutputType::Mir => replace_slot(&mut self.mir, data),
            OutputType::Metadata => replace_slot(&mut self.metadata, data),
            OutputType::Object => replace_slot(&mut self.object, data),
            OutputType::Exe => replace_slot(&mut self.exe, data),
            OutputType::DepInfo => replace_slot(&mut self.dep_info, data),
        }
    }

    /// Remove the bitcode output, returning it.
    pub fn take_bitcode(&mut self) -> (r: Option<Vec<u8>>)
        ensures
            bytes_view(r) == old(self).output(OutputType::Bitcode),
            final(self).outputs() == old(self).outputs().remove(OutputType::Bitcode),
            final(self).entries@ == old(self).entries@,
    {
        self.take(OutputType::Bitcode)
    }

    /// The bitcode output, if any.
    pub fn bitcode_ref(&self) -> (r: Option<&[u8]>)
        ensures
            r is Some <==> self.output(OutputType::Bitcode) is Some,
            r matches Some(b) ==> self.output(OutputType::Bitcode) == Some(b@),
    {
        self.output_ref(OutputType::Bitcode)
    }

    /// Remove the object output, returning it.
    pub fn take_object(&mut self) -> (r: Option<Vec<u8>>)
        ensures
            bytes_view(r) == old(self).output(OutputType::Object),
            final(self).outputs() == old(self).outputs().remove(OutputType::Object),
            final(self).entries@ == old(self).entries@,
    {
        self.take(OutputType::Object)
    }

    /// The object output, if any.
    pub fn object_ref(&self) -> (r: Option<&[u8]>)
        ensures
            r is Some <==> self.output(OutputType::Object) is Some,
            r matches Some(b) ==> self.output(OutputType::Object) == Some(b@),
    {
        self.output_ref(OutputType::Object)
    }

    /// The assembly output, if any.
    pub fn assembly_bytes_ref(&self) -> (r: Option<&[u8]>)
        ensures
            r is Some <==> self.output(OutputType::Assembly) is Some,
            r matches Some(b) ==> self.output(OutputType::Assembly) == Some(b@),
    {
        self.output_ref(OutputType::Assembly)
    }

    /// The assembly output as text, if there is one and it is valid UTF-8.
    pub fn assembly_str_ref(&self) -> (r: Option<&str>)
        ensures
            r is Some <==> (self.output(OutputType::Assembly) matches Some(b) && valid_utf8(b)),
            r matches Some(s) ==> self.output(OutputType::Assembly) == Some(s.spec_bytes()),
    {
        match self.assembly_bytes_ref() {
            Some(b) => match utf8_str(b) {
                Ok(s) => Some(s),
                Err(_) => None,
            },
            None => None,
        }
    }

    /// The LLVM assembly output, if any.
    pub fn llvm_assembly_bytes_ref(&self) -> (r: Option<&[u8]>)
        ensures
            r is Some <==> self.output(OutputType::LlvmAssembly) is Some,
            r matches Some(b) ==> self.output(OutputType::LlvmAssembly) == Some(b@),
    {
        self.output_ref(OutputType::LlvmAssembly)
    }

    /// The LLVM assembly output as text, if there is one and it is valid UTF-8.
    pub fn llvm_assembly_str_ref(&self) -> (r: Option<&str>)
        ensures
            r is Some <==> (self.output(OutputType::LlvmAssembly) matches Some(b) && valid_utf8(b)),
            r matches Some(s) ==> self.output(OutputType::LlvmAssembly) == Some(s.spec_bytes()),
    {
        match self.llvm_assembly_bytes_ref() {
            Some(b) => match utf8_str(b) {
                Ok(s) => Some(s),
                Err(_) => None,
            },
            None => None,
        }
    }

    /// Store the linked executable, returning the one it replaces.
    pub fn put_exe(&mut self, data: Vec<u8>) -> (r: Option<Vec<u8>>)
        ensures
            bytes_view(r) == old(self).output(OutputType::Exe),
            final(self).outputs() == old(self).outputs().insert(OutputType::Exe, data@),
            final(self).entries@ == old(self).entries@,
    {
        self.put(OutputType::Exe, data)
    }

    /// The linked executable, if any.
    pub fn exe_ref(&self) -> (r: Option<&[u8]>)
        ensures
            r is Some <==> self.output(OutputType::Exe) is Some,
            r matches Some(b) ==> self.output(OutputType::Exe) == Some(b@),
    {
        self.output_ref(OutputType::Exe)
    }

    /// The root entry: the first.
    pub fn root(&self) -> (r: &EntryDesc<CD>)
        requires self.entries.len() > 0,
        ensures *r == self.entries@[0],
    {
        &self.entries[0]
    }
}

/// Two results with the same outputs map read the same output of every type.
pub proof fn lemma_outputs_determine_output<CD>(a: CodegenResults<CD>, b: CodegenResults<CD>, t: OutputType)
    requires a.outputs() == b.outputs(),
    ensures a.output(t) == b.output(t),
{
    assert(a.outputs().dom().contains(t) == (a.output(t) is Some));
    assert(b.outputs().dom().contains(t) == (b.output(t) is Some));
    if a.output(t) is Some {
        assert(a.outputs()[t] == a.output(t)->0);
        assert(b.outputs()[t] == b.output(t)->0);
    }
}

/// Law: after storing `data` as the output of type `t`, reading that type gives
/// `data` back and every other type reads as before; taking it again leaves the
/// outputs as they were with no output of type `t`.
pub proof fn law_put_then_read(outputs: Map<OutputType, Seq<u8>>, t: OutputType, data: Seq<u8>)
    ensures
        outputs.insert(t, data).dom().contains(t),
        outputs.insert(t, data)[t] == data,
        forall|u: OutputType| u != t ==> (#[trigger] outputs.insert(t, data).dom().contains(u)
            <==> outputs.dom().contains(u)),
        forall|u: OutputType| u != t && outputs.dom().contains(u)
            ==> #[trigger] outputs.insert(t, data)[u] == outputs[u],
        outputs.insert(t, data).remove(t) == outputs.remove(t),
{
    assert(outputs.insert(t, data).remove(t) =~= outputs.remove(t));
}

} // verus!
