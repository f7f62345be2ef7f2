//! Finding the LLVM tools of a Rust build.
use vstd::prelude::*;

verus! {

/// `part` joined onto `base` as a path: an absolute `part` replaces `base`;
/// otherwise `part` is appended, after a `/` unless `base` is empty or already
/// ends in one.
pub open spec fn path_join(base: Seq<char>, part: Seq<char>) -> Seq<char> {
    if part.len() > 0 && part[0] == '/' {
        part
    } else if base.len() == 0 || base.last() == '/' {
        base + part
    } else {
        base + seq!['/'] + part
    }
}

/// Join `part` onto the path `base`.
pub fn join_path(base: &String, part: &str) -> (r: String)
    ensures r@ == path_join(base@, part@),
{
    let plen = part.unicode_len();
    if plen > 0 && part.get_char(0) == '/' {
        return String::from_str(part);
    }
    let blen = base.as_str().unicode_len();
    let mut out = base.clone();
    if blen > 0 && base.as_str().get_char(blen - 1) != '/' {
        proof { reveal_strlit("/"); }
        out.append("/");
    }
    out.append(part);
    proof {
        if blen > 0 && base@.last() != '/' {
            assert(out@ =~= base@ + seq!['/'] + part@);
        }
    }
    out
}

/// `prefix` followed by `value`, as one argument.
fn flag(prefix: &str, value: &str) -> (r: String)
    ensures r@ == prefix@ + value@,
{
    let mut s = String::from_str(prefix);
    s.append(value);
    s
}

/// The arguments of an `llc` run compiling the bitcode `input` for the GPU model
/// `cpu` with `features` and the platform's `option` (`-relocation-model=pic`
/// for AMDGPU, `-O3` for SPIR-V), into a file of type `filetype` (`obj` or `asm`)
/// at `output`.
pub fn llc_args(input: &str, cpu: &str, features: &str, option: &str, filetype: &str, output: &str)
    -> (r: Vec<String>)
    ensures
        r.len() == 7,
        r@[0]@ == input@,
        r@[1]@ == "-mcpu="@ + cpu@,
        r@[2]@ == "-mattr="@ + features@,
        r@[3]@ == option@,
        r@[4]@ == "-filetype="@ + filetype@,
        r@[5]@ == "-o"@,
        r@[6]@ == output@,
{
    let mut v: Vec<String> = Vec::new();
    v.push(String::from_str(input));
    v.push(flag("-mcpu=", cpu));
    v.push(flag("-mattr=", features));
    v.push(String::from_str(option));
    v.push(flag("-filetype=", filetype));
    v.push(String::from_str("-o"));
    v.push(String::from_str(output));
    v
}

/// Where the LLVM build lives: the directory whose `bin` holds the tools.
pub struct LlvmBuildRoot(String);

impl LlvmBuildRoot {
    /// The root directory.
    pub closed spec fn root(&self) -> Seq<char> { self.0@ }

    /// The root of the LLVM build of a Rust build tree (`RUST_BUILD_ROOT`), which
    /// takes priority, or of a plain LLVM build (`LLVM_BUILD`); `None` when neither
    /// is given.
    pub fn from_roots(rust_build_root: Option<String>, llvm_build: Option<String>, host_triple: &str)
        -> (r: Option<LlvmBuildRoot>)
        ensures
            rust_build_root matches Some(root) ==> r matches Some(l)
                && l.root() == path_join(path_join(root@, host_triple@), "llvm"@),
            rust_build_root is None ==> match llvm_build {
                Some(root) => r matches Some(l) && l.root() == root@,
                None => r is None,
            },
    {
        match rust_build_root {
            Some(root) => {
                let with_host = join_path(&root, host_triple);
                Some(LlvmBuildRoot(join_path(&with_host, "llvm")))
            },
            None => match llvm_build {
                Some(root) => Some(LlvmBuildRoot(root)),
                None => None,
            },
        }
    }

    /// The root directory.
    pub fn llvm_root(&self) -> (r: &String)
        ensures r@ == self.root(),
    {
        &self.0
    }

    /// The path of the tool named `tool`: `<root>/bin/<tool>`.
    pub fn llvm_tool(&self, tool: &str) -> (r: String)
        ensures r@ == path_join(path_join(self.root(), "bin"@), tool@),
    {
        let bin = join_path(&self.0, "bin");
        join_path(&bin, tool)
    }

    /// The LLVM static compiler.
    pub fn llc(&self) -> (r: String)
        ensures r@ == path_join(path_join(self.root(), "bin"@), "llc"@),
    {
        self.llvm_tool("llc")
    }

    /// The LLVM ELF linker.
    pub fn lld(&self) -> (r: String)
        ensures r@ == path_join(path_join(self.root(), "bin"@), "ld.lld"@),
    {
        self.llvm_tool("ld.lld")
    }

    /// The C compiler.
    pub fn clang(&self) -> (r: String)
        ensures r@ == path_join(path_join(self.root(), "bin"@), "clang"@),
    {
        self.llvm_tool("clang")
    }

    /// The C++ compiler.
    pub fn clangxx(&self) -> (r: String)
        ensures r@ == path_join(path_join(self.root(), "bin"@), "clang++"@),
    {
        self.llvm_tool("clang++")
    }

    /// The archiver.
    pub fn ar(&self) -> (r: String)
        ensures r@ == path_join(path_join(self.root(), "bin"@), "llvm-ar"@),
    {
        self.llvm_tool("llvm-ar")
    }

    /// The archive indexer.
    pub fn ranlib(&self) -> (r: String)
        ensures r@ == path_join(path_join(self.root(), "bin"@), "llvm-ranlib"@),
    {
        self.llvm_tool("llvm-ranlib")
    }
}

} // verus!
