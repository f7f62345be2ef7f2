//! Finding a compiled kernel in a loaded executable.
use vstd::prelude::*;
use crate::accessible::HsaError;

verus! {

/// What the loader reads of a symbol of an executable: whether it is a kernel, and
/// its name (`None` when it has none that can be read).
#[derive(Clone, Debug)]
pub struct SymbolInfo {
    pub is_kernel: bool,
    pub name: Option<String>,
}

/// Why a kernel could not be loaded.
#[derive(Clone, Debug, PartialEq, Eq)]
pub enum LoadError {
    /// No kernel symbol of the executable has the root entry's symbol; the entry's
    /// kernel instance name is given.
    MissingKernelSymbol(String),
    /// The kernel symbol has a null kernel object.
    UnexpectedNullKernelObject,
    /// The runtime failed to answer.
    Hsa(HsaError),
}

/// Symbol `s` is a kernel named `root`.
pub open spec fn is_root_kernel(s: SymbolInfo, root: Seq<char>) -> bool {
    s.is_kernel && (s.name matches Some(n) && n@ == root)
}

/// The kernel symbol of the root entry: the first kernel symbol named `root`, or
/// `MissingKernelSymbol` with the entry's name `entry_name` when there is none.
pub fn find_kernel_symbol(symbols: &Vec<SymbolInfo>, root: &String, entry_name: &String)
    -> (r: Result<usize, LoadError>)
    ensures
        r matches Ok(i) ==> i < symbols.len() && is_root_kernel(symbols@[i as int], root@)
            && forall|k: int| 0 <= k < i ==> !is_root_kernel(#[trigger] symbols@[k], root@),
        r matches Err(e) ==> (e matches LoadError::MissingKernelSymbol(n) && n@ == entry_name@)
            && forall|k: int| 0 <= k < symbols.len() ==> !is_root_kernel(#[trigger] symbols@[k], root@),
{
    let mut i: usize = 0;
    while i < symbols.len()
        invariant
            i <= symbols.len(),
            forall|k: int| 0 <= k < i ==> !is_root_kernel(#[trigger] symbols@[k], root@),
        decreases symbols.len() - i,
    {
        let s = &symbols[i];
        if s.is_kernel {
            match &s.name {
                Some(n) => {
                    if *n == *root {
                        return Ok(i);
                    }
                },
                None => {},
            }
        }
        i = i + 1;
    }
    Err(LoadError::MissingKernelSymbol(entry_name.clone()))
}

/// The kernel object of the found symbol, from the runtime's answer: a failed query
/// passes its error on, and a null object is `UnexpectedNullKernelObject`.
pub fn kernel_object(answer: Result<Option<u64>, HsaError>) -> (r: Result<u64, LoadError>)
    ensures
        r == match answer {
            Ok(Some(o)) => Ok::<u64, LoadError>(o),
            Ok(None) => Err(LoadError::UnexpectedNullKernelObject),
            Err(e) => Err(LoadError::Hsa(e)),
        },
{
    match answer {
        Ok(Some(o)) => Ok(o),
        Ok(None) => Err(LoadError::UnexpectedNullKernelObject),
        Err(e) => Err(LoadError::Hsa(e)),
    }
}

} // verus!
