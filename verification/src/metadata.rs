//! Where a crate's metadata is loaded from.
use vstd::prelude::*;

verus! {

/// The file a crate's metadata comes from: a path mapped explicitly, or one found
/// along the search paths.
#[derive(Clone, Debug)]
pub enum CrateSource {
    Mapped(String),
    SearchPaths(String),
}

impl CrateSource {
    /// The path of the file, whichever way it was found.
    pub open spec fn path_spec(&self) -> Seq<char> {
        match self {
            CrateSource::Mapped(p) => p@,
            CrateSource::SearchPaths(p) => p@,
        }
    }

    /// The path of the file, whichever way it was found.
    pub fn path(&self) -> (r: &String)
        ensures r@ == self.path_spec(),
    {
        match self {
            CrateSource::Mapped(p) => p,
            CrateSource::SearchPaths(p) => p,
        }
    }
}

} // verus!
