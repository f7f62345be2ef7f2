//! Host-side logic of the Geobacter accelerator runtime: launch grids and
//! dispatch planning, kernel argument arenas, device access tracking,
//! dependency barriers, descriptor layouts and codegen bookkeeping.
use vstd::prelude::*;

pub mod error;
pub mod grid;
pub mod launch;
pub mod deps;
pub mod args_pool;
pub mod accessible;
pub mod conditional;
pub mod codegen;
pub mod target;
pub mod device;
pub mod signal;
pub mod channel_mask;
pub mod descriptors;
pub mod layout;
pub mod inline_vec;
pub mod dispatch;
pub mod llvm;
pub mod env;
pub mod lds;
pub mod metadata;
pub mod async_copy;
pub mod loader;
pub mod dylib_paths;
pub mod search;
pub mod spirv;
pub mod products;

verus! {

/// The unwinding personality of device code, which never unwinds: never called.
pub fn rust_eh_personality() {
}

} // verus!
