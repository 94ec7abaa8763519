//! Discovery convention of the native-symbol loader for C candidates.

use vstd::prelude::*;

use super::spec_path_join;
use super::path_join;

verus! {

/// The loader for C candidates: a directory encodes a candidate through a
/// shared object named `libsolve.so` directly inside it, exporting a `solve`
/// symbol. Opening the object and resolving the symbol cross an FFI boundary
/// and live with the callers of this crate; the discovery convention below is
/// the loader's own.
pub struct CLibraryLoader;

impl CLibraryLoader {
    /// Where the shared object of a C candidate is expected: the fixed file
    /// name `libsolve.so` directly inside the candidate's directory.
    pub fn artifact_path(dir: &str) -> (path: String)
        ensures
            path@ == spec_path_join(dir@, "libsolve.so"@),
    {
        path_join(dir, "libsolve.so")
    }
}

} // verus!
