//! Discovery convention of the delegating loader for Rust candidates.

use vstd::prelude::*;

use super::spec_path_join;
use super::path_join;

verus! {

/// The loader for Rust candidates. A Rust candidate compiles to the same
/// binary interface as a C candidate, so invocation is shared with the C
/// loader; only discovery differs: the shared object sits in the crate's
/// release build output rather than directly inside the directory.
pub struct RustLibraryLoader;

impl RustLibraryLoader {
    /// Where the shared object of a Rust candidate is expected: `libsolve.so`
    /// inside the crate's `target/release` build output.
    pub fn artifact_path(dir: &str) -> (path: String)
        ensures
            path@ == spec_path_join(
                spec_path_join(spec_path_join(dir@, "target"@), "release"@),
                "libsolve.so"@,
            ),
    {
        let target = path_join(dir, "target");
        let release = path_join(target.as_str(), "release");
        path_join(release.as_str(), "libsolve.so")
    }
}

} // verus!
