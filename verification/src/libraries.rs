//! The candidate capability, the loader contract, the registry of supported
//! source languages and the loaders' discovery conventions.

use vstd::prelude::*;

use crate::testing::input_allowed;
use vstd::string::StrSliceExecFns;
use vstd::string::StringExecFns;

pub mod c;
pub mod python;
pub mod rust;

verus! {

/// Why a candidate could not be produced from a filesystem location.
#[derive(Clone, Copy, Debug, PartialEq, Eq, Structural)]
pub enum LoadErrorKind {
    /// A required path component could not be resolved.
    PathInvalid,
    /// The expected binary or module is missing.
    ArtifactNotFound,
    /// The expected exported symbol or attribute is absent.
    SymbolNotFound,
    /// The foreign runtime could not start or be configured.
    RuntimeInitFailure,
    /// A call into foreign code faulted or returned an unconvertible value.
    InvocationFailure,
}

/// A tagged failure describing why a candidate could not be produced.
#[derive(Clone, Copy, Debug, PartialEq, Eq, Structural)]
pub struct LoadError {
    pub kind: LoadErrorKind,
}

impl LoadError {
    pub fn new(kind: LoadErrorKind) -> (error: LoadError)
        ensures
            error.kind == kind,
    {
        LoadError { kind }
    }
}

/// The capability every loaded candidate offers: solve one instance of the
/// problem. Implementations are foreign; nothing is assumed of the value they
/// return, and they are only ever invoked on allowed inputs.
pub trait Library {
    fn solve(&self, factors: &[u64], upper_bound: u64) -> (value: u64)
        requires
            input_allowed(factors@, upper_bound),
    ;
}

/// The contract of a per-source-language loader: turn a directory into the
/// candidate it encodes, or report why none could be produced.
pub trait LibraryLoader {
    type Library: Library;

    fn load(&self, dir: &str) -> (loaded: Result<Self::Library, LoadError>);
}

/// The languages in which a candidate may be written.
#[derive(Clone, Copy, Debug, PartialEq, Eq, Structural)]
pub enum SupportedLanguage {
    C,
    Rust,
    Python,
}

/// The registry's static configuration: every language a loader exists for.
pub fn supported_languages() -> (languages: Vec<SupportedLanguage>)
    ensures
        languages@ == seq![
            SupportedLanguage::C,
            SupportedLanguage::Rust,
            SupportedLanguage::Python,
        ],
{
    let mut languages: Vec<SupportedLanguage> = Vec::new();
    languages.push(SupportedLanguage::C);
    languages.push(SupportedLanguage::Rust);
    languages.push(SupportedLanguage::Python);
    proof {
        assert(languages@ =~= seq![
            SupportedLanguage::C,
            SupportedLanguage::Rust,
            SupportedLanguage::Python,
        ]);
    }
    languages
}

/// What joining a relative component onto a base path yields: the two joined
/// by exactly one separator, except that an empty base contributes nothing.
pub open spec fn spec_path_join(base: Seq<char>, component: Seq<char>) -> Seq<char> {
    if base.len() == 0 {
        component
    } else if base.last() == '/' {
        base + component
    } else {
        base + seq!['/'] + component
    }
}

/// Join a relative component onto a base path with exactly one separator.
pub fn path_join(base: &str, component: &str) -> (joined: String)
    ensures
        joined@ == spec_path_join(base@, component@),
{
    let base_len = base.unicode_len();
    let mut joined = base.to_owned();
    if base_len > 0 && base.get_char(base_len - 1) != '/' {
        joined.append("/");
        proof {
            reveal_strlit("/");
            assert(joined@ =~= base@ + seq!['/']);
        }
    }
    joined.append(component);
    proof {
        assert(joined@ =~= spec_path_join(base@, component@));
    }
    joined
}

} // verus!
