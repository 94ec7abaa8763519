//! The data the request surface hands to the harness.

use vstd::prelude::*;

use crate::libraries::SupportedLanguage;

verus! {

/// How many randomized tests a proposal gets when it does not say.
pub const DEFAULT_TEST_COUNT: usize = 10;

/// A request to test a candidate: where it lies, what language it is written
/// in, and optionally how many randomized tests to run.
pub struct LibraryProposal {
    pub library: String,
    pub language: SupportedLanguage,
    pub test_count: Option<usize>,
}

impl LibraryProposal {
    /// The number of tests the proposal asks for, or the default.
    pub fn effective_test_count(&self) -> (count: usize)
        ensures
            count == match self.test_count {
                Some(requested) => requested as int,
                None => DEFAULT_TEST_COUNT as int,
            },
    {
        match self.test_count {
            Some(requested) => requested,
            None => DEFAULT_TEST_COUNT,
        }
    }
}

} // verus!
