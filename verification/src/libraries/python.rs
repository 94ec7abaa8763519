//! Discovery convention of the embedded-interpreter loader for Python
//! candidates.

use vstd::prelude::*;

use super::LoadError;
use super::LoadErrorKind;
use vstd::string::StrSliceExecFns;

verus! {

/// The candidate's directory with its trailing separators removed.
pub open spec fn strip_trailing_separators(path: Seq<char>) -> Seq<char>
    decreases path.len(),
{
    if path.len() > 0 && path.last() == '/' {
        strip_trailing_separators(path.drop_last())
    } else {
        path
    }
}

/// The index of the last separator of the path, or `-1` if it has none.
pub open spec fn last_separator(path: Seq<char>) -> int
    decreases path.len(),
{
    if path.len() == 0 {
        -1
    } else if path.last() == '/' {
        path.len() - 1
    } else {
        last_separator(path.drop_last())
    }
}

/// The name of the module a directory encodes: its last path segment.
pub open spec fn spec_module_name(dir: Seq<char>) -> Seq<char> {
    let trimmed = strip_trailing_separators(dir);
    trimmed.subrange(last_separator(trimmed) + 1, trimmed.len() as int)
}

/// The directory the module is searched from: the parent of the candidate's
/// directory — what stands before its last path segment.
pub open spec fn spec_module_parent(dir: Seq<char>) -> Seq<char> {
    let trimmed = strip_trailing_separators(dir);
    let separator = last_separator(trimmed);
    if separator < 0 {
        Seq::empty()
    } else if separator == 0 {
        seq!['/']
    } else {
        trimmed.subrange(0, separator)
    }
}

/// The loader for Python candidates: a directory encodes a candidate through
/// a module named by the directory's last path segment, found by adding the
/// directory's parent to the interpreter's module search path and resolving a
/// `solve` attribute. Starting the interpreter and importing the module cross
/// an FFI boundary and live with the callers of this crate; the resolution of
/// the module's name and search path below is the loader's own.
pub struct PyLibraryLoader;

impl PyLibraryLoader {
    /// Split a candidate's directory into the module search path and the
    /// module name. A path without a last segment — empty, or separators
    /// only — cannot name a module and is rejected.
    pub fn module_components(dir: &str) -> (components: Result<(String, String), LoadError>)
        ensures
            match components {
                Ok((parent, name)) => {
                    &&& strip_trailing_separators(dir@).len() > 0
                    &&& parent@ == spec_module_parent(dir@)
                    &&& name@ == spec_module_name(dir@)
                    &&& name@.len() > 0
                },
                Err(error) => {
                    &&& strip_trailing_separators(dir@).len() == 0
                    &&& error.kind == LoadErrorKind::PathInvalid
                },
            },
    {
        let length = dir.unicode_len();

        // Drop the trailing separators.
        let mut end: usize = length;
        proof {
            assert(dir@.subrange(0, length as int) =~= dir@);
        }
        loop
            invariant
                length == dir@.len(),
                end <= length,
                strip_trailing_separators(dir@) == strip_trailing_separators(
                    dir@.subrange(0, end as int),
                ),
            ensures
                length == dir@.len(),
                end <= length,
                strip_trailing_separators(dir@) == dir@.subrange(0, end as int),
                end > 0 ==> dir@[end - 1] != '/',
            decreases end,
        {
            if end == 0 {
                proof {
                    assert(dir@.subrange(0, 0) =~= Seq::<char>::empty());
                }
                break;
            }
            if dir.get_char(end - 1) != '/' {
                break;
            }
            proof {
                let before = dir@.subrange(0, end as int);
                assert(before.drop_last() =~= dir@.subrange(0, end - 1));
            }
            end = end - 1;
        }
        let ghost trimmed = dir@.subrange(0, end as int);

        if end == 0 {
            return Err(LoadError::new(LoadErrorKind::PathInvalid));
        }

        // Find the separator before the last path segment.
        let mut cut: usize = end;
        loop
            invariant
                length == dir@.len(),
                cut <= end <= length,
                last_separator(trimmed) == last_separator(dir@.subrange(0, cut as int)),
            ensures
                cut <= end,
                cut == 0 ==> last_separator(trimmed) == -1,
                cut > 0 ==> dir@[cut - 1] == '/' && last_separator(trimmed) == cut - 1,
            decreases cut,
        {
            if cut == 0 {
                proof {
                    assert(dir@.subrange(0, 0) =~= Seq::<char>::empty());
                }
                break;
            }
            if dir.get_char(cut - 1) == '/' {
                proof {
                    let before = dir@.subrange(0, cut as int);
                    assert(before.last() == '/');
                }
                break;
            }
            proof {
                let before = dir@.subrange(0, cut as int);
                assert(before.drop_last() =~= dir@.subrange(0, cut - 1));
            }
            cut = cut - 1;
        }

        let name = dir.substring_char(cut, end).to_owned();
        proof {
            assert(name@ =~= trimmed.subrange(last_separator(trimmed) + 1, trimmed.len() as int));
        }
        let parent = if cut == 0 {
            String::new()
        } else {
            dir.substring_char(0, if cut == 1 { 1 } else { cut - 1 }).to_owned()
        };
        proof {
            if cut == 1 {
                assert(parent@ =~= seq!['/']);
            } else if cut > 1 {
                assert(parent@ =~= trimmed.subrange(0, cut - 1));
            }
            assert(parent@ =~= spec_module_parent(dir@));
        }
        Ok((parent, name))
    }
}

} // verus!
