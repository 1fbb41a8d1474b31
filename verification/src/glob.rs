//! Glob matching, which the `globset` crate does for this library.

use crate::path::{is_portable, portable};
use globset::{Glob, GlobSet};
use vstd::prelude::*;
use vstd::string::StrSliceExecFns;

verus! {

/// The longest pattern, in characters, that is handed to `globset`.
pub const MAX_GLOB_LEN: usize = 1024;

/// The answer of `globset` for a pattern and a candidate, both as text:
/// `None` where the pattern does not compile as a glob, else whether the
/// candidate matches it.
pub uninterp spec fn glob_match(pattern: Seq<char>, candidate: Seq<char>) -> Option<bool>;

/// A pattern is handed to `globset` only where it is short enough and
/// portable.
pub open spec fn admissible(pattern: Seq<char>) -> bool {
    pattern.len() <= MAX_GLOB_LEN && portable(pattern)
}

/// Whether `pattern` is a glob that this library can match with.
pub open spec fn is_glob(pattern: Seq<char>) -> bool {
    admissible(pattern) && glob_match(pattern, Seq::empty()) is Some
}

/// The outcome of matching `candidate` against `pattern`: `None` where the
/// pattern is no glob or the candidate is not portable.
pub open spec fn checked_match(pattern: Seq<char>, candidate: Seq<char>) -> Option<bool> {
    if admissible(pattern) && portable(candidate) {
        glob_match(pattern, candidate)
    } else {
        None
    }
}

/// Calls `globset`: `Glob::new` parses the pattern with the default options,
/// `GlobSet::new` compiles it, and `GlobSet::is_match` tests the candidate.
///
/// Trusted, not proved: the outcome is a function of the two texts, and
/// whether the pattern compiles does not depend on the candidate. Backslashes
/// are kept out because `globset` reads them differently from platform to
/// platform, and long patterns because it walks nested alternatives by
/// recursion.
#[verifier::external_body]
fn match_with_globset(pattern: &str, candidate: &str) -> (r: Option<bool>)
    requires
        pattern@.len() <= MAX_GLOB_LEN,
        portable(pattern@),
        portable(candidate@),
    ensures
        r == glob_match(pattern@, candidate@),
        r is Some == glob_match(pattern@, Seq::empty()) is Some,
{
    let Ok(glob) = Glob::new(pattern) else {
        return None;
    };
    match GlobSet::new([glob]) {
        Ok(set) => Some(set.is_match(candidate)),
        Err(_) => None,
    }
}

/// Matches `candidate` against the glob `pattern`.
pub fn match_glob(pattern: &str, candidate: &str) -> (r: Option<bool>)
    ensures
        r == checked_match(pattern@, candidate@),
        is_glob(pattern@) && portable(candidate@) ==> r is Some,
{
    if pattern.unicode_len() > MAX_GLOB_LEN || !is_portable(pattern) || !is_portable(candidate) {
        return None;
    }
    match_with_globset(pattern, candidate)
}

/// Whether `pattern` is a glob that this library can match with.
pub fn check_glob(pattern: &str) -> (r: bool)
    ensures
        r == is_glob(pattern@),
{
    if pattern.unicode_len() > MAX_GLOB_LEN || !is_portable(pattern) {
        return false;
    }
    proof {
        reveal_strlit("");
        assert(""@ =~= Seq::<char>::empty());
    }
    match_with_globset(pattern, "").is_some()
}

} // verus!
