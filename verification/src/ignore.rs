//! Rules that keep paths out of tracking.

use crate::glob::{check_glob, checked_match, is_glob, match_glob};
use crate::path::{portable, relative_form, relative_to, resolved};
use vstd::prelude::*;
use vstd::std_specs::cmp::PartialEqSpecImpl;

verus! {

/// One exclusion rule: a glob, and the directory it is anchored to.
#[derive(Debug)]
pub struct IgnoreGlob {
    /// The directory that the glob is relative to, as a resolved path.
    pub base_path: String,
    /// The pattern, matched against paths relative to `base_path`.
    pub glob: String,
}

/// What an [`IgnoreGlob`] holds.
pub struct IgnoreGlobView {
    pub base_path: Seq<char>,
    pub glob: Seq<char>,
}

impl IgnoreGlobView {
    /// The anchor is a resolved path and the pattern is a glob.
    pub open spec fn wf(self) -> bool {
        resolved(self.base_path) && is_glob(self.glob)
    }

    /// Whether the rule excludes `path`: it does where `path` can be made
    /// relative to the anchor and the relative form matches the glob. A path
    /// outside the anchor's subtree is never excluded. `None` where the glob
    /// had to be asked and could not answer.
    pub open spec fn ignores(self, path: Seq<char>) -> Option<bool> {
        match relative_form(path, self.base_path) {
            Some(rest) => checked_match(self.glob, rest),
            None => Some(false),
        }
    }
}

impl View for IgnoreGlob {
    type V = IgnoreGlobView;

    open spec fn view(&self) -> IgnoreGlobView {
        IgnoreGlobView { base_path: self.base_path@, glob: self.glob@ }
    }
}

impl IgnoreGlob {
    /// See [`IgnoreGlobView::wf`].
    pub open spec fn wf(&self) -> bool {
        self@.wf()
    }

    /// Builds a rule from an anchor, which the caller has resolved, and a
    /// pattern. `None` where the pattern is no glob.
    pub fn new(base_path: String, glob: String) -> (r: Option<IgnoreGlob>)
        requires
            resolved(base_path@),
        ensures
            match r {
                Some(rule) => is_glob(glob@) && rule.wf() && rule@ == (IgnoreGlobView {
                    base_path: base_path@,
                    glob: glob@,
                }),
                None => !is_glob(glob@),
            },
    {
        if check_glob(glob.as_str()) {
            Some(IgnoreGlob { base_path, glob })
        } else {
            None
        }
    }

    /// Whether this rule excludes `path`.
    pub fn ignores(&self, path: &str) -> (r: Option<bool>)
        ensures
            r == self@.ignores(path@),
            self.wf() && portable(path@) ==> r is Some,
    {
        match relative_to(path, self.base_path.as_str()) {
            Some(rest) => {
                proof {
                    if portable(path@) {
                        lemma_relative_form_portable(path@, self.base_path@);
                    }
                }
                match_glob(self.glob.as_str(), rest.as_str())
            },
            None => Some(false),
        }
    }
}

/// The relative form of a portable path is portable.
pub proof fn lemma_relative_form_portable(path: Seq<char>, base: Seq<char>)
    requires
        portable(path),
    ensures
        relative_form(path, base) matches Some(rest) ==> portable(rest),
{
}

impl Clone for IgnoreGlob {
    fn clone(&self) -> (r: Self)
        ensures
            r == *self,
    {
        IgnoreGlob { base_path: self.base_path.clone(), glob: self.glob.clone() }
    }
}

impl PartialEq for IgnoreGlob {
    fn eq(&self, other: &Self) -> (r: bool) {
        self.base_path == other.base_path && self.glob == other.glob
    }
}

impl PartialEqSpecImpl for IgnoreGlob {
    open spec fn obeys_eq_spec() -> bool {
        true
    }

    open spec fn eq_spec(&self, other: &Self) -> bool {
        self@ == other@
    }
}

} // verus!
