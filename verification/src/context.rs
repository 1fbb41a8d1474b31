//! Ignore rules that a subtree of instances inherits.

use crate::ignore::{IgnoreGlob, IgnoreGlobView};
use std::sync::Arc;
use vstd::prelude::*;
use vstd::std_specs::cmp::PartialEqSpecImpl;

verus! {

/// What a sequence of rules holds, rule by rule.
pub open spec fn rules_view(rules: Seq<IgnoreGlob>) -> Seq<IgnoreGlobView> {
    rules.map_values(|rule: IgnoreGlob| rule@)
}

/// The rules that apply to a subtree, in the order they were declared.
///
/// A context is never changed once made. Its rules sit behind a shared
/// pointer, so the many instances of a subtree hold one sequence between them.
#[derive(Debug)]
pub struct InstanceContext {
    pub ignore_paths: Arc<Vec<IgnoreGlob>>,
}

impl View for InstanceContext {
    type V = Seq<IgnoreGlobView>;

    open spec fn view(&self) -> Seq<IgnoreGlobView> {
        rules_view(self.ignore_paths@)
    }
}

impl InstanceContext {
    /// Every rule is well formed.
    pub open spec fn wf(&self) -> bool {
        forall|i: int| 0 <= i < self@.len() ==> (#[trigger] self@[i]).wf()
    }

    /// The context of a nested scope: the rules of this one, then `added`.
    /// This context stays as it is.
    pub fn derive(&self, added: Vec<IgnoreGlob>) -> (r: InstanceContext)
        ensures
            r@ == self@ + rules_view(added@),
            self.wf() && (forall|i: int| 0 <= i < added@.len() ==> (#[trigger] added@[i]).wf())
                ==> r.wf(),
    {
        let mut rules: Vec<IgnoreGlob> = Vec::new();
        let n = self.ignore_paths.len();
        let mut i: usize = 0;
        while i < n
            invariant
                n == self.ignore_paths@.len(),
                i <= n,
                rules@ == self.ignore_paths@.subrange(0, i as int),
            decreases n - i,
        {
            rules.push(self.ignore_paths[i].clone());
            i += 1;
        }
        let mut tail = added;
        rules.append(&mut tail);
        assert(rules@ == self.ignore_paths@ + added@);
        InstanceContext { ignore_paths: Arc::new(rules) }
    }
}

impl Default for InstanceContext {
    fn default() -> (r: Self)
        ensures
            r@ == Seq::<IgnoreGlobView>::empty(),
    {
        InstanceContext { ignore_paths: Arc::new(Vec::new()) }
    }
}

impl Clone for InstanceContext {
    /// Shares the rules: the copy points at the sequence that `self` points at.
    fn clone(&self) -> (r: Self)
        ensures
            r == *self,
    {
        InstanceContext { ignore_paths: self.ignore_paths.clone() }
    }
}

impl PartialEq for InstanceContext {
    fn eq(&self, other: &Self) -> (r: bool) {
        let n = self.ignore_paths.len();
        if other.ignore_paths.len() != n {
            assert(self@.len() != other@.len());
            return false;
        }
        let mut i: usize = 0;
        while i < n
            invariant
                n == self@.len(),
                n == other@.len(),
                i <= n,
                forall|j: int| 0 <= j < i ==> self@[j] == other@[j],
            decreases n - i,
        {
            if self.ignore_paths[i] != other.ignore_paths[i] {
                assert(self@[i as int] != other@[i as int]);
                return false;
            }
            i += 1;
        }
        assert(self@ =~= other@);
        true
    }
}

impl PartialEqSpecImpl for InstanceContext {
    open spec fn obeys_eq_spec() -> bool {
        true
    }

    open spec fn eq_spec(&self, other: &Self) -> bool {
        self@ == other@
    }
}

} // verus!
