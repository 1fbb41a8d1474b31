//! Nodes of a project definition, as far as instance metadata carries them.

use vstd::prelude::*;
use vstd::std_specs::cmp::PartialEqSpecImpl;

verus! {

/// A node of a project definition, carried as the text that defines it.
///
/// The metadata never looks inside a node: it keeps it, compares it and shows
/// it, and the text is enough for all three.
#[derive(Debug)]
pub struct ProjectNode {
    pub definition: String,
}

impl View for ProjectNode {
    type V = Seq<char>;

    open spec fn view(&self) -> Seq<char> {
        self.definition@
    }
}

impl Clone for ProjectNode {
    fn clone(&self) -> (r: Self)
        ensures
            r == *self,
    {
        ProjectNode { definition: self.definition.clone() }
    }
}

impl PartialEq for ProjectNode {
    fn eq(&self, other: &Self) -> (r: bool) {
        self.definition == other.definition
    }
}

impl PartialEqSpecImpl for ProjectNode {
    open spec fn obeys_eq_spec() -> bool {
        true
    }

    open spec fn eq_spec(&self, other: &Self) -> bool {
        self@ == other@
    }
}

} // verus!
