//! What an instance was made from.

use crate::path::resolved;
use crate::project::ProjectNode;
use vstd::prelude::*;
use vstd::std_specs::cmp::PartialEqSpecImpl;
use vstd::std_specs::convert::FromSpecImpl;
use vstd::string::StringExecFns;

verus! {

/// The source to run again when an instance has to be regenerated.
#[derive(Debug)]
pub enum InstigatingSource {
    /// The instance came from the filesystem entry at this path.
    Path(String),
    /// The instance came from the node of this name in a project definition.
    ProjectNode(String, ProjectNode),
}

/// What an [`InstigatingSource`] holds.
pub enum InstigatingSourceView {
    Path(Seq<char>),
    ProjectNode(Seq<char>, Seq<char>),
}

impl InstigatingSourceView {
    /// A path source holds a resolved path.
    pub open spec fn wf(self) -> bool {
        self matches InstigatingSourceView::Path(path) ==> resolved(path)
    }

    /// The source as shown in diagnostics: the variant's name, and in
    /// brackets the path, or the node's name, a colon and the node.
    pub open spec fn rendering(self) -> Seq<char> {
        match self {
            InstigatingSourceView::Path(path) => "Path("@ + path + ")"@,
            InstigatingSourceView::ProjectNode(name, node) => "ProjectNode("@ + name + ": "@ + node
                + ")"@,
        }
    }
}

impl View for InstigatingSource {
    type V = InstigatingSourceView;

    open spec fn view(&self) -> InstigatingSourceView {
        match self {
            InstigatingSource::Path(path) => InstigatingSourceView::Path(path@),
            InstigatingSource::ProjectNode(name, node) => InstigatingSourceView::ProjectNode(
                name@,
                node@,
            ),
        }
    }
}

impl InstigatingSource {
    /// See [`InstigatingSourceView::wf`].
    pub open spec fn wf(&self) -> bool {
        self@.wf()
    }

    /// Shows the source for diagnostics.
    pub fn to_debug_string(&self) -> (r: String)
        ensures
            r@ == self@.rendering(),
    {
        match self {
            InstigatingSource::Path(path) => {
                let mut text = String::from_str("Path(");
                text.append(path.as_str());
                text.append(")");
                text
            },
            InstigatingSource::ProjectNode(name, node) => {
                let mut text = String::from_str("ProjectNode(");
                text.append(name.as_str());
                text.append(": ");
                text.append(node.definition.as_str());
                text.append(")");
                text
            },
        }
    }
}

impl Clone for InstigatingSource {
    fn clone(&self) -> (r: Self)
        ensures
            r == *self,
    {
        match self {
            InstigatingSource::Path(path) => InstigatingSource::Path(path.clone()),
            InstigatingSource::ProjectNode(name, node) => InstigatingSource::ProjectNode(
                name.clone(),
                node.clone(),
            ),
        }
    }
}

impl PartialEq for InstigatingSource {
    fn eq(&self, other: &Self) -> (r: bool) {
        match (self, other) {
            (InstigatingSource::Path(a), InstigatingSource::Path(b)) => *a == *b,
            (InstigatingSource::ProjectNode(a, m), InstigatingSource::ProjectNode(b, n)) => *a == *b
                && *m == *n,
            _ => false,
        }
    }
}

impl PartialEqSpecImpl for InstigatingSource {
    open spec fn obeys_eq_spec() -> bool {
        true
    }

    open spec fn eq_spec(&self, other: &Self) -> bool {
        self@ == other@
    }
}

impl From<String> for InstigatingSource {
    /// Moves the path into the `Path` variant.
    fn from(path: String) -> (r: Self)
        ensures
            r == InstigatingSource::Path(path),
    {
        InstigatingSource::Path(path)
    }
}

impl FromSpecImpl<String> for InstigatingSource {
    open spec fn obeys_from_spec() -> bool {
        true
    }

    open spec fn from_spec(path: String) -> Self {
        InstigatingSource::Path(path)
    }
}

impl<'a> From<&'a str> for InstigatingSource {
    /// Copies the path into the `Path` variant.
    fn from(path: &'a str) -> (r: Self)
        ensures
            r@ == InstigatingSourceView::Path(path@),
    {
        InstigatingSource::Path(path.to_owned())
    }
}

/// Of copied text only the view is known, so the conversion from borrowed
/// text is stated by the `ensures` of `from`, over views, and `from_spec` is
/// left open.
impl<'a> FromSpecImpl<&'a str> for InstigatingSource {
    open spec fn obeys_from_spec() -> bool {
        false
    }

    open spec fn from_spec(path: &'a str) -> Self {
        arbitrary()
    }
}

} // verus!
