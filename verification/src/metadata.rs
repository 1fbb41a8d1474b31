//! The record kept with every instance.

use crate::context::InstanceContext;
use crate::ignore::IgnoreGlobView;
use crate::path::resolved;
use crate::source::{InstigatingSource, InstigatingSourceView};
use vstd::prelude::*;
use vstd::std_specs::cmp::PartialEqSpecImpl;

verus! {

/// What a sequence of paths holds, path by path.
pub open spec fn paths_view(paths: Seq<String>) -> Seq<Seq<char>> {
    paths.map_values(|path: String| path@)
}

/// What an optional source holds.
pub open spec fn source_view(source: Option<InstigatingSource>) -> Option<InstigatingSourceView> {
    match source {
        Some(source) => Some(source@),
        None => None,
    }
}

/// Where an instance came from, and what would change it.
///
/// A value is built once, step by step, and then left alone: an instance that
/// is derived again gets a new one.
#[derive(Debug)]
pub struct InstanceMetadata {
    /// Whether children that no source accounts for are left alone.
    pub ignore_unknown_instances: bool,
    /// What to run again to regenerate the instance, where one source can.
    pub instigating_source: Option<InstigatingSource>,
    /// The paths whose creation, change or removal may change the instance,
    /// whether or not they exist now.
    pub relevant_paths: Vec<String>,
    /// The rules that the instance inherits, and hands down.
    pub context: InstanceContext,
}

/// What an [`InstanceMetadata`] holds.
pub struct InstanceMetadataView {
    pub ignore_unknown_instances: bool,
    pub instigating_source: Option<InstigatingSourceView>,
    pub relevant_paths: Seq<Seq<char>>,
    pub context: Seq<IgnoreGlobView>,
}

impl InstanceMetadataView {
    /// The metadata that every build starts from: nothing ignored, no
    /// source, no paths, no rules.
    pub open spec fn initial() -> InstanceMetadataView {
        InstanceMetadataView {
            ignore_unknown_instances: false,
            instigating_source: None,
            relevant_paths: Seq::empty(),
            context: Seq::empty(),
        }
    }

    /// Every path is resolved and every rule is well formed.
    pub open spec fn wf(self) -> bool {
        &&& self.instigating_source matches Some(source) ==> source.wf()
        &&& forall|i: int|
            0 <= i < self.relevant_paths.len() ==> resolved(#[trigger] self.relevant_paths[i])
        &&& forall|i: int| 0 <= i < self.context.len() ==> (#[trigger] self.context[i]).wf()
    }
}

impl View for InstanceMetadata {
    type V = InstanceMetadataView;

    open spec fn view(&self) -> InstanceMetadataView {
        InstanceMetadataView {
            ignore_unknown_instances: self.ignore_unknown_instances,
            instigating_source: source_view(self.instigating_source),
            relevant_paths: paths_view(self.relevant_paths@),
            context: self.context@,
        }
    }
}

impl InstanceMetadata {
    /// See [`InstanceMetadataView::wf`].
    pub open spec fn wf(&self) -> bool {
        self@.wf()
    }

    /// The metadata that every build starts from.
    pub fn new() -> (r: Self)
        ensures
            r@ == InstanceMetadataView::initial(),
            r.wf(),
    {
        let r = Self {
            ignore_unknown_instances: false,
            instigating_source: None,
            relevant_paths: Vec::new(),
            context: InstanceContext::default(),
        };
        assert(r@.relevant_paths =~= Seq::empty());
        r
    }

    /// The same metadata with the flag set as given.
    pub fn ignore_unknown_instances(self, ignore_unknown_instances: bool) -> (r: Self)
        ensures
            r@ == (InstanceMetadataView { ignore_unknown_instances, ..self@ }),
            self.wf() ==> r.wf(),
    {
        Self { ignore_unknown_instances, ..self }
    }

    /// The same metadata with the given source.
    pub fn instigating_source(self, instigating_source: InstigatingSource) -> (r: Self)
        ensures
            r@ == (InstanceMetadataView {
                instigating_source: Some(instigating_source@),
                ..self@
            }),
            self.wf() && instigating_source.wf() ==> r.wf(),
    {
        Self { instigating_source: Some(instigating_source), ..self }
    }

    /// The same metadata with the given paths, in the order given and with
    /// every repetition kept.
    pub fn relevant_paths(self, input: Vec<String>) -> (r: Self)
        ensures
            r@ == (InstanceMetadataView { relevant_paths: paths_view(input@), ..self@ }),
            self.wf() && (forall|i: int| 0 <= i < input@.len() ==> resolved(#[trigger] input@[i]@))
                ==> r.wf(),
    {
        Self { relevant_paths: input, ..self }
    }

    /// The same metadata with a share of the given context.
    pub fn context(self, context: &InstanceContext) -> (r: Self)
        ensures
            r@ == (InstanceMetadataView { context: context@, ..self@ }),
            self.wf() && context.wf() ==> r.wf(),
    {
        Self { context: context.clone(), ..self }
    }
}

impl Default for InstanceMetadata {
    fn default() -> (r: Self)
        ensures
            r@ == InstanceMetadataView::initial(),
            r.wf(),
    {
        Self::new()
    }
}

/// Copies a sequence of paths.
fn clone_paths(paths: &Vec<String>) -> (r: Vec<String>)
    ensures
        r@ == paths@,
{
    let mut copy: Vec<String> = Vec::new();
    let n = paths.len();
    let mut i: usize = 0;
    while i < n
        invariant
            n == paths@.len(),
            i <= n,
            copy@ == paths@.subrange(0, i as int),
        decreases n - i,
    {
        copy.push(paths[i].clone());
        i += 1;
    }
    copy
}

/// Whether two sequences of paths hold the same text at every place.
fn same_paths(a: &Vec<String>, b: &Vec<String>) -> (r: bool)
    ensures
        r == (paths_view(a@) == paths_view(b@)),
{
    let n = a.len();
    if b.len() != n {
        assert(paths_view(a@).len() != paths_view(b@).len());
        return false;
    }
    let mut i: usize = 0;
    while i < n
        invariant
            n == a@.len(),
            n == b@.len(),
            i <= n,
            forall|j: int| 0 <= j < i ==> a@[j]@ == b@[j]@,
        decreases n - i,
    {
        if a[i] != b[i] {
            assert(paths_view(a@)[i as int] != paths_view(b@)[i as int]);
            return false;
        }
        i += 1;
    }
    assert(paths_view(a@) =~= paths_view(b@));
    true
}

impl Clone for InstanceMetadata {
    fn clone(&self) -> (r: Self)
        ensures
            r@ == self@,
    {
        let instigating_source = match &self.instigating_source {
            Some(source) => Some(source.clone()),
            None => None,
        };
        Self {
            ignore_unknown_instances: self.ignore_unknown_instances,
            instigating_source,
            relevant_paths: clone_paths(&self.relevant_paths),
            context: self.context.clone(),
        }
    }
}

impl PartialEq for InstanceMetadata {
    fn eq(&self, other: &Self) -> (r: bool) {
        let same_source = match (&self.instigating_source, &other.instigating_source) {
            (Some(a), Some(b)) => *a == *b,
            (None, None) => true,
            _ => false,
        };
        self.ignore_unknown_instances == other.ignore_unknown_instances && same_source
            && same_paths(&self.relevant_paths, &other.relevant_paths) && self.context
            == other.context
    }
}

impl PartialEqSpecImpl for InstanceMetadata {
    open spec fn obeys_eq_spec() -> bool {
        true
    }

    open spec fn eq_spec(&self, other: &Self) -> bool {
        self@ == other@
    }
}

} // verus!
