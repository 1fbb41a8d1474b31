//! What holds of the metadata model as a whole.

use crate::context::{rules_view, InstanceContext};
use crate::ignore::IgnoreGlob;
use crate::metadata::{paths_view, InstanceMetadata, InstanceMetadataView};
use crate::source::{InstigatingSource, InstigatingSourceView};
use vstd::prelude::*;
use vstd::std_specs::cmp::PartialEqSpec;

verus! {

/// The paths of a build are the paths that were given: an entry for every
/// entry, at the same place, whether or not it occurred before.
pub proof fn lemma_paths_kept_as_given(
    before: InstanceMetadata,
    input: Vec<String>,
    after: InstanceMetadata,
)
    requires
        call_ensures(InstanceMetadata::relevant_paths, (before, input), after),
    ensures
        after@.relevant_paths.len() == input@.len(),
        forall|i: int| 0 <= i < input@.len() ==> after@.relevant_paths[i] == input@[i]@,
{
}

/// A fresh context has no rules, and any two fresh contexts compare equal.
pub proof fn lemma_default_contexts_equal(a: InstanceContext, b: InstanceContext)
    requires
        call_ensures(InstanceContext::default, (), a),
        call_ensures(InstanceContext::default, (), b),
    ensures
        a@.len() == 0,
        a.eq_spec(&b),
{
}

/// A copy of a context holds the rules of the context it was taken from. A
/// context derived from the copy holds those rules and then the added ones;
/// the copy, and the context it was taken from, hold what they held.
pub proof fn lemma_derived_context_leaves_parent(
    parent: InstanceContext,
    copy: InstanceContext,
    added: Vec<IgnoreGlob>,
    child: InstanceContext,
)
    requires
        call_ensures(InstanceContext::clone, (&parent,), copy),
        call_ensures(InstanceContext::derive, (&copy, added), child),
    ensures
        copy.eq_spec(&parent),
        child@ == parent@ + rules_view(added@),
        parent@.is_prefix_of(child@),
{
}

/// A path converts to the `Path` variant that carries it, owned or borrowed.
pub proof fn lemma_path_becomes_path_source(
    owned: String,
    from_owned: InstigatingSource,
    borrowed: &str,
    from_borrowed: InstigatingSource,
)
    requires
        call_ensures(<InstigatingSource as From<String>>::from, (owned,), from_owned),
        call_ensures(<InstigatingSource as From<&str>>::from, (borrowed,), from_borrowed),
    ensures
        from_owned@ == InstigatingSourceView::Path(owned@),
        from_borrowed@ == InstigatingSourceView::Path(borrowed@),
{
}

/// Two sources compare equal exactly where they are of one variant and hold
/// the same text.
pub proof fn lemma_sources_equal_by_variant_and_payload(a: InstigatingSource, b: InstigatingSource)
    ensures
        a.eq_spec(&b) <==> match (a, b) {
            (InstigatingSource::Path(p), InstigatingSource::Path(q)) => p@ == q@,
            (InstigatingSource::ProjectNode(m, x), InstigatingSource::ProjectNode(n, y)) => m@
                == n@ && x@ == y@,
            _ => false,
        },
{
}

/// Two metadata values compare equal exactly where every field does.
pub proof fn lemma_metadata_equal_by_fields(a: InstanceMetadata, b: InstanceMetadata)
    ensures
        a.eq_spec(&b) <==> {
            &&& a.ignore_unknown_instances == b.ignore_unknown_instances
            &&& a.instigating_source.eq_spec(&b.instigating_source)
            &&& paths_view(a.relevant_paths@) == paths_view(b.relevant_paths@)
            &&& a.context.eq_spec(&b.context)
        },
{
}

/// Metadata built by the same steps from the same values is equal: whatever
/// two runs of `new` and the four builders return, given the same flag,
/// source, paths and context, the results compare equal.
pub proof fn lemma_same_steps_same_metadata(
    flag: bool,
    source: InstigatingSource,
    paths: Vec<String>,
    context: InstanceContext,
    a: (InstanceMetadata, InstanceMetadata, InstanceMetadata, InstanceMetadata, InstanceMetadata),
    b: (InstanceMetadata, InstanceMetadata, InstanceMetadata, InstanceMetadata, InstanceMetadata),
)
    requires
        call_ensures(InstanceMetadata::new, (), a.0),
        call_ensures(InstanceMetadata::ignore_unknown_instances, (a.0, flag), a.1),
        call_ensures(InstanceMetadata::instigating_source, (a.1, source), a.2),
        call_ensures(InstanceMetadata::relevant_paths, (a.2, paths), a.3),
        call_ensures(InstanceMetadata::context, (a.3, &context), a.4),
        call_ensures(InstanceMetadata::new, (), b.0),
        call_ensures(InstanceMetadata::ignore_unknown_instances, (b.0, flag), b.1),
        call_ensures(InstanceMetadata::instigating_source, (b.1, source), b.2),
        call_ensures(InstanceMetadata::relevant_paths, (b.2, paths), b.3),
        call_ensures(InstanceMetadata::context, (b.3, &context), b.4),
    ensures
        a.4.eq_spec(&b.4),
        a.4@ == (InstanceMetadataView {
            ignore_unknown_instances: flag,
            instigating_source: Some(source@),
            relevant_paths: paths_view(paths@),
            context: context@,
        }),
{
}

/// Flipping the flag gives metadata that does not compare equal to what it
/// was made from.
pub proof fn lemma_flipped_flag_differs(before: InstanceMetadata, after: InstanceMetadata)
    requires
        call_ensures(
            InstanceMetadata::ignore_unknown_instances,
            (before, !before.ignore_unknown_instances),
            after,
        ),
    ensures
        !after.eq_spec(&before),
{
}

/// Setting one field to a value that differs from the one it had gives
/// metadata that does not compare equal to what it was made from.
pub proof fn lemma_changed_field_differs(
    before: InstanceMetadata,
    source: InstigatingSource,
    paths: Vec<String>,
    context: InstanceContext,
    after: InstanceMetadata,
)
    requires
        ({
            ||| call_ensures(InstanceMetadata::instigating_source, (before, source), after)
                && before@.instigating_source != Some(source@)
            ||| call_ensures(InstanceMetadata::relevant_paths, (before, paths), after)
                && before@.relevant_paths != paths_view(paths@)
            ||| call_ensures(InstanceMetadata::context, (before, &context), after)
                && before@.context != context@
        }),
    ensures
        !after.eq_spec(&before),
{
}

} // verus!
