use instance_metadata::{IgnoreGlob, InstanceContext};
use std::sync::Arc;

fn rule(base_path: &str, glob: &str) -> IgnoreGlob {
    IgnoreGlob { base_path: base_path.to_string(), glob: glob.to_string() }
}

fn context(rules: Vec<IgnoreGlob>) -> InstanceContext {
    InstanceContext { ignore_paths: Arc::new(rules) }
}

#[test]
fn default_context_has_no_rules() {
    assert!(InstanceContext::default().ignore_paths.is_empty());
}

#[test]
fn default_contexts_are_equal() {
    assert_eq!(InstanceContext::default(), InstanceContext::default());
    assert_eq!(InstanceContext::default(), context(Vec::new()));
}

#[test]
fn a_copy_holds_the_rules_of_the_context_it_copies() {
    let first = context(vec![rule("/proj", "*.spec.lua"), rule("/proj", "out/**")]);
    let copy = first.clone();
    assert_eq!(copy, first);
    assert_eq!(*copy.ignore_paths, vec![rule("/proj", "*.spec.lua"), rule("/proj", "out/**")]);
}

#[test]
fn a_copy_shares_the_rules_of_the_context_it_copies() {
    let first = context(vec![rule("/proj", "*.spec.lua")]);
    let copy = first.clone();
    assert!(Arc::ptr_eq(&first.ignore_paths, &copy.ignore_paths));
    assert_eq!(Arc::strong_count(&first.ignore_paths), 2);
}

#[test]
fn a_derived_context_holds_the_parent_rules_then_the_added_ones() {
    let parent = context(vec![rule("/proj", "a"), rule("/proj", "b")]);
    let child = parent.derive(vec![rule("/proj/sub", "c"), rule("/proj/sub", "a")]);
    assert_eq!(
        *child.ignore_paths,
        vec![rule("/proj", "a"), rule("/proj", "b"), rule("/proj/sub", "c"), rule("/proj/sub", "a")]
    );
}

#[test]
fn deriving_leaves_the_parent_as_it_was() {
    let parent = context(vec![rule("/proj", "a")]);
    let other_holder = parent.clone();
    let mut holder = parent.clone();
    assert_eq!(holder, parent);
    holder = holder.derive(vec![rule("/proj/sub", "b")]);
    assert_eq!(holder.ignore_paths.len(), 2);
    assert_eq!(*parent.ignore_paths, vec![rule("/proj", "a")]);
    assert_eq!(*other_holder.ignore_paths, vec![rule("/proj", "a")]);
    assert!(Arc::ptr_eq(&parent.ignore_paths, &other_holder.ignore_paths));
    assert_ne!(holder, parent);
}

#[test]
fn deriving_with_nothing_added_gives_an_equal_context() {
    let parent = context(vec![rule("/proj", "a")]);
    assert_eq!(parent.derive(Vec::new()), parent);
    assert_eq!(InstanceContext::default().derive(Vec::new()), InstanceContext::default());
}

#[test]
fn contexts_compare_rule_by_rule_in_order() {
    let ab = context(vec![rule("/proj", "a"), rule("/proj", "b")]);
    let ba = context(vec![rule("/proj", "b"), rule("/proj", "a")]);
    let a = context(vec![rule("/proj", "a")]);
    assert_eq!(ab, context(vec![rule("/proj", "a"), rule("/proj", "b")]));
    assert_ne!(ab, ba);
    assert_ne!(ab, a);
    assert_ne!(a, ab);
    assert_ne!(a, InstanceContext::default());
}

#[test]
fn repeated_rules_are_kept() {
    let twice = InstanceContext::default().derive(vec![rule("/proj", "a"), rule("/proj", "a")]);
    assert_eq!(twice.ignore_paths.len(), 2);
    assert_ne!(twice, context(vec![rule("/proj", "a")]));
}
