use instance_metadata::glob::MAX_GLOB_LEN;
use instance_metadata::IgnoreGlob;

fn rule(base_path: &str, glob: &str) -> IgnoreGlob {
    IgnoreGlob { base_path: base_path.to_string(), glob: glob.to_string() }
}

#[test]
fn rule_matches_below_its_base_and_not_outside() {
    let spec_files = rule("/proj", "*.spec.lua");
    assert_eq!(spec_files.ignores("/proj/sub/widget.spec.lua"), Some(true));
    assert_eq!(spec_files.ignores("/other/widget.spec.lua"), Some(false));
}

#[test]
fn rule_matches_the_relative_form() {
    let top_level = rule("/proj", "sub/*.lua");
    assert_eq!(top_level.ignores("/proj/sub/a.lua"), Some(true));
    assert_eq!(top_level.ignores("/proj/other/sub/a.lua"), Some(false));
    assert_eq!(top_level.ignores("/proj/sub/a.txt"), Some(false));
}

#[test]
fn rule_does_not_reach_a_sibling_with_a_longer_name() {
    let spec_files = rule("/proj", "*.spec.lua");
    assert_eq!(spec_files.ignores("/project/widget.spec.lua"), Some(false));
    assert_eq!(spec_files.ignores("/proj.spec.lua"), Some(false));
}

#[test]
fn rule_is_asked_about_its_own_base_with_the_empty_form() {
    assert_eq!(rule("/proj", "*").ignores("/proj"), Some(true));
    assert_eq!(rule("/proj", "*.lua").ignores("/proj"), Some(false));
}

#[test]
fn rule_under_a_drive() {
    let spec_files = rule("C:/proj", "**/*.spec.lua");
    assert_eq!(spec_files.ignores("C:/proj/a/b/widget.spec.lua"), Some(true));
    assert_eq!(spec_files.ignores("D:/proj/a/b/widget.spec.lua"), Some(false));
}

#[test]
fn rule_without_a_glob_answers_only_outside_its_base() {
    let broken = rule("/proj", "[");
    assert!(!broken.glob.is_empty());
    assert_eq!(broken.ignores("/proj/a.lua"), None);
    assert_eq!(broken.ignores("/other/a.lua"), Some(false));
}

#[test]
fn rule_gives_no_answer_for_a_path_that_is_not_portable() {
    let all = rule("/proj", "*");
    assert_eq!(all.ignores("/proj/a\\b"), None);
    assert_eq!(all.ignores("/proj/a/b"), Some(true));
}

#[test]
fn new_takes_a_glob() {
    let built = IgnoreGlob::new("/proj".to_string(), "*.spec.lua".to_string());
    assert_eq!(built, Some(rule("/proj", "*.spec.lua")));
    let built = built.unwrap();
    assert_eq!(built.base_path, "/proj");
    assert_eq!(built.glob, "*.spec.lua");
    assert_eq!(built.ignores("/proj/sub/widget.spec.lua"), Some(true));
}

#[test]
fn new_refuses_what_is_no_glob() {
    assert_eq!(IgnoreGlob::new("/proj".to_string(), "[".to_string()), None);
    assert_eq!(IgnoreGlob::new("/proj".to_string(), "{a".to_string()), None);
    assert_eq!(IgnoreGlob::new("/proj".to_string(), "a\\b".to_string()), None);
    assert_eq!(IgnoreGlob::new("/proj".to_string(), "a".repeat(MAX_GLOB_LEN + 1)), None);
}

#[test]
fn rules_compare_by_base_and_glob() {
    assert_eq!(rule("/proj", "*.lua"), rule("/proj", "*.lua"));
    assert_ne!(rule("/proj", "*.lua"), rule("/proj", "*.txt"));
    assert_ne!(rule("/proj", "*.lua"), rule("/other", "*.lua"));
}

#[test]
fn a_copied_rule_is_equal_to_the_rule_it_copies() {
    let first = rule("/proj", "*.lua");
    let copy = first.clone();
    assert_eq!(copy, first);
    assert_eq!(copy.base_path, "/proj");
    assert_eq!(copy.glob, "*.lua");
}
