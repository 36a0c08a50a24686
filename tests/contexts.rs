use travis_migrate::contexts::{migrate_context, migrate_protection_contexts, protection_update};

fn strings(v: &[&str]) -> Vec<String> {
    v.iter().map(|s| s.to_string()).collect()
}

#[test]
fn remaps_legacy_contexts_and_keeps_others() {
    let old = strings(&[
        "continuos-integration/travis-ci",
        "continuos-integration/travis-ci/pr",
        "other-ci",
    ]);
    assert_eq!(
        migrate_protection_contexts(&old),
        strings(&["Travis CI - Branch", "Travis CI - Pull Request", "other-ci"])
    );
}

#[test]
fn push_context_becomes_branch_context() {
    assert_eq!(migrate_context("continuos-integration/travis-ci/push"), "Travis CI - Branch");
}

#[test]
fn remap_of_empty_list_is_empty() {
    assert!(migrate_protection_contexts(&Vec::new()).is_empty());
}

#[test]
fn remap_twice_equals_remap_once() {
    let old = strings(&[
        "continuos-integration/travis-ci",
        "continuos-integration/travis-ci/push",
        "continuos-integration/travis-ci/pr",
        "Travis CI - Branch",
        "ci/other",
    ]);
    let once = migrate_protection_contexts(&old);
    let twice = migrate_protection_contexts(&once);
    assert_eq!(once, twice);
}

#[test]
fn unchanged_contexts_need_no_update() {
    let ctx = strings(&["Travis CI - Branch", "other-ci"]);
    assert!(protection_update(&ctx).is_none());
    assert!(protection_update(&Vec::new()).is_none());
}

#[test]
fn changed_contexts_are_updated() {
    let ctx = strings(&["other-ci", "continuos-integration/travis-ci/pr"]);
    assert_eq!(
        protection_update(&ctx),
        Some(strings(&["other-ci", "Travis CI - Pull Request"]))
    );
}

#[test]
fn near_miss_context_is_left_alone() {
    assert_eq!(migrate_context("continuos-integration/travis-ci/"), "continuos-integration/travis-ci/");
    assert_eq!(migrate_context("continuous-integration/travis-ci"), "continuous-integration/travis-ci");
}
