use travis_migrate::paths::{
    create_cron_path, crons_path, migrate_path, owner_repos_path, protected_branches_path,
    repo_name, repo_path, required_status_checks_path, resolve_url, trim_leading_slashes,
};

#[test]
fn slug_separator_is_percent_encoded() {
    assert_eq!(repo_name("org/repo"), "org%2Frepo");
    assert_eq!(repo_name("a/b/c"), "a%2Fb%2Fc");
    assert_eq!(repo_name("plain"), "plain");
    assert_eq!(repo_name(""), "");
}

#[test]
fn every_travis_repo_path_encodes_the_slug() {
    assert_eq!(repo_path("org/repo"), "repo/org%2Frepo");
    assert_eq!(migrate_path("org/repo"), "repo/org%2Frepo/migrate");
    assert_eq!(crons_path("org/repo"), "repo/org%2Frepo/crons");
    assert_eq!(create_cron_path("org/repo", "master"), "repo/org%2Frepo/branch/master/cron");
}

#[test]
fn listing_paths() {
    assert_eq!(owner_repos_path("rust-lang"), "owner/rust-lang/repos");
    assert_eq!(protected_branches_path("org/repo"), "repos/org/repo/branches?protected=true");
    assert_eq!(
        required_status_checks_path("org/repo", "master"),
        "repos/org/repo/branches/master/protection/required_status_checks"
    );
}

#[test]
fn leading_slashes_are_trimmed() {
    assert_eq!(trim_leading_slashes("//a/b"), "a/b");
    assert_eq!(trim_leading_slashes("a/"), "a/");
    assert_eq!(trim_leading_slashes("///"), "");
}

#[test]
fn relative_targets_go_under_the_base() {
    assert_eq!(resolve_url("https://api.github.com", "/repos/x"), "https://api.github.com/repos/x");
    assert_eq!(resolve_url("https://api.github.com", "repos/x"), "https://api.github.com/repos/x");
}

#[test]
fn absolute_targets_are_kept() {
    assert_eq!(
        resolve_url("https://api.github.com", "https://api.github.com/repos/x?page=2"),
        "https://api.github.com/repos/x?page=2"
    );
    assert_eq!(
        resolve_url("https://api.travis-ci.com", "/https://example.com/p"),
        "https://example.com/p"
    );
}
