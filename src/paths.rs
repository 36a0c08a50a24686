use vstd::prelude::*;

use crate::text::starts_with_text;

verus! {

/// Root of the GitHub REST API.
pub const GITHUB_API: &'static str = "https://api.github.com";

/// Root of the travis-ci.org API.
pub const TRAVIS_ORG_API: &'static str = "https://api.travis-ci.org";

/// Root of the travis-ci.com API.
pub const TRAVIS_COM_API: &'static str = "https://api.travis-ci.com";

/// The scheme that marks a request target as an absolute URL.
pub const SCHEME: &'static str = "https://";

/// Which of the two Travis CI services a client talks to.
#[derive(Clone, Copy, Debug, PartialEq, Eq, Structural)]
pub enum Origin {
    Org,
    Com,
}

/// The text that stands for `c` inside a single path segment.
pub open spec fn encode_char(c: char) -> Seq<char> {
    if c == '/' {
        "%2F"@
    } else {
        seq![c]
    }
}

/// A repository slug with every `/` percent-encoded, so that it stays one
/// path segment.
pub open spec fn encode_slug(s: Seq<char>) -> Seq<char>
    decreases s.len(),
{
    if s.len() == 0 {
        Seq::empty()
    } else {
        encode_slug(s.drop_last()) + encode_char(s.last())
    }
}

/// `s` without its leading `/` characters.
pub open spec fn strip_leading_slashes(s: Seq<char>) -> Seq<char>
    decreases s.len(),
{
    if s.len() > 0 && s[0] == '/' {
        strip_leading_slashes(s.subrange(1, s.len() as int))
    } else {
        s
    }
}

/// Whether `s` is an absolute URL.
pub open spec fn is_absolute(s: Seq<char>) -> bool {
    SCHEME@.len() <= s.len() && s.subrange(0, SCHEME@.len() as int) == SCHEME@
}

/// The URL a request for `target` goes to on the API rooted at `base`: an
/// absolute target is taken as it stands, anything else is a path under `base`.
pub open spec fn resolve(base: Seq<char>, target: Seq<char>) -> Seq<char> {
    let t = strip_leading_slashes(target);
    if is_absolute(t) {
        t
    } else {
        base + "/"@ + t
    }
}

pub open spec fn travis_api(origin: Origin) -> Seq<char> {
    match origin {
        Origin::Org => TRAVIS_ORG_API@,
        Origin::Com => TRAVIS_COM_API@,
    }
}

/// The root of the API of a Travis CI service.
pub fn travis_api_root(origin: Origin) -> (r: &'static str)
    ensures
        r@ == travis_api(origin),
{
    match origin {
        Origin::Org => TRAVIS_ORG_API,
        Origin::Com => TRAVIS_COM_API,
    }
}

/// Percent-encodes the `/` of a repository slug (`org/repo` becomes
/// `org%2Frepo`).
pub fn repo_name(name: &str) -> (r: String)
    ensures
        r@ == encode_slug(name@),
{
    let n = name.unicode_len();
    let mut out = String::new();
    let mut i: usize = 0;
    while i < n
        invariant
            n == name@.len(),
            i <= n,
            out@ == encode_slug(name@.subrange(0, i as int)),
        decreases n - i,
    {
        let c = name.get_char(i);
        if c == '/' {
            out.append("%2F");
        } else {
            out.append(name.substring_char(i, i + 1));
        }
        proof {
            let p = name@.subrange(0, i + 1);
            assert(p.drop_last() =~= name@.subrange(0, i as int));
            assert(name@.subrange(i as int, i + 1) =~= seq![c]);
        }
        i = i + 1;
    }
    assert(name@.subrange(0, n as int) =~= name@);
    out
}

/// Removes the leading `/` characters of `s`.
pub fn trim_leading_slashes(s: &str) -> (r: &str)
    ensures
        r@ == strip_leading_slashes(s@),
{
    let n = s.unicode_len();
    let mut k: usize = 0;
    assert(s@.subrange(0, n as int) =~= s@);
    while k < n && s.get_char(k) == '/'
        invariant
            n == s@.len(),
            k <= n,
            strip_leading_slashes(s@.subrange(k as int, n as int)) == strip_leading_slashes(s@),
        decreases n - k,
    {
        assert(s@.subrange(k as int, n as int).subrange(1, n - k) =~= s@.subrange(k + 1, n as int));
        k = k + 1;
    }
    s.substring_char(k, n)
}

/// The URL that a request for `target` goes to on the API rooted at `base`.
pub fn resolve_url(base: &str, target: &str) -> (r: String)
    ensures
        r@ == resolve(base@, target@),
{
    let t = trim_leading_slashes(target);
    if starts_with_text(t, SCHEME) {
        String::from_str(t)
    } else {
        let mut url = String::from_str(base);
        url.append("/");
        url.append(t);
        url
    }
}

/// Path of a repository on Travis CI: `repo/` and the encoded slug.
pub open spec fn travis_repo_path(slug: Seq<char>) -> Seq<char> {
    "repo/"@ + encode_slug(slug)
}

/// Path of a Travis CI repository.
pub fn repo_path(slug: &str) -> (r: String)
    ensures
        r@ == travis_repo_path(slug@),
{
    let mut p = String::from_str("repo/");
    let enc = repo_name(slug);
    p.append(enc.as_str());
    p
}

/// Path that starts the migration of a repository to travis-ci.com.
pub fn migrate_path(slug: &str) -> (r: String)
    ensures
        r@ == travis_repo_path(slug@) + "/migrate"@,
{
    let mut p = repo_path(slug);
    p.append("/migrate");
    p
}

/// Path that lists the cron jobs of a repository.
pub fn crons_path(slug: &str) -> (r: String)
    ensures
        r@ == travis_repo_path(slug@) + "/crons"@,
{
    let mut p = repo_path(slug);
    p.append("/crons");
    p
}

/// Path that creates a cron job for a branch of a repository.
pub fn create_cron_path(slug: &str, branch: &str) -> (r: String)
    ensures
        r@ == travis_repo_path(slug@) + "/branch/"@ + branch@ + "/cron"@,
{
    let mut p = repo_path(slug);
    p.append("/branch/");
    p.append(branch);
    p.append("/cron");
    p
}

/// Path that lists the repositories of an account on Travis CI.
pub fn owner_repos_path(login: &str) -> (r: String)
    ensures
        r@ == "owner/"@ + login@ + "/repos"@,
{
    let mut p = String::from_str("owner/");
    p.append(login);
    p.append("/repos");
    p
}

/// Path that lists the protected branches of a GitHub repository.
pub fn protected_branches_path(repo: &str) -> (r: String)
    ensures
        r@ == "repos/"@ + repo@ + "/branches?protected=true"@,
{
    let mut p = String::from_str("repos/");
    p.append(repo);
    p.append("/branches?protected=true");
    p
}

/// Path of the required status checks of a protected GitHub branch.
pub fn required_status_checks_path(repo: &str, branch: &str) -> (r: String)
    ensures
        r@ == "repos/"@ + repo@ + "/branches/"@ + branch@ + "/protection/required_status_checks"@,
{
    let mut p = String::from_str("repos/");
    p.append(repo);
    p.append("/branches/");
    p.append(branch);
    p.append("/protection/required_status_checks");
    p
}

} // verus!
