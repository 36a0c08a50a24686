use vstd::prelude::*;

use crate::paths::{resolve, resolve_url, travis_api, travis_api_root, Origin, GITHUB_API};

verus! {

/// The client identifier sent with every request.
pub const USER_AGENT: &'static str = "pietroalbini/travis-migrate";

/// The Travis CI API version that requests ask for.
pub const TRAVIS_API_VERSION: &'static str = "3";

pub open spec fn auth_value(token: Seq<char>) -> Seq<char> {
    "token "@ + token
}

/// The headers every request carries, as (name, value) pairs.
pub open spec fn common_headers(token: Seq<char>) -> Seq<(Seq<char>, Seq<char>)> {
    seq![("user-agent"@, USER_AGENT@), ("authorization"@, auth_value(token))]
}

pub open spec fn pairs_view(v: Seq<(String, String)>) -> Seq<(Seq<char>, Seq<char>)> {
    v.map_values(|p: (String, String)| (p.0@, p.1@))
}

fn header_pairs(token: &str) -> (r: Vec<(String, String)>)
    ensures
        pairs_view(r@) == common_headers(token@),
{
    let mut auth = String::from_str("token ");
    auth.append(token);
    let mut v: Vec<(String, String)> = Vec::new();
    v.push((String::from_str("user-agent"), String::from_str(USER_AGENT)));
    v.push((String::from_str("authorization"), auth));
    assert(pairs_view(v@) =~= common_headers(token@));
    v
}

/// Requests against the GitHub API.
pub struct GitHub {
    token: String,
}

impl GitHub {
    pub fn new(token: String) -> (r: GitHub)
        ensures
            r.token() == token@,
    {
        GitHub { token }
    }

    pub closed spec fn token(&self) -> Seq<char> {
        self.token@
    }

    /// The URL that a request for `target` goes to.
    pub fn url(&self, target: &str) -> (r: String)
        ensures
            r@ == resolve(GITHUB_API@, target@),
    {
        resolve_url(GITHUB_API, target)
    }

    /// The headers of every request: client identifier and credentials.
    pub fn headers(&self) -> (r: Vec<(String, String)>)
        ensures
            pairs_view(r@) == common_headers(self.token()),
    {
        header_pairs(self.token.as_str())
    }
}

/// Requests against the API of one of the Travis CI services.
pub struct TravisCI {
    origin: Origin,
    token: String,
}

impl TravisCI {
    pub fn new(origin: Origin, token: String) -> (r: TravisCI)
        ensures
            r.origin() == origin,
            r.token() == token@,
    {
        TravisCI { origin, token }
    }

    pub closed spec fn origin(&self) -> Origin {
        self.origin
    }

    pub closed spec fn token(&self) -> Seq<char> {
        self.token@
    }

    /// The URL that a request for `target` goes to.
    pub fn url(&self, target: &str) -> (r: String)
        ensures
            r@ == resolve(travis_api(self.origin()), target@),
    {
        resolve_url(travis_api_root(self.origin), target)
    }

    /// The headers of every request: client identifier, credentials and the
    /// API version.
    pub fn headers(&self) -> (r: Vec<(String, String)>)
        ensures
            pairs_view(r@) == common_headers(self.token()).push(
                ("travis-api-version"@, TRAVIS_API_VERSION@),
            ),
    {
        let mut v = header_pairs(self.token.as_str());
        v.push((String::from_str("travis-api-version"), String::from_str(TRAVIS_API_VERSION)));
        assert(pairs_view(v@) =~= common_headers(self.token()).push(
            ("travis-api-version"@, TRAVIS_API_VERSION@),
        ));
        v
    }
}

} // verus!
