use vstd::prelude::*;

use crate::text::same_text;

verus! {

/// Context reported by the legacy Travis CI integration for branch builds.
pub const LEGACY_BRANCH: &'static str = "continuos-integration/travis-ci";

/// Context reported by the legacy Travis CI integration for push builds.
pub const LEGACY_PUSH: &'static str = "continuos-integration/travis-ci/push";

/// Context reported by the legacy Travis CI integration for pull requests.
pub const LEGACY_PULL_REQUEST: &'static str = "continuos-integration/travis-ci/pr";

/// Context reported by the GitHub App integration for branch builds.
pub const APP_BRANCH: &'static str = "Travis CI - Branch";

/// Context reported by the GitHub App integration for pull requests.
pub const APP_PULL_REQUEST: &'static str = "Travis CI - Pull Request";

/// The context that replaces `c` once the repository is on travis-ci.com.
pub open spec fn remap_context(c: Seq<char>) -> Seq<char> {
    if c == LEGACY_BRANCH@ || c == LEGACY_PUSH@ {
        APP_BRANCH@
    } else if c == LEGACY_PULL_REQUEST@ {
        APP_PULL_REQUEST@
    } else {
        c
    }
}

/// Every context of `cs` remapped, in the same order.
pub open spec fn remap_contexts(cs: Seq<Seq<char>>) -> Seq<Seq<char>> {
    cs.map_values(|c: Seq<char>| remap_context(c))
}

/// The replacement for a single required status check context.
pub fn migrate_context(ctx: &str) -> (r: String)
    ensures
        r@ == remap_context(ctx@),
{
    if same_text(ctx, LEGACY_BRANCH) || same_text(ctx, LEGACY_PUSH) {
        String::from_str(APP_BRANCH)
    } else if same_text(ctx, LEGACY_PULL_REQUEST) {
        String::from_str(APP_PULL_REQUEST)
    } else {
        String::from_str(ctx)
    }
}

/// Maps the required status check contexts of a protected branch to the ones
/// reported after the migration, keeping their order.
pub fn migrate_protection_contexts(contexts: &Vec<String>) -> (r: Vec<String>)
    ensures
        r.deep_view() == remap_contexts(contexts.deep_view()),
{
    let mut out: Vec<String> = Vec::new();
    let mut i: usize = 0;
    while i < contexts.len()
        invariant
            i <= contexts@.len(),
            out@.len() == i,
            forall|j: int| 0 <= j < i ==> #[trigger] out@[j]@ == remap_context(contexts@[j]@),
        decreases contexts@.len() - i,
    {
        let c = migrate_context(contexts[i].as_str());
        out.push(c);
        i = i + 1;
    }
    assert(out.deep_view() =~= remap_contexts(contexts.deep_view()));
    out
}

/// Whether two context lists are equal element by element, in order.
pub fn same_contexts(a: &Vec<String>, b: &Vec<String>) -> (r: bool)
    ensures
        r == (a.deep_view() == b.deep_view()),
{
    if a.len() != b.len() {
        assert(a.deep_view().len() != b.deep_view().len());
        return false;
    }
    let mut i: usize = 0;
    while i < a.len()
        invariant
            a@.len() == b@.len(),
            i <= a@.len(),
            forall|j: int| 0 <= j < i ==> a.deep_view()[j] == b.deep_view()[j],
        decreases a@.len() - i,
    {
        if !same_text(a[i].as_str(), b[i].as_str()) {
            assert(a.deep_view()[i as int] != b.deep_view()[i as int]);
            return false;
        }
        i = i + 1;
    }
    assert(a.deep_view() =~= b.deep_view());
    true
}

/// The contexts to write back for a branch whose required contexts are
/// `contexts`: `None` when the remap changes nothing, so that no write is made.
pub fn protection_update(contexts: &Vec<String>) -> (r: Option<Vec<String>>)
    ensures
        r is None <==> remap_contexts(contexts.deep_view()) == contexts.deep_view(),
        r matches Some(v) ==> v.deep_view() == remap_contexts(contexts.deep_view()),
{
    let updated = migrate_protection_contexts(contexts);
    if same_contexts(contexts, &updated) {
        None
    } else {
        Some(updated)
    }
}

/// Remapping is idempotent: a context that was already remapped no longer
/// matches any legacy context, so a second pass leaves it unchanged.
pub proof fn lemma_remap_idempotent(cs: Seq<Seq<char>>)
    ensures
        remap_contexts(remap_contexts(cs)) == remap_contexts(cs),
{
    reveal_strlit("continuos-integration/travis-ci");
    reveal_strlit("continuos-integration/travis-ci/push");
    reveal_strlit("continuos-integration/travis-ci/pr");
    reveal_strlit("Travis CI - Branch");
    reveal_strlit("Travis CI - Pull Request");
    assert forall|c: Seq<char>| remap_context(remap_context(c)) == remap_context(c) by {
        if remap_context(c) != c {
            assert(APP_BRANCH@[0] != LEGACY_BRANCH@[0]);
            assert(APP_PULL_REQUEST@.len() != LEGACY_BRANCH@.len());
            assert(APP_PULL_REQUEST@.len() != LEGACY_PUSH@.len());
            assert(APP_PULL_REQUEST@.len() != LEGACY_PULL_REQUEST@.len());
        }
    }
    assert(remap_contexts(remap_contexts(cs)) =~= remap_contexts(cs));
}

} // verus!
