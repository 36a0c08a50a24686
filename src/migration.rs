use vstd::prelude::*;

use crate::contexts::remap_contexts;
use crate::text::same_text;

verus! {

/// How often a cron job runs.
#[derive(Clone, Copy, Debug, PartialEq, Eq, Structural)]
pub enum CronInterval {
    Daily,
    Weekly,
    Monthly,
}

impl CronInterval {
    /// The name of the interval on the wire.
    pub fn as_str(&self) -> (r: &'static str)
        ensures
            r@ == interval_name(*self),
    {
        match self {
            CronInterval::Daily => "daily",
            CronInterval::Weekly => "weekly",
            CronInterval::Monthly => "monthly",
        }
    }
}

pub open spec fn interval_name(i: CronInterval) -> Seq<char> {
    match i {
        CronInterval::Daily => "daily"@,
        CronInterval::Weekly => "weekly"@,
        CronInterval::Monthly => "monthly"@,
    }
}

/// A scheduled build of a branch.
pub struct Cron {
    pub branch: String,
    pub interval: CronInterval,
    pub dont_run_if_recent_build_exists: bool,
}

impl View for Cron {
    type V = (Seq<char>, CronInterval, bool);

    open spec fn view(&self) -> (Seq<char>, CronInterval, bool) {
        (self.branch@, self.interval, self.dont_run_if_recent_build_exists)
    }
}

impl Cron {
    pub fn duplicate(&self) -> (r: Cron)
        ensures
            r@ == self@,
    {
        Cron {
            branch: self.branch.clone(),
            interval: self.interval,
            dont_run_if_recent_build_exists: self.dont_run_if_recent_build_exists,
        }
    }
}

/// A repository as the destination service lists it.
pub struct Repository {
    pub slug: String,
    pub migration_status: Option<String>,
}

/// A protected branch and the status check contexts it requires.
pub struct ProtectedBranch {
    pub name: String,
    pub contexts: Vec<String>,
}

impl View for ProtectedBranch {
    type V = (Seq<char>, Seq<Seq<char>>);

    open spec fn view(&self) -> (Seq<char>, Seq<Seq<char>>) {
        (self.name@, self.contexts.deep_view())
    }
}

/// The migration status that marks a finished migration.
pub const MIGRATED: &'static str = "migrated";

pub open spec fn is_migrated_status(status: Option<Seq<char>>) -> bool {
    status == Some(MIGRATED@)
}

pub open spec fn status_view(status: Option<String>) -> Option<Seq<char>> {
    match status {
        Some(s) => Some(s@),
        None => None,
    }
}

/// Whether a repository's migration status says that its migration is done;
/// a missing status means it is not.
pub fn is_migration_complete(status: &Option<String>) -> (r: bool)
    ensures
        r == is_migrated_status(status_view(*status)),
{
    match status {
        Some(s) => same_text(s.as_str(), MIGRATED),
        None => false,
    }
}

/// The slugs of `repos`, in order, without those listed in `exclude`.
pub open spec fn selected(repos: Seq<Seq<char>>, exclude: Seq<Seq<char>>) -> Seq<Seq<char>>
    decreases repos.len(),
{
    if repos.len() == 0 {
        Seq::empty()
    } else if exclude.contains(repos.last()) {
        selected(repos.drop_last(), exclude)
    } else {
        selected(repos.drop_last(), exclude).push(repos.last())
    }
}

pub open spec fn slugs(repos: Seq<Repository>) -> Seq<Seq<char>> {
    repos.map_values(|r: Repository| r.slug@)
}

fn is_listed(slug: &String, list: &Vec<String>) -> (r: bool)
    ensures
        r == list.deep_view().contains(slug@),
{
    let mut i: usize = 0;
    while i < list.len()
        invariant
            i <= list@.len(),
            forall|j: int| 0 <= j < i ==> list@[j]@ != slug@,
        decreases list@.len() - i,
    {
        if same_text(list[i].as_str(), slug.as_str()) {
            assert(list.deep_view()[i as int] == slug@);
            return true;
        }
        i = i + 1;
    }
    assert forall|j: int| 0 <= j < list.deep_view().len() implies list.deep_view()[j] != slug@ by {
        assert(list.deep_view()[j] == list@[j]@);
    }
    false
}

/// The repositories of an account that a batch migration runs on: every
/// listed one whose slug is not excluded, in the order of the listing.
pub fn repositories_to_migrate(repos: &Vec<Repository>, exclude: &Vec<String>) -> (r: Vec<String>)
    ensures
        r.deep_view() == selected(slugs(repos@), exclude.deep_view()),
{
    let mut out: Vec<String> = Vec::new();
    let mut i: usize = 0;
    while i < repos.len()
        invariant
            i <= repos@.len(),
            out.deep_view() == selected(slugs(repos@).take(i as int), exclude.deep_view()),
        decreases repos@.len() - i,
    {
        let ghost before = out.deep_view();
        let ghost pre = slugs(repos@).take(i + 1);
        assert(pre.drop_last() =~= slugs(repos@).take(i as int));
        assert(pre.last() == repos@[i as int].slug@);
        if !is_listed(&repos[i].slug, exclude) {
            out.push(repos[i].slug.clone());
            assert(out.deep_view() =~= before.push(repos@[i as int].slug@));
        }
        i = i + 1;
    }
    assert(slugs(repos@).take(i as int) =~= slugs(repos@));
    out
}

} // verus!
