use travis_migrate::migration::{
    is_migration_complete, repositories_to_migrate, Cron, CronInterval, ProtectedBranch, Repository,
};
use travis_migrate::protocol::{Action, Event, Migration, Stage};

fn repo(slug: &str) -> Repository {
    Repository { slug: slug.to_string(), migration_status: None }
}

fn cron(branch: &str, interval: CronInterval) -> Cron {
    Cron { branch: branch.to_string(), interval, dont_run_if_recent_build_exists: true }
}

fn branch(name: &str, contexts: &[&str]) -> ProtectedBranch {
    ProtectedBranch {
        name: name.to_string(),
        contexts: contexts.iter().map(|c| c.to_string()).collect(),
    }
}

#[test]
fn only_migrated_status_is_complete() {
    assert!(is_migration_complete(&Some("migrated".to_string())));
    assert!(!is_migration_complete(&Some("queued".to_string())));
    assert!(!is_migration_complete(&Some("Migrated".to_string())));
    assert!(!is_migration_complete(&None));
}

#[test]
fn interval_names() {
    assert_eq!(CronInterval::Daily.as_str(), "daily");
    assert_eq!(CronInterval::Weekly.as_str(), "weekly");
    assert_eq!(CronInterval::Monthly.as_str(), "monthly");
}

#[test]
fn excluded_repositories_are_skipped() {
    let repos = vec![repo("a"), repo("b"), repo("c")];
    let chosen = repositories_to_migrate(&repos, &vec!["b".to_string()]);
    assert_eq!(chosen, vec!["a".to_string(), "c".to_string()]);
    assert_eq!(repositories_to_migrate(&repos, &Vec::new()).len(), 3);
    assert!(repositories_to_migrate(&Vec::new(), &vec!["b".to_string()]).is_empty());
}

/// The outside world as a test double: records the calls made and answers
/// them from fixed data.
struct World {
    crons: Vec<Cron>,
    statuses: Vec<Option<String>>,
    branches: Vec<ProtectedBranch>,
    fail_trigger: bool,
    calls: Vec<String>,
}

impl World {
    fn answer(&mut self, action: Action) -> Option<Event> {
        Some(match action {
            Action::ListCrons => {
                self.calls.push("list_crons".to_string());
                Event::Crons(std::mem::take(&mut self.crons))
            }
            Action::TriggerMigration => {
                self.calls.push("trigger".to_string());
                if self.fail_trigger { Event::Failed } else { Event::Triggered }
            }
            Action::CheckStatus { pause } => {
                self.calls.push(format!("status pause={}", pause));
                Event::Status(self.statuses.remove(0))
            }
            Action::CreateCron(c) => {
                self.calls.push(format!("cron {} {}", c.branch, c.interval.as_str()));
                Event::CronCreated
            }
            Action::ListProtectedBranches => {
                self.calls.push("branches".to_string());
                Event::Branches(std::mem::take(&mut self.branches))
            }
            Action::SetRequiredStatusChecks { branch, contexts } => {
                self.calls.push(format!("checks {} {}", branch, contexts.join("|")));
                Event::ChecksUpdated
            }
            Action::Finish | Action::Abort => return None,
        })
    }
}

fn run(world: &mut World) -> Stage {
    let mut m = Migration::new();
    while let Some(e) = world.answer(m.next_action()) {
        m.advance(e);
    }
    m.stage()
}

#[test]
fn polls_until_migrated_then_replays_crons() {
    let mut w = World {
        crons: vec![cron("master", CronInterval::Daily), cron("beta", CronInterval::Weekly)],
        statuses: vec![Some("queued".to_string()), Some("queued".to_string()), Some("migrated".to_string())],
        branches: vec![],
        fail_trigger: false,
        calls: vec![],
    };
    assert_eq!(run(&mut w), Stage::Done);
    assert_eq!(
        w.calls,
        vec![
            "list_crons",
            "trigger",
            "status pause=false",
            "status pause=true",
            "status pause=true",
            "cron master daily",
            "cron beta weekly",
            "branches",
        ]
    );
}

#[test]
fn only_changed_branches_are_rewritten() {
    let mut w = World {
        crons: vec![],
        statuses: vec![Some("migrated".to_string())],
        branches: vec![
            branch("master", &["continuos-integration/travis-ci", "other"]),
            branch("stable", &["Travis CI - Branch"]),
            branch("beta", &["continuos-integration/travis-ci/pr"]),
            branch("empty", &[]),
        ],
        fail_trigger: false,
        calls: vec![],
    };
    assert_eq!(run(&mut w), Stage::Done);
    assert_eq!(
        w.calls,
        vec![
            "list_crons",
            "trigger",
            "status pause=false",
            "branches",
            "checks master Travis CI - Branch|other",
            "checks beta Travis CI - Pull Request",
        ]
    );
}

#[test]
fn already_migrated_contexts_issue_no_rewrite() {
    let mut w = World {
        crons: vec![],
        statuses: vec![Some("migrated".to_string())],
        branches: vec![branch("master", &["Travis CI - Branch", "Travis CI - Pull Request"])],
        fail_trigger: false,
        calls: vec![],
    };
    assert_eq!(run(&mut w), Stage::Done);
    assert_eq!(w.calls.iter().filter(|c| c.starts_with("checks")).count(), 0);
}

#[test]
fn failure_stops_the_repository() {
    let mut w = World {
        crons: vec![cron("master", CronInterval::Monthly)],
        statuses: vec![],
        branches: vec![],
        fail_trigger: true,
        calls: vec![],
    };
    assert_eq!(run(&mut w), Stage::Failed);
    assert_eq!(w.calls, vec!["list_crons", "trigger"]);
}

#[test]
fn unexpected_event_fails_the_migration() {
    let mut m = Migration::new();
    m.advance(Event::Triggered);
    assert_eq!(m.stage(), Stage::Failed);
    assert!(matches!(m.next_action(), Action::Abort));
}

#[test]
fn batch_failure_does_not_stop_later_repositories() {
    let repos = vec![repo("a"), repo("b"), repo("c")];
    let mut attempted = Vec::new();
    let mut outcomes = Vec::new();
    for slug in repositories_to_migrate(&repos, &vec!["b".to_string()]) {
        attempted.push(slug.clone());
        let mut w = World {
            crons: vec![],
            statuses: vec![Some("migrated".to_string())],
            branches: vec![],
            fail_trigger: slug == "a",
            calls: vec![],
        };
        outcomes.push(run(&mut w));
    }
    assert_eq!(attempted, vec!["a".to_string(), "c".to_string()]);
    assert_eq!(outcomes, vec![Stage::Failed, Stage::Done]);
}
