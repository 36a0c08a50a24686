use vstd::prelude::*;

use crate::contexts::{migrate_protection_contexts, protection_update, remap_contexts};
use crate::migration::{
    is_migrated_status, is_migration_complete, status_view, Cron, ProtectedBranch,
};

verus! {

/// The steps of migrating one repository, in the order they are taken.
#[derive(Clone, Copy, Debug, PartialEq, Eq, Structural)]
pub enum Stage {
    /// The cron jobs of the repository on travis-ci.org are being read.
    ReadCrons,
    /// The migration to travis-ci.com is being started.
    Trigger,
    /// The migration status is being polled.
    Poll,
    /// The cron jobs are being recreated on travis-ci.com, one at a time.
    ReplayCrons,
    /// The protected branches on GitHub are being read.
    ReadBranches,
    /// Required status checks are being rewritten, one branch at a time.
    Reconcile,
    Done,
    Failed,
}

/// What the outside world answered to the last action.
pub enum Event {
    /// All cron jobs of the repository on the source service.
    Crons(Vec<Cron>),
    /// The migration was started.
    Triggered,
    /// The repository's migration status.
    Status(Option<String>),
    /// The cron job was created on the destination service.
    CronCreated,
    /// All protected branches of the repository.
    Branches(Vec<ProtectedBranch>),
    /// The required status checks of the branch were rewritten.
    ChecksUpdated,
    /// The action failed.
    Failed,
}

pub ghost enum EventModel {
    Crons(Seq<(Seq<char>, crate::migration::CronInterval, bool)>),
    Triggered,
    Status(Option<Seq<char>>),
    CronCreated,
    Branches(Seq<(Seq<char>, Seq<Seq<char>>)>),
    ChecksUpdated,
    Failed,
}

impl View for Event {
    type V = EventModel;

    open spec fn view(&self) -> EventModel {
        match self {
            Event::Crons(cs) => EventModel::Crons(cs@.map_values(|c: Cron| c@)),
            Event::Triggered => EventModel::Triggered,
            Event::Status(s) => EventModel::Status(status_view(*s)),
            Event::CronCreated => EventModel::CronCreated,
            Event::Branches(bs) => EventModel::Branches(bs@.map_values(|b: ProtectedBranch| b@)),
            Event::ChecksUpdated => EventModel::ChecksUpdated,
            Event::Failed => EventModel::Failed,
        }
    }
}

/// The next thing to do for the repository.
pub enum Action {
    /// List the repository's cron jobs on travis-ci.org.
    ListCrons,
    /// Start the migration on travis-ci.com.
    TriggerMigration,
    /// Read the migration status; `pause` asks to wait before doing so,
    /// because the last status read said the migration is not done.
    CheckStatus { pause: bool },
    /// Create this cron job on travis-ci.com.
    CreateCron(Cron),
    /// List the repository's protected branches on GitHub.
    ListProtectedBranches,
    /// Replace the required status check contexts of a branch.
    SetRequiredStatusChecks { branch: String, contexts: Vec<String> },
    /// The repository is migrated.
    Finish,
    /// The migration of the repository failed.
    Abort,
}

pub ghost enum ActionModel {
    ListCrons,
    TriggerMigration,
    CheckStatus(bool),
    CreateCron((Seq<char>, crate::migration::CronInterval, bool)),
    ListProtectedBranches,
    SetRequiredStatusChecks(Seq<char>, Seq<Seq<char>>),
    Finish,
    Abort,
}

impl View for Action {
    type V = ActionModel;

    open spec fn view(&self) -> ActionModel {
        match self {
            Action::ListCrons => ActionModel::ListCrons,
            Action::TriggerMigration => ActionModel::TriggerMigration,
            Action::CheckStatus { pause } => ActionModel::CheckStatus(*pause),
            Action::CreateCron(c) => ActionModel::CreateCron(c@),
            Action::ListProtectedBranches => ActionModel::ListProtectedBranches,
            Action::SetRequiredStatusChecks { branch, contexts } => ActionModel::SetRequiredStatusChecks(
                branch@,
                contexts.deep_view(),
            ),
            Action::Finish => ActionModel::Finish,
            Action::Abort => ActionModel::Abort,
        }
    }
}

/// The migration of one repository, driven by the events its actions give.
pub struct Migration {
    stage: Stage,
    polled: bool,
    crons: Vec<Cron>,
    replayed: usize,
    branches: Vec<ProtectedBranch>,
    reconciled: usize,
}

pub ghost struct MigrationModel {
    pub stage: Stage,
    /// A status read has said that the migration is not done yet.
    pub polled: bool,
    pub crons: Seq<(Seq<char>, crate::migration::CronInterval, bool)>,
    /// Index of the cron job being recreated.
    pub replayed: nat,
    pub branches: Seq<(Seq<char>, Seq<Seq<char>>)>,
    /// Index of the branch being rewritten.
    pub reconciled: nat,
}

impl View for Migration {
    type V = MigrationModel;

    closed spec fn view(&self) -> MigrationModel {
        MigrationModel {
            stage: self.stage,
            polled: self.polled,
            crons: self.crons@.map_values(|c: Cron| c@),
            replayed: self.replayed as nat,
            branches: self.branches@.map_values(|b: ProtectedBranch| b@),
            reconciled: self.reconciled as nat,
        }
    }
}

/// The stage's own indices point into the lists they walk.
pub open spec fn model_wf(m: MigrationModel) -> bool {
    &&& m.stage == Stage::ReplayCrons ==> m.replayed < m.crons.len()
    &&& m.stage == Stage::Reconcile ==> m.reconciled < m.branches.len()
}

/// Whether the branch's required contexts change under the remap.
pub open spec fn needs_rewrite(b: (Seq<char>, Seq<Seq<char>>)) -> bool {
    remap_contexts(b.1) != b.1
}

/// The first branch at or after `from` whose contexts need a rewrite, or the
/// number of branches if there is none.
pub open spec fn next_rewrite(bs: Seq<(Seq<char>, Seq<Seq<char>>)>, from: int) -> int
    decreases bs.len() - from,
{
    if from < 0 || from >= bs.len() {
        bs.len() as int
    } else if needs_rewrite(bs[from]) {
        from
    } else {
        next_rewrite(bs, from + 1)
    }
}

/// The state in which cron job `k` is recreated next, or branches are read
/// once all cron jobs are back.
pub open spec fn replay_from(m: MigrationModel, k: nat) -> MigrationModel {
    if k < m.crons.len() {
        MigrationModel { stage: Stage::ReplayCrons, replayed: k, ..m }
    } else {
        MigrationModel { stage: Stage::ReadBranches, ..m }
    }
}

/// The state in which the first branch at or after `k` that needs a rewrite
/// is rewritten next, or the migration is done when none is left.
pub open spec fn reconcile_from(m: MigrationModel, k: nat) -> MigrationModel {
    let j = next_rewrite(m.branches, k as int);
    if 0 <= j < m.branches.len() {
        MigrationModel { stage: Stage::Reconcile, reconciled: j as nat, ..m }
    } else {
        MigrationModel { stage: Stage::Done, ..m }
    }
}

pub open spec fn failed(m: MigrationModel) -> MigrationModel {
    MigrationModel { stage: Stage::Failed, ..m }
}

/// How the migration moves on an event.
pub open spec fn advance_spec(m: MigrationModel, e: EventModel) -> MigrationModel {
    match (m.stage, e) {
        (Stage::Done, _) => m,
        (Stage::Failed, _) => m,
        (Stage::ReadCrons, EventModel::Crons(cs)) => MigrationModel {
            stage: Stage::Trigger,
            crons: cs,
            ..m
        },
        (Stage::Trigger, EventModel::Triggered) => MigrationModel { stage: Stage::Poll, ..m },
        (Stage::Poll, EventModel::Status(s)) => if is_migrated_status(s) {
            replay_from(m, 0)
        } else {
            MigrationModel { polled: true, ..m }
        },
        (Stage::ReplayCrons, EventModel::CronCreated) => replay_from(m, m.replayed + 1),
        (Stage::ReadBranches, EventModel::Branches(bs)) => reconcile_from(
            MigrationModel { branches: bs, ..m },
            0,
        ),
        (Stage::Reconcile, EventModel::ChecksUpdated) => reconcile_from(m, m.reconciled + 1),
        _ => failed(m),
    }
}

/// The action that a state asks for.
pub open spec fn action_spec(m: MigrationModel) -> ActionModel {
    match m.stage {
        Stage::ReadCrons => ActionModel::ListCrons,
        Stage::Trigger => ActionModel::TriggerMigration,
        Stage::Poll => ActionModel::CheckStatus(m.polled),
        Stage::ReplayCrons => ActionModel::CreateCron(m.crons[m.replayed as int]),
        Stage::ReadBranches => ActionModel::ListProtectedBranches,
        Stage::Reconcile => ActionModel::SetRequiredStatusChecks(
            m.branches[m.reconciled as int].0,
            remap_contexts(m.branches[m.reconciled as int].1),
        ),
        Stage::Done => ActionModel::Finish,
        Stage::Failed => ActionModel::Abort,
    }
}

impl Migration {
    /// A migration that has done nothing yet: its first action lists the
    /// cron jobs.
    pub fn new() -> (r: Migration)
        ensures
            r@ == (MigrationModel {
                stage: Stage::ReadCrons,
                polled: false,
                crons: Seq::empty(),
                replayed: 0,
                branches: Seq::empty(),
                reconciled: 0,
            }),
            model_wf(r@),
    {
        let m = Migration {
            stage: Stage::ReadCrons,
            polled: false,
            crons: Vec::new(),
            replayed: 0,
            branches: Vec::new(),
            reconciled: 0,
        };
        assert(m@.crons =~= Seq::empty());
        assert(m@.branches =~= Seq::empty());
        m
    }

    pub fn stage(&self) -> (r: Stage)
        ensures
            r == self@.stage,
    {
        self.stage
    }

    /// The action that is due.
    pub fn next_action(&self) -> (r: Action)
        requires
            model_wf(self@),
        ensures
            r@ == action_spec(self@),
    {
        match self.stage {
            Stage::ReadCrons => Action::ListCrons,
            Stage::Trigger => Action::TriggerMigration,
            Stage::Poll => Action::CheckStatus { pause: self.polled },
            Stage::ReplayCrons => Action::CreateCron(self.crons[self.replayed].duplicate()),
            Stage::ReadBranches => Action::ListProtectedBranches,
            Stage::Reconcile => {
                let b = &self.branches[self.reconciled];
                Action::SetRequiredStatusChecks {
                    branch: b.name.clone(),
                    contexts: migrate_protection_contexts(&b.contexts),
                }
            },
            Stage::Done => Action::Finish,
            Stage::Failed => Action::Abort,
        }
    }

    fn replay(&mut self, k: usize)
        requires
            k <= old(self)@.crons.len(),
        ensures
            final(self)@ == replay_from(old(self)@, k as nat),
    {
        if k < self.crons.len() {
            self.stage = Stage::ReplayCrons;
            self.replayed = k;
        } else {
            self.stage = Stage::ReadBranches;
        }
    }

    fn reconcile(&mut self, k: usize)
        requires
            k <= old(self)@.branches.len(),
        ensures
            final(self)@ == reconcile_from(old(self)@, k as nat),
    {
        let ghost bs = self@.branches;
        let mut j: usize = k;
        while j < self.branches.len()
            invariant
                k <= j <= bs.len(),
                bs == self@.branches,
                self@ == old(self)@,
                next_rewrite(bs, k as int) == next_rewrite(bs, j as int),
            decreases bs.len() - j,
        {
            assert(bs[j as int] == self.branches@[j as int]@);
            if protection_update(&self.branches[j].contexts).is_some() {
                self.stage = Stage::Reconcile;
                self.reconciled = j;
                return;
            }
            j = j + 1;
        }
        self.stage = Stage::Done;
    }

    /// Moves the migration on with what the due action gave.
    pub fn advance(&mut self, event: Event)
        requires
            model_wf(old(self)@),
        ensures
            final(self)@ == advance_spec(old(self)@, event@),
            model_wf(final(self)@),
    {
        assert(self@.crons.len() == self.crons@.len());
        assert(self@.branches.len() == self.branches@.len());
        let stage = self.stage;
        match event {
            Event::Crons(cs) if stage == Stage::ReadCrons => {
                self.crons = cs;
                self.stage = Stage::Trigger;
            },
            Event::Triggered if stage == Stage::Trigger => {
                self.stage = Stage::Poll;
            },
            Event::Status(s) if stage == Stage::Poll => {
                if is_migration_complete(&s) {
                    self.replay(0);
                } else {
                    self.polled = true;
                }
            },
            Event::CronCreated if stage == Stage::ReplayCrons => {
                let _n = self.crons.len();
                let k = self.replayed + 1;
                self.replay(k);
            },
            Event::Branches(bs) if stage == Stage::ReadBranches => {
                self.branches = bs;
                self.reconcile(0);
            },
            Event::ChecksUpdated if stage == Stage::Reconcile => {
                let _n = self.branches.len();
                let k = self.reconciled + 1;
                self.reconcile(k);
            },
            _ => {
                if stage != Stage::Done {
                    self.stage = Stage::Failed;
                }
            },
        }
    }
}

/// The state of a migration after the events `es`, in order.
pub open spec fn run_events(m: MigrationModel, es: Seq<EventModel>) -> MigrationModel
    decreases es.len(),
{
    if es.len() == 0 {
        m
    } else {
        advance_spec(run_events(m, es.drop_last()), es.last())
    }
}

/// The events that a sequence of status reads gives.
pub open spec fn status_events(ss: Seq<Option<Seq<char>>>) -> Seq<EventModel> {
    ss.map_values(|s: Option<Seq<char>>| EventModel::Status(s))
}

proof fn lemma_polling_prefix(m: MigrationModel, ss: Seq<Option<Seq<char>>>, k: int)
    requires
        m.stage == Stage::Poll,
        0 <= k <= ss.len(),
        forall|i: int| 0 <= i < k ==> !is_migrated_status(#[trigger] ss[i]),
    ensures
        run_events(m, status_events(ss).take(k)) == (if k == 0 {
            m
        } else {
            MigrationModel { polled: true, ..m }
        }),
    decreases k,
{
    if k > 0 {
        lemma_polling_prefix(m, ss, k - 1);
        assert(status_events(ss).take(k).drop_last() =~= status_events(ss).take(k - 1));
    } else {
        assert(status_events(ss).take(0) =~= Seq::<EventModel>::empty());
    }
}

/// Polling goes on exactly as long as the status reads say that the
/// migration is not done: after each such read the next action is another
/// status read, after a pause, and the first read that says `migrated` moves
/// on to recreating the cron jobs (or to reading the branches, when there
/// are none), so a source that answers `n` times gets `n` status reads.
pub proof fn lemma_poll_until_migrated(m: MigrationModel, ss: Seq<Option<Seq<char>>>)
    requires
        m.stage == Stage::Poll,
        ss.len() >= 1,
        forall|i: int| 0 <= i < ss.len() - 1 ==> !is_migrated_status(#[trigger] ss[i]),
        is_migrated_status(ss.last()),
    ensures
        forall|k: int|
            0 <= k < ss.len() ==> action_spec(run_events(m, #[trigger] status_events(ss).take(k)))
                == ActionModel::CheckStatus(m.polled || k > 0),
        action_spec(run_events(m, status_events(ss))) == (if m.crons.len() > 0 {
            ActionModel::CreateCron(m.crons[0])
        } else {
            ActionModel::ListProtectedBranches
        }),
{
    let n = ss.len() as int;
    assert forall|k: int| 0 <= k < ss.len() implies action_spec(
        run_events(m, #[trigger] status_events(ss).take(k)),
    ) == ActionModel::CheckStatus(m.polled || k > 0) by {
        lemma_polling_prefix(m, ss, k);
    }
    lemma_polling_prefix(m, ss, n - 1);
    assert(status_events(ss).drop_last() =~= status_events(ss).take(n - 1));
}

} // verus!
