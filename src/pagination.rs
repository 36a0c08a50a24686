use vstd::prelude::*;

verus! {

/// What became of one page request.
pub enum PageEvent {
    /// The page arrived with a success status and a readable body; `next` is
    /// the target of the following page, if the page names one.
    Page { next: Option<String> },
    /// The request failed: transport error, failure status, or a body or
    /// pagination header that could not be read.
    Failed,
}

impl View for PageEvent {
    /// `None` for a failure, `Some(next)` for a page.
    type V = Option<Option<Seq<char>>>;

    open spec fn view(&self) -> Option<Option<Seq<char>>> {
        match self {
            PageEvent::Page { next } => Some(
                match next {
                    Some(u) => Some(u@),
                    None => None,
                },
            ),
            PageEvent::Failed => None,
        }
    }
}

/// Where a paginated walk stands.
#[derive(Clone, Copy, Debug, PartialEq, Eq, Structural)]
pub enum WalkPhase {
    /// A request for `target` is due.
    Running,
    /// The last page named no next page.
    Finished,
    /// A page failed; nothing more is requested.
    Aborted,
}

/// A walk through a paginated listing: which page to request next, and
/// whether a page just received is handed to the caller's accumulator.
pub struct Walk {
    phase: WalkPhase,
    target: String,
}

pub ghost struct WalkModel {
    pub phase: WalkPhase,
    pub target: Seq<char>,
}

impl View for Walk {
    type V = WalkModel;

    closed spec fn view(&self) -> WalkModel {
        WalkModel { phase: self.phase, target: self.target@ }
    }
}

/// One transition of a walk: the new state, and whether the page is delivered.
pub open spec fn walk_step(w: WalkModel, e: Option<Option<Seq<char>>>) -> (WalkModel, bool) {
    if w.phase != WalkPhase::Running {
        (w, false)
    } else {
        match e {
            None => (WalkModel { phase: WalkPhase::Aborted, target: w.target }, false),
            Some(None) => (WalkModel { phase: WalkPhase::Finished, target: w.target }, true),
            Some(Some(u)) => (WalkModel { phase: WalkPhase::Running, target: u }, true),
        }
    }
}

/// The state of a walk after the events `es`, in order.
pub open spec fn walk_run(w: WalkModel, es: Seq<Option<Option<Seq<char>>>>) -> WalkModel
    decreases es.len(),
{
    if es.len() == 0 {
        w
    } else {
        walk_step(walk_run(w, es.drop_last()), es.last()).0
    }
}

/// How many of the pages `es` a walk hands to the accumulator.
pub open spec fn walk_delivered(w: WalkModel, es: Seq<Option<Option<Seq<char>>>>) -> nat
    decreases es.len(),
{
    if es.len() == 0 {
        0
    } else {
        walk_delivered(w, es.drop_last()) + if walk_step(walk_run(w, es.drop_last()), es.last()).1 {
            1nat
        } else {
            0nat
        }
    }
}

impl Walk {
    /// A walk whose first request goes to `target`.
    pub fn start(target: String) -> (w: Walk)
        ensures
            w@ == (WalkModel { phase: WalkPhase::Running, target: target@ }),
    {
        Walk { phase: WalkPhase::Running, target }
    }

    pub fn phase(&self) -> (r: WalkPhase)
        ensures
            r == self@.phase,
    {
        self.phase
    }

    /// The target of the request that is due, if the walk goes on.
    pub fn next_request(&self) -> (r: Option<String>)
        ensures
            r is Some <==> self@.phase == WalkPhase::Running,
            r matches Some(t) ==> t@ == self@.target,
    {
        match self.phase {
            WalkPhase::Running => Some(self.target.clone()),
            _ => None,
        }
    }

    /// Records what the due request gave. Returns whether the page goes to
    /// the accumulator.
    pub fn on_page(&mut self, event: PageEvent) -> (deliver: bool)
        ensures
            (final(self)@, deliver) == walk_step(old(self)@, event@),
    {
        if self.phase != WalkPhase::Running {
            return false;
        }
        match event {
            PageEvent::Failed => {
                self.phase = WalkPhase::Aborted;
                false
            },
            PageEvent::Page { next: None } => {
                self.phase = WalkPhase::Finished;
                true
            },
            PageEvent::Page { next: Some(u) } => {
                self.target = u;
                true
            },
        }
    }
}

proof fn lemma_run_extend(w: WalkModel, es: Seq<Option<Option<Seq<char>>>>, i: int)
    requires
        0 <= i < es.len(),
    ensures
        walk_run(w, es.take(i + 1)) == walk_step(walk_run(w, es.take(i)), es[i]).0,
        walk_delivered(w, es.take(i + 1)) == walk_delivered(w, es.take(i)) + if walk_step(
            walk_run(w, es.take(i)),
            es[i],
        ).1 {
            1nat
        } else {
            0nat
        },
{
    assert(es.take(i + 1).drop_last() =~= es.take(i));
}

proof fn lemma_chain_prefix(urls: Seq<Seq<char>>, es: Seq<Option<Option<Seq<char>>>>, k: int)
    requires
        urls.len() >= 1,
        es.len() == urls.len(),
        forall|i: int| 0 <= i < es.len() - 1 ==> es[i] == Some(Some(urls[i + 1])),
        0 <= k < es.len(),
    ensures
        walk_run(WalkModel { phase: WalkPhase::Running, target: urls[0] }, es.take(k))
            == (WalkModel { phase: WalkPhase::Running, target: urls[k] }),
        walk_delivered(WalkModel { phase: WalkPhase::Running, target: urls[0] }, es.take(k)) == k,
    decreases k,
{
    let w0 = WalkModel { phase: WalkPhase::Running, target: urls[0] };
    if k == 0 {
        assert(es.take(0) =~= Seq::<Option<Option<Seq<char>>>>::empty());
    } else {
        lemma_chain_prefix(urls, es, k - 1);
        lemma_run_extend(w0, es, k - 1);
    }
}

/// A walk over `n` pages chained by their next links, the last naming none,
/// requests page `i` at its own URL for each `i` in order, hands every one of
/// the `n` pages to the accumulator, and then finishes: no further request is
/// due.
pub proof fn lemma_walk_chain(urls: Seq<Seq<char>>, es: Seq<Option<Option<Seq<char>>>>)
    requires
        urls.len() >= 1,
        es.len() == urls.len(),
        forall|i: int| 0 <= i < es.len() - 1 ==> es[i] == Some(Some(urls[i + 1])),
        es[es.len() - 1] == Some(None::<Seq<char>>),
    ensures
        forall|i: int|
            0 <= i < es.len() ==> walk_run(
                WalkModel { phase: WalkPhase::Running, target: urls[0] },
                #[trigger] es.take(i),
            ) == (WalkModel { phase: WalkPhase::Running, target: urls[i] }),
        walk_run(WalkModel { phase: WalkPhase::Running, target: urls[0] }, es).phase
            == WalkPhase::Finished,
        walk_delivered(WalkModel { phase: WalkPhase::Running, target: urls[0] }, es) == es.len(),
{
    let w0 = WalkModel { phase: WalkPhase::Running, target: urls[0] };
    let n = es.len() as int;
    assert forall|i: int| 0 <= i < es.len() implies walk_run(w0, #[trigger] es.take(i)) == (
    WalkModel { phase: WalkPhase::Running, target: urls[i] }) && walk_delivered(w0, es.take(i))
        == i by {
        lemma_chain_prefix(urls, es, i);
    }
    lemma_chain_prefix(urls, es, n - 1);
    lemma_run_extend(w0, es, n - 1);
    assert(es.take(n) =~= es);
}

/// A failed page aborts a running walk at once: the failed page and every
/// page after it are never delivered, and no request follows.
pub proof fn lemma_failure_aborts(w: WalkModel, es: Seq<Option<Option<Seq<char>>>>)
    requires
        w.phase == WalkPhase::Running,
        es.len() >= 1,
        es[0] is None,
    ensures
        walk_run(w, es).phase == WalkPhase::Aborted,
        walk_delivered(w, es) == 0,
    decreases es.len(),
{
    if es.len() > 1 {
        assert(es.drop_last()[0] == es[0]);
        lemma_failure_aborts(w, es.drop_last());
    } else {
        assert(es.drop_last() =~= Seq::<Option<Option<Seq<char>>>>::empty());
        assert(walk_run(w, es.drop_last()) == w);
        assert(walk_delivered(w, es.drop_last()) == 0);
        assert(es.last() == es[0]);
    }
}

} // verus!
