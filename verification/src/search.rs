//! The search controller: captures raw input immediately, commits it to a
//! lookup only after a debounce interval, numbers each lookup it issues, and
//! keeps the outcome of the most recently issued lookup only — a response
//! to a superseded lookup never overwrites newer state.

use vstd::pervasive::unreached;
use vstd::prelude::*;

use crate::books::Book;

verus! {

/// The debounce interval: milliseconds of idle input before the pending
/// query is committed to a lookup.
pub const DEBOUNCE_MS: u64 = 1000;

/// What the search view renders: a lookup in flight, the books of the
/// latest answered lookup, or the latest lookup's failure message.
pub enum SearchViewState {
    Loading,
    Success(Vec<Book>),
    Failure(String),
}

/// Raw input waiting out its debounce interval.
pub struct PendingInput {
    pub query: String,
    pub deadline: u64,
}

/// A lookup the controller asks its caller to run: the caller also reflects
/// the committed query into the shareable navigation state, performs the
/// lookup, and reports the outcome back under the same sequence number.
pub struct LookupRequest {
    pub seq_no: u64,
    pub query: String,
}

/// The controller's state: the text as typed, the input waiting out the
/// debounce, the sequence number of the most recently issued lookup, and
/// what the view shows.
pub struct SearchController {
    pub raw_query: String,
    pub pending: Option<PendingInput>,
    pub latest_seq: u64,
    pub state: SearchViewState,
}

/// The state a lookup's outcome maps to.
pub open spec fn outcome_state(outcome: Result<Vec<Book>, String>) -> SearchViewState {
    match outcome {
        Ok(books) => SearchViewState::Success(books),
        Err(m) => SearchViewState::Failure(m),
    }
}

/// How [`SearchController::input`] transforms the controller.
pub open spec fn input_spec(c: SearchController, text: String, now: u64) -> SearchController {
    SearchController {
        raw_query: text,
        pending: Some(PendingInput { query: text, deadline: (now + DEBOUNCE_MS) as u64 }),
        ..c
    }
}

/// How [`SearchController::poll`] transforms the controller and what it
/// issues.
pub open spec fn poll_spec(c: SearchController, now: u64) -> (SearchController, Option<
    LookupRequest,
>) {
    match c.pending {
        Some(p) => if now >= p.deadline {
            let n = (c.latest_seq + 1) as u64;
            (
                SearchController {
                    pending: None,
                    latest_seq: n,
                    state: SearchViewState::Loading,
                    ..c
                },
                Some(LookupRequest { seq_no: n, query: p.query }),
            )
        } else {
            (c, None)
        },
        None => (c, None),
    }
}

/// How [`SearchController::resolve`] transforms the controller: an outcome
/// counts only under the sequence number of the most recently issued lookup.
pub open spec fn resolve_spec(
    c: SearchController,
    seq_no: u64,
    outcome: Result<Vec<Book>, String>,
) -> SearchController {
    if seq_no == c.latest_seq {
        SearchController { state: outcome_state(outcome), ..c }
    } else {
        c
    }
}

impl SearchController {
    /// A fresh controller for a view opened with `initial_query`: the first
    /// lookup is issued at once, with no debounce, as lookup number 1.
    pub fn new(initial_query: String) -> (r: (SearchController, LookupRequest))
        ensures
            r.0.raw_query == initial_query,
            r.0.pending is None,
            r.0.latest_seq == 1,
            r.0.state is Loading,
            r.1.seq_no == 1,
            r.1.query == initial_query,
    {
        let controller = SearchController {
            raw_query: initial_query.clone(),
            pending: None,
            latest_seq: 1,
            state: SearchViewState::Loading,
        };
        (controller, LookupRequest { seq_no: 1, query: initial_query })
    }

    /// A keystroke: the raw text is captured at once, and the debounce
    /// window restarts — only this newest text can commit, the text it
    /// replaces never will.
    pub fn input(&mut self, text: String, now: u64)
        requires
            now <= u64::MAX - DEBOUNCE_MS,
        ensures
            *final(self) == input_spec(*old(self), text, now),
    {
        self.raw_query = text.clone();
        self.pending = Some(PendingInput { query: text, deadline: now + DEBOUNCE_MS });
    }

    /// A timer check: once the pending input has waited out its interval it
    /// commits, the view turns to `Loading`, and a freshly numbered lookup
    /// is handed to the caller to run. Before the deadline, nothing
    /// changes.
    pub fn poll(&mut self, now: u64) -> (r: Option<LookupRequest>)
        requires
            old(self).latest_seq < u64::MAX,
        ensures
            (*final(self), r) == poll_spec(*old(self), now),
    {
        let fire = match &self.pending {
            Some(p) => now >= p.deadline,
            None => false,
        };
        if !fire {
            return None;
        }
        let query = match self.pending.take() {
            Some(p) => p.query,
            None => unreached(),
        };
        self.latest_seq = self.latest_seq + 1;
        self.state = SearchViewState::Loading;
        Some(LookupRequest { seq_no: self.latest_seq, query })
    }

    /// A lookup's outcome arrives. Under the sequence number of the most
    /// recently issued lookup it becomes the view's state; under any other
    /// — a lookup that has been superseded — it is discarded and the
    /// controller is left exactly as it was.
    pub fn resolve(&mut self, seq_no: u64, outcome: Result<Vec<Book>, String>)
        ensures
            *final(self) == resolve_spec(*old(self), seq_no, outcome),
            seq_no != old(self).latest_seq ==> *final(self) == *old(self),
    {
        if seq_no == self.latest_seq {
            self.state = match outcome {
                Ok(books) => SearchViewState::Success(books),
                Err(m) => SearchViewState::Failure(m),
            };
        }
    }
}

/// Resolution order does not matter: whichever of a stale outcome and the
/// latest lookup's outcome arrives first, the state ends up reflecting the
/// latest lookup's outcome, and the stale one is discarded.
pub proof fn lemma_stale_response_discarded(
    c: SearchController,
    stale: u64,
    ra: Result<Vec<Book>, String>,
    rb: Result<Vec<Book>, String>,
)
    requires
        stale != c.latest_seq,
    ensures
        resolve_spec(resolve_spec(c, c.latest_seq, rb), stale, ra).state == outcome_state(rb),
        resolve_spec(resolve_spec(c, stale, ra), c.latest_seq, rb).state == outcome_state(rb),
{
}

/// Trailing-edge debounce: when a second keystroke lands before the first
/// commits, the window restarts and only the newest text can fire — a
/// commit after the newest deadline issues a lookup for the newest text.
pub proof fn lemma_newest_input_commits(
    c: SearchController,
    q1: String,
    t1: u64,
    q2: String,
    t2: u64,
    now: u64,
)
    requires
        t2 <= u64::MAX - DEBOUNCE_MS,
        now >= t2 + DEBOUNCE_MS,
        c.latest_seq < u64::MAX,
    ensures
        poll_spec(input_spec(input_spec(c, q1, t1), q2, t2), now).1 matches Some(r) && r.query
            == q2,
{
}

/// Two searches in a row: the first query commits and its lookup is issued,
/// then a second query commits and its lookup is issued. The second lookup
/// supersedes the first, so the final state reflects the second outcome
/// even when the first outcome arrives last.
pub proof fn lemma_second_search_wins(
    c0: SearchController,
    qa: String,
    ta: u64,
    na: u64,
    qb: String,
    tb: u64,
    nb: u64,
    ra: Result<Vec<Book>, String>,
    rb: Result<Vec<Book>, String>,
)
    requires
        ta <= u64::MAX - DEBOUNCE_MS,
        tb <= u64::MAX - DEBOUNCE_MS,
        na >= ta + DEBOUNCE_MS,
        nb >= tb + DEBOUNCE_MS,
        c0.latest_seq + 2 <= u64::MAX,
    ensures
        ({
            let (c2, req_a) = poll_spec(input_spec(c0, qa, ta), na);
            let (c4, req_b) = poll_spec(input_spec(c2, qb, tb), nb);
            &&& req_a matches Some(a) && a.query == qa
            &&& req_b matches Some(b) && b.query == qb
            &&& (req_a matches Some(a) && req_b matches Some(b) ==> {
                &&& a.seq_no != b.seq_no
                &&& resolve_spec(resolve_spec(c4, b.seq_no, rb), a.seq_no, ra).state
                    == outcome_state(rb)
                &&& resolve_spec(resolve_spec(c4, a.seq_no, ra), b.seq_no, rb).state
                    == outcome_state(rb)
            })
        }),
{
}

} // verus!
