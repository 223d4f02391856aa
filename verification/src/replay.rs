//! A whole wait, run against a recorded transcript.
//!
//! The transcript lists what each query in turn came to. The run follows the
//! wait's own decisions from the first query on, with a clock of its own:
//! a query takes no time and a pause lasts exactly as long as was asked.
//! It ends with the answer, with a failure, or, where the transcript runs
//! out first, still pending.

use vstd::prelude::*;
use crate::error::{AskError, AskErrorView, Platform};
use crate::message::{
    is_first_qualifying,
    lemma_first_qualifying_is_reply,
    lemma_no_qualifying_no_reply,
    SlackMessage,
};
use crate::timing::{
    lemma_backoff_monotonic,
    INITIAL_POLL_INTERVAL_MS,
    MAX_POLL_INTERVAL_MS,
    MAX_WAIT_MS,
};
use crate::wait::{
    after_query,
    after_sleep,
    is_quiet,
    query_result_view,
    QueryResultView,
    ReplyWaitState,
    ReplyWaitView,
    WaitAction,
    WaitActionView,
};

verus! {

/// How a run ended.
#[derive(Debug, PartialEq, Eq)]
pub enum WaitOutcome {
    /// The transcript ran out before the wait was over.
    Pending,
    /// The human answered this.
    Replied(String),
    /// The wait failed.
    Failed(AskError),
}

/// A `WaitOutcome` as a mathematical value.
pub enum WaitOutcomeView {
    Pending,
    Replied(Seq<char>),
    Failed(AskErrorView),
}

impl View for WaitOutcome {
    type V = WaitOutcomeView;

    open spec fn view(&self) -> WaitOutcomeView {
        match self {
            WaitOutcome::Pending => WaitOutcomeView::Pending,
            WaitOutcome::Replied(text) => WaitOutcomeView::Replied(text@),
            WaitOutcome::Failed(error) => WaitOutcomeView::Failed(error@),
        }
    }
}

/// A run: how it ended, the time on its clock when it ended, and how many
/// queries of the transcript it used.
#[derive(Debug, PartialEq, Eq)]
pub struct WaitRun {
    pub outcome: WaitOutcome,
    pub elapsed_ms: u64,
    pub polls: usize,
}

/// A `WaitRun` as a mathematical value.
pub struct WaitRunView {
    pub outcome: WaitOutcomeView,
    pub elapsed_ms: nat,
    pub polls: nat,
}

impl View for WaitRun {
    type V = WaitRunView;

    open spec fn view(&self) -> WaitRunView {
        WaitRunView {
            outcome: self.outcome@,
            elapsed_ms: self.elapsed_ms as nat,
            polls: self.polls as nat,
        }
    }
}

/// The view of a transcript.
pub open spec fn transcript_view(transcript: Seq<Result<Vec<SlackMessage>, String>>) -> Seq<
    QueryResultView,
> {
    Seq::new(transcript.len(), |i: int| query_result_view(transcript[i]))
}

/// The run that starts in `state` with `elapsed_ms` on the clock and the
/// queries of `transcript` from index `next` on still to come: a look at the
/// clock, then the next query and what the wait makes of it, then the pause
/// it asks for, and so on.
pub open spec fn run_from(
    state: ReplyWaitView,
    transcript: Seq<QueryResultView>,
    next: int,
    elapsed_ms: nat,
) -> WaitRunView
    decreases transcript.len() - next,
{
    if after_sleep(elapsed_ms) is Fail {
        WaitRunView {
            outcome: WaitOutcomeView::Failed(after_sleep(elapsed_ms)->Fail_0),
            elapsed_ms,
            polls: next as nat,
        }
    } else if next < 0 || next >= transcript.len() {
        WaitRunView { outcome: WaitOutcomeView::Pending, elapsed_ms, polls: next as nat }
    } else {
        let (then, action) = after_query(state, transcript[next], elapsed_ms);
        match action {
            WaitActionView::Resolve(text) => WaitRunView {
                outcome: WaitOutcomeView::Replied(text),
                elapsed_ms,
                polls: (next + 1) as nat,
            },
            WaitActionView::Fail(error) => WaitRunView {
                outcome: WaitOutcomeView::Failed(error),
                elapsed_ms,
                polls: (next + 1) as nat,
            },
            WaitActionView::Sleep(ms) => run_from(then, transcript, next + 1, elapsed_ms + ms),
            WaitActionView::Poll => run_from(then, transcript, next + 1, elapsed_ms),
        }
    }
}

/// The run of a wait from its start.
pub open spec fn run(state: ReplyWaitView, transcript: Seq<QueryResultView>) -> WaitRunView {
    run_from(state, transcript, 0, 0)
}

/// Runs the wait `state` against `transcript`.
pub fn replay(state: ReplyWaitState, transcript: &Vec<Result<Vec<SlackMessage>, String>>) -> (run:
    WaitRun)
    ensures
        run@ == self::run(state@, transcript_view(transcript@)),
{
    let ghost outcomes = transcript_view(transcript@);
    let mut wait = state;
    let mut elapsed_ms: u64 = 0;
    let mut next: usize = 0;
    loop
        invariant
            next <= transcript.len(),
            elapsed_ms <= MAX_WAIT_MS,
            outcomes == transcript_view(transcript@),
            run_from(wait@, outcomes, next as int, elapsed_ms as nat) == self::run(
                state@,
                outcomes,
            ),
        decreases transcript.len() - next,
    {
        match wait.on_wake(elapsed_ms) {
            WaitAction::Fail(error) => {
                return WaitRun { outcome: WaitOutcome::Failed(error), elapsed_ms, polls: next };
            },
            _ => {},
        }
        if next >= transcript.len() {
            return WaitRun { outcome: WaitOutcome::Pending, elapsed_ms, polls: next };
        }
        let action = match &transcript[next] {
            Ok(messages) => wait.on_messages(messages, elapsed_ms),
            Err(text) => wait.on_query_failed(text.clone(), elapsed_ms),
        };
        next += 1;
        match action {
            WaitAction::Resolve(text) => {
                return WaitRun { outcome: WaitOutcome::Replied(text), elapsed_ms, polls: next };
            },
            WaitAction::Fail(error) => {
                return WaitRun { outcome: WaitOutcome::Failed(error), elapsed_ms, polls: next };
            },
            WaitAction::Sleep(ms) => {
                elapsed_ms = elapsed_ms + ms;
            },
            WaitAction::Poll => {},
        }
    }
}

/// A run, seen from the middle, stays within the deadline.
proof fn lemma_run_from_is_bounded(
    state: ReplyWaitView,
    transcript: Seq<QueryResultView>,
    next: int,
    elapsed_ms: nat,
)
    requires
        0 <= next <= transcript.len(),
        elapsed_ms <= MAX_WAIT_MS,
        elapsed_ms == MAX_WAIT_MS || elapsed_ms >= next * INITIAL_POLL_INTERVAL_MS,
    ensures
        ({
            let run = run_from(state, transcript, next, elapsed_ms);
            &&& run.elapsed_ms <= MAX_WAIT_MS
            &&& run.polls <= transcript.len()
            &&& run.outcome == WaitOutcomeView::Failed(AskErrorView::Timeout(Platform::Slack))
                ==> run.elapsed_ms == MAX_WAIT_MS
            &&& transcript.len() * INITIAL_POLL_INTERVAL_MS >= MAX_WAIT_MS ==> !(run.outcome
                is Pending)
        }),
    decreases transcript.len() - next,
{
    if elapsed_ms < MAX_WAIT_MS && next < transcript.len() {
        let (then, action) = after_query(state, transcript[next], elapsed_ms);
        lemma_backoff_monotonic(0, then.retries);
        if action is Sleep {
            lemma_run_from_is_bounded(then, transcript, next + 1, elapsed_ms + action->Sleep_0);
        }
    }
}

/// Every wait is bounded by the deadline, whatever the queries come to: a
/// run never has more than the deadline on its clock, it times out with
/// exactly the deadline on its clock, and it is over once it has been
/// through as many queries as pauses of the initial interval fill the time
/// to the deadline.
pub proof fn lemma_wait_is_bounded(state: ReplyWaitView, transcript: Seq<QueryResultView>)
    ensures
        ({
            let run = run(state, transcript);
            &&& run.elapsed_ms <= MAX_WAIT_MS
            &&& run.polls <= transcript.len()
            &&& run.outcome == WaitOutcomeView::Failed(AskErrorView::Timeout(Platform::Slack))
                ==> run.elapsed_ms == MAX_WAIT_MS
            &&& transcript.len() * INITIAL_POLL_INTERVAL_MS >= MAX_WAIT_MS ==> !(run.outcome
                is Pending)
        }),
{
    lemma_run_from_is_bounded(state, transcript, 0, 0);
}

/// A run through nothing but quiet query results, seen from the middle.
proof fn lemma_quiet_run_from(
    state: ReplyWaitView,
    transcript: Seq<QueryResultView>,
    next: int,
    elapsed_ms: nat,
)
    requires
        0 <= next <= transcript.len(),
        elapsed_ms <= MAX_WAIT_MS,
        elapsed_ms == MAX_WAIT_MS || elapsed_ms >= next * INITIAL_POLL_INTERVAL_MS,
        forall|i: int|
            0 <= i < transcript.len() ==> is_quiet(
                #[trigger] transcript[i],
                state.user,
                state.after,
            ),
    ensures
        ({
            let run = run_from(state, transcript, next, elapsed_ms);
            &&& run.outcome is Pending ==> run.elapsed_ms < MAX_WAIT_MS && run.polls
                == transcript.len()
            &&& !(run.outcome is Pending) ==> run.outcome == WaitOutcomeView::Failed(
                AskErrorView::Timeout(Platform::Slack),
            ) && run.elapsed_ms == MAX_WAIT_MS
            &&& transcript.len() * INITIAL_POLL_INTERVAL_MS >= MAX_WAIT_MS ==> !(run.outcome
                is Pending)
        }),
    decreases transcript.len() - next,
{
    if elapsed_ms < MAX_WAIT_MS && next < transcript.len() {
        let outcome = transcript[next];
        if outcome is Ok {
            lemma_no_qualifying_no_reply(outcome->Ok_0, state.user, state.after);
        }
        let (then, action) = after_query(state, outcome, elapsed_ms);
        lemma_backoff_monotonic(0, then.retries);
        lemma_quiet_run_from(then, transcript, next + 1, elapsed_ms + action->Sleep_0);
    }
}

/// A wait that hears nothing but silence and rate limiting times out, and
/// does so exactly at the deadline: a run through such a transcript is
/// either still pending, short of the deadline and with every query used,
/// or timed out with the deadline on its clock. A transcript long enough to
/// fill the time to the deadline with pauses of the initial interval is
/// long enough for the timeout.
pub proof fn lemma_quiet_wait_times_out_at_deadline(
    state: ReplyWaitView,
    transcript: Seq<QueryResultView>,
)
    requires
        forall|i: int|
            0 <= i < transcript.len() ==> is_quiet(
                #[trigger] transcript[i],
                state.user,
                state.after,
            ),
    ensures
        ({
            let run = run(state, transcript);
            &&& run.outcome is Pending ==> run.elapsed_ms < MAX_WAIT_MS && run.polls
                == transcript.len()
            &&& !(run.outcome is Pending) ==> run.outcome == WaitOutcomeView::Failed(
                AskErrorView::Timeout(Platform::Slack),
            ) && run.elapsed_ms == MAX_WAIT_MS
            &&& transcript.len() * INITIAL_POLL_INTERVAL_MS >= MAX_WAIT_MS ==> !(run.outcome
                is Pending)
        }),
{
    lemma_quiet_run_from(state, transcript, 0, 0);
}

/// A run towards a reply, seen from the middle.
proof fn lemma_run_from_to_reply(
    state: ReplyWaitView,
    transcript: Seq<QueryResultView>,
    k: int,
    i: int,
    next: int,
    elapsed_ms: nat,
)
    requires
        0 <= next <= k < transcript.len(),
        elapsed_ms <= MAX_WAIT_MS,
        elapsed_ms <= next * MAX_POLL_INTERVAL_MS,
        forall|j: int| 0 <= j < k ==> is_quiet(#[trigger] transcript[j], state.user, state.after),
        transcript[k] is Ok,
        is_first_qualifying(transcript[k]->Ok_0, state.user, state.after, i),
    ensures
        ({
            let run = run_from(state, transcript, next, elapsed_ms);
            let text = transcript[k]->Ok_0[i].text;
            &&& run.outcome == WaitOutcomeView::Replied(text) && run.polls == k + 1
                && run.elapsed_ms <= k * MAX_POLL_INTERVAL_MS || run.outcome
                == WaitOutcomeView::Failed(AskErrorView::Timeout(Platform::Slack)) && run.polls <= k
                && run.elapsed_ms == MAX_WAIT_MS
            &&& k * MAX_POLL_INTERVAL_MS < MAX_WAIT_MS ==> run.outcome == WaitOutcomeView::Replied(
                text,
            )
        }),
    decreases k - next,
{
    if elapsed_ms < MAX_WAIT_MS {
        let outcome = transcript[next];
        if next == k {
            lemma_first_qualifying_is_reply(outcome->Ok_0, state.user, state.after, i);
        } else {
            if outcome is Ok {
                lemma_no_qualifying_no_reply(outcome->Ok_0, state.user, state.after);
            }
            let (then, action) = after_query(state, outcome, elapsed_ms);
            lemma_backoff_monotonic(0, then.retries);
            lemma_run_from_to_reply(
                then,
                transcript,
                k,
                i,
                next + 1,
                elapsed_ms + action->Sleep_0,
            );
        }
    }
}

/// A wait resolves on the first reply that a query lists, with exactly its
/// text: where the queries before that one were quiet, the run ends with
/// that text as soon as that query is in, unless the deadline has passed
/// before. It cannot have passed while even pauses of the longest kind
/// between the queries so far end short of it.
pub proof fn lemma_wait_resolves_on_first_reply(
    state: ReplyWaitView,
    transcript: Seq<QueryResultView>,
    k: int,
    i: int,
)
    requires
        0 <= k < transcript.len(),
        forall|j: int| 0 <= j < k ==> is_quiet(#[trigger] transcript[j], state.user, state.after),
        transcript[k] is Ok,
        is_first_qualifying(transcript[k]->Ok_0, state.user, state.after, i),
    ensures
        ({
            let run = run(state, transcript);
            let text = transcript[k]->Ok_0[i].text;
            &&& run.outcome == WaitOutcomeView::Replied(text) && run.polls == k + 1
                && run.elapsed_ms <= k * MAX_POLL_INTERVAL_MS || run.outcome
                == WaitOutcomeView::Failed(AskErrorView::Timeout(Platform::Slack)) && run.polls <= k
                && run.elapsed_ms == MAX_WAIT_MS
            &&& k * MAX_POLL_INTERVAL_MS < MAX_WAIT_MS ==> run.outcome == WaitOutcomeView::Replied(
                text,
            )
        }),
{
    lemma_run_from_to_reply(state, transcript, k, i, 0, 0);
}

} // verus!
