//! Waiting for the reply by polling.
//!
//! A wait is a small state machine. The caller owns the clock and the
//! network: it performs the action the machine names and reports back what
//! came of it, together with the time gone by since the question was sent.
//! The machine decides what happens next: it picks the reply out of a query
//! result, backs off when the platform is rate limiting, gives up on any
//! other failure, and times out once the deadline has passed.

use vstd::prelude::*;
use vstd::math::min;
use crate::error::{AskError, AskErrorView, Platform};
use crate::marker::marker_newer;
use crate::message::{
    find_reply,
    is_first_qualifying,
    lemma_first_qualifying_is_reply,
    lemma_no_qualifying_no_reply,
    none_qualifies,
    reply_in,
    SlackMessage,
    SlackMessageView,
};
use crate::rate_limit::{is_rate_limit_text, mentions_rate_limit};
use crate::timing::{
    backoff_interval,
    lemma_backoff_monotonic,
    lemma_backoff_schedule,
    poll_interval_after,
    INITIAL_POLL_INTERVAL_MS,
    MAX_POLL_INTERVAL_MS,
    MAX_WAIT_MS,
};

verus! {

/// What the caller is to do next.
#[derive(Debug, PartialEq, Eq)]
pub enum WaitAction {
    /// Query the platform for newer messages and report with
    /// `on_query_result`.
    Poll,
    /// Sleep for this many milliseconds and report with `on_wake`.
    Sleep(u64),
    /// The wait is over: this is what the human answered.
    Resolve(String),
    /// The wait is over without an answer.
    Fail(AskError),
}

/// A `WaitAction` as a mathematical value.
pub enum WaitActionView {
    Poll,
    Sleep(nat),
    Resolve(Seq<char>),
    Fail(AskErrorView),
}

impl View for WaitAction {
    type V = WaitActionView;

    open spec fn view(&self) -> WaitActionView {
        match self {
            WaitAction::Poll => WaitActionView::Poll,
            WaitAction::Sleep(ms) => WaitActionView::Sleep(*ms as nat),
            WaitAction::Resolve(text) => WaitActionView::Resolve(text@),
            WaitAction::Fail(error) => WaitActionView::Fail(error@),
        }
    }
}

/// What one query came to, as a mathematical value: the messages listed, or
/// what the failure said.
pub type QueryResultView = Result<Seq<SlackMessageView>, Seq<char>>;

/// The view of a query result.
pub open spec fn query_result_view(outcome: Result<Vec<SlackMessage>, String>) -> QueryResultView {
    match outcome {
        Ok(messages) => Ok(messages.deep_view()),
        Err(text) => Err(text@),
    }
}

/// The state of one wait.
#[derive(Debug)]
pub struct ReplyWaitState {
    after_ts: String,
    user_id: String,
    retry_count: u32,
}

/// A `ReplyWaitState` as a mathematical value.
pub struct ReplyWaitView {
    /// The marker of the question: a reply is strictly newer.
    pub after: Seq<char>,
    /// The designated human: a reply is theirs.
    pub user: Seq<char>,
    /// How many queries in a row were turned away for rate limiting.
    pub retries: nat,
}

impl ReplyWaitView {
    /// The state once a query has gone through.
    pub open spec fn reset(self) -> ReplyWaitView {
        ReplyWaitView { retries: 0, ..self }
    }

    /// The state once one more query has been turned away for rate limiting.
    /// The count stops at the largest number it can hold.
    pub open spec fn backed_off(self) -> ReplyWaitView {
        ReplyWaitView {
            retries: if self.retries < u32::MAX {
                self.retries + 1
            } else {
                self.retries
            },
            ..self
        }
    }

    /// The pause between two queries in this state.
    pub open spec fn interval_ms(self) -> nat {
        backoff_interval(self.retries)
    }
}

/// The timeout of a polling wait.
pub open spec fn timed_out() -> WaitActionView {
    WaitActionView::Fail(AskErrorView::Timeout(Platform::Slack))
}

/// What follows a query that brought no reply: a pause of the current
/// interval, cut short where the deadline comes first, or a timeout where the
/// deadline has passed.
pub open spec fn pause(state: ReplyWaitView, elapsed_ms: nat) -> WaitActionView {
    if elapsed_ms >= MAX_WAIT_MS {
        timed_out()
    } else {
        WaitActionView::Sleep(min(state.interval_ms() as int, MAX_WAIT_MS - elapsed_ms) as nat)
    }
}

/// The state and the action that follow a query that went through.
pub open spec fn after_messages(
    state: ReplyWaitView,
    messages: Seq<SlackMessageView>,
    elapsed_ms: nat,
) -> (ReplyWaitView, WaitActionView) {
    match reply_in(messages, state.user, state.after) {
        Some(text) => (state.reset(), WaitActionView::Resolve(text)),
        None => (state.reset(), pause(state.reset(), elapsed_ms)),
    }
}

/// The state and the action that follow a query that failed.
pub open spec fn after_failure(state: ReplyWaitView, text: Seq<char>, elapsed_ms: nat) -> (
    ReplyWaitView,
    WaitActionView,
) {
    if mentions_rate_limit(text) {
        (state.backed_off(), pause(state.backed_off(), elapsed_ms))
    } else {
        (state, WaitActionView::Fail(AskErrorView::Transport(text)))
    }
}

/// The state and the action that follow a query.
pub open spec fn after_query(state: ReplyWaitView, outcome: QueryResultView, elapsed_ms: nat) -> (
    ReplyWaitView,
    WaitActionView,
) {
    match outcome {
        Ok(messages) => after_messages(state, messages, elapsed_ms),
        Err(text) => after_failure(state, text, elapsed_ms),
    }
}

/// The action that follows a pause.
pub open spec fn after_sleep(elapsed_ms: nat) -> WaitActionView {
    if elapsed_ms >= MAX_WAIT_MS {
        timed_out()
    } else {
        WaitActionView::Poll
    }
}

impl View for ReplyWaitState {
    type V = ReplyWaitView;

    closed spec fn view(&self) -> ReplyWaitView {
        ReplyWaitView {
            after: self.after_ts@,
            user: self.user_id@,
            retries: self.retry_count as nat,
        }
    }
}

impl ReplyWaitState {
    /// A wait for the reply of `user_id` to the question sent at marker
    /// `after_ts`.
    pub fn new(after_ts: String, user_id: String) -> (state: ReplyWaitState)
        ensures
            state@ == (ReplyWaitView { after: after_ts@, user: user_id@, retries: 0 }),
    {
        ReplyWaitState { after_ts, user_id, retry_count: 0 }
    }

    /// The marker of the question.
    pub fn after_ts(&self) -> (ts: &String)
        ensures
            ts@ == self@.after,
    {
        &self.after_ts
    }

    /// The designated human.
    pub fn user_id(&self) -> (user: &String)
        ensures
            user@ == self@.user,
    {
        &self.user_id
    }

    /// How many queries in a row were turned away for rate limiting.
    pub fn retry_count(&self) -> (count: u32)
        ensures
            count == self@.retries,
    {
        self.retry_count
    }

    /// The pause between two queries in this state, in milliseconds.
    pub fn poll_interval_ms(&self) -> (ms: u64)
        ensures
            ms == self@.interval_ms(),
    {
        poll_interval_after(self.retry_count)
    }

    fn pause(&self, elapsed_ms: u64) -> (action: WaitAction)
        ensures
            action@ == pause(self@, elapsed_ms as nat),
    {
        if elapsed_ms >= MAX_WAIT_MS {
            WaitAction::Fail(AskError::Timeout(Platform::Slack))
        } else {
            let remaining: u64 = MAX_WAIT_MS - elapsed_ms;
            let interval: u64 = self.poll_interval_ms();
            WaitAction::Sleep(
                if interval < remaining {
                    interval
                } else {
                    remaining
                },
            )
        }
    }

    /// Takes in the messages that a query listed, `elapsed_ms` after the
    /// question was sent, and says what to do next.
    ///
    /// The backoff is cleared. The first qualifying message, if there is
    /// one, ends the wait with its text, whatever the clock says. Otherwise
    /// the next action is a pause, or a timeout if the deadline has passed.
    pub fn on_messages(&mut self, messages: &Vec<SlackMessage>, elapsed_ms: u64) -> (action:
        WaitAction)
        ensures
            (final(self)@, action@) == after_messages(
                old(self)@,
                messages.deep_view(),
                elapsed_ms as nat,
            ),
    {
        self.retry_count = 0;
        match find_reply(messages, &self.user_id, &self.after_ts) {
            Some(text) => WaitAction::Resolve(text),
            None => self.pause(elapsed_ms),
        }
    }

    /// Takes in what a failed query said, `elapsed_ms` after the question
    /// was sent, and says what to do next.
    ///
    /// A failure that reports rate limiting lengthens the pause; the next
    /// action is that pause, or a timeout if the deadline has passed. Any
    /// other failure ends the wait at once.
    pub fn on_query_failed(&mut self, text: String, elapsed_ms: u64) -> (action: WaitAction)
        ensures
            (final(self)@, action@) == after_failure(old(self)@, text@, elapsed_ms as nat),
    {
        if is_rate_limit_text(text.as_str()) {
            if self.retry_count < u32::MAX {
                self.retry_count = self.retry_count + 1;
            }
            self.pause(elapsed_ms)
        } else {
            WaitAction::Fail(AskError::Transport(text))
        }
    }

    /// Takes in what a query came to, `elapsed_ms` after the question was
    /// sent, and says what to do next.
    pub fn on_query_result(
        &mut self,
        outcome: Result<Vec<SlackMessage>, String>,
        elapsed_ms: u64,
    ) -> (action: WaitAction)
        ensures
            (final(self)@, action@) == after_query(
                old(self)@,
                query_result_view(outcome),
                elapsed_ms as nat,
            ),
    {
        match outcome {
            Ok(messages) => self.on_messages(&messages, elapsed_ms),
            Err(text) => self.on_query_failed(text, elapsed_ms),
        }
    }

    /// Says what to do after a pause, `elapsed_ms` after the question was
    /// sent: query again, or time out if the deadline has passed.
    pub fn on_wake(&self, elapsed_ms: u64) -> (action: WaitAction)
        ensures
            action@ == after_sleep(elapsed_ms as nat),
    {
        if elapsed_ms >= MAX_WAIT_MS {
            WaitAction::Fail(AskError::Timeout(Platform::Slack))
        } else {
            WaitAction::Poll
        }
    }
}

/// A query result that leaves the wait where it was: messages none of which
/// qualifies, or a failure that reports rate limiting.
pub open spec fn is_quiet(outcome: QueryResultView, user: Seq<char>, after: Seq<char>) -> bool {
    match outcome {
        Ok(messages) => none_qualifies(messages, user, after),
        Err(text) => mentions_rate_limit(text),
    }
}

/// A message from the designated human that is strictly newer than the
/// question ends the wait with exactly its text, at any time, provided that
/// no message listed before it qualifies too.
pub proof fn lemma_reply_resolves(
    state: ReplyWaitView,
    messages: Seq<SlackMessageView>,
    i: int,
    elapsed_ms: nat,
)
    requires
        0 <= i < messages.len(),
        messages[i].user == state.user,
        marker_newer(messages[i].ts, state.after),
        none_qualifies(messages.take(i), state.user, state.after),
    ensures
        after_query(state, Ok(messages), elapsed_ms).1 == WaitActionView::Resolve(messages[i].text),
{
    lemma_first_qualifying_is_reply(messages, state.user, state.after, i);
}

/// Messages of other authors, and messages not strictly newer than the
/// question, never end the wait with an answer: what follows them is a pause
/// or the timeout.
pub proof fn lemma_others_never_resolve(
    state: ReplyWaitView,
    messages: Seq<SlackMessageView>,
    elapsed_ms: nat,
)
    requires
        forall|j: int|
            0 <= j < messages.len() ==> (#[trigger] messages[j]).user != state.user
                || !marker_newer(messages[j].ts, state.after),
    ensures
        after_query(state, Ok(messages), elapsed_ms).1 == pause(state.reset(), elapsed_ms),
        !(after_query(state, Ok(messages), elapsed_ms).1 is Resolve),
{
    lemma_no_qualifying_no_reply(messages, state.user, state.after);
}

/// An answer always comes from a qualifying message: the first one listed.
pub proof fn lemma_resolve_means_reply(
    state: ReplyWaitView,
    outcome: QueryResultView,
    elapsed_ms: nat,
) -> (i: int)
    requires
        after_query(state, outcome, elapsed_ms).1 is Resolve,
    ensures
        outcome is Ok,
        is_first_qualifying(outcome->Ok_0, state.user, state.after, i),
        after_query(state, outcome, elapsed_ms).1 == WaitActionView::Resolve(outcome->Ok_0[i].text),
{
    let messages = outcome->Ok_0;
    choose|i: int| is_first_qualifying(messages, state.user, state.after, i)
}

/// Each rate-limited query in a row doubles the pause, up to its ceiling,
/// and the next query that goes through brings it back to its initial value.
pub proof fn lemma_backoff_doubles_and_resets(
    state: ReplyWaitView,
    text: Seq<char>,
    messages: Seq<SlackMessageView>,
    elapsed_ms: nat,
)
    requires
        mentions_rate_limit(text),
    ensures
        after_query(state, Err(text), elapsed_ms).0.interval_ms() == min(
            2 * (state.interval_ms() as int),
            MAX_POLL_INTERVAL_MS as int,
        ),
        after_query(state, Ok(messages), elapsed_ms).0.interval_ms() == INITIAL_POLL_INTERVAL_MS,
{
    lemma_backoff_schedule(0);
    lemma_backoff_schedule(state.retries);
    lemma_backoff_schedule(state.backed_off().retries);
}

/// The state after `times` rate-limited queries in a row.
pub open spec fn backed_off_times(state: ReplyWaitView, times: nat) -> ReplyWaitView
    decreases times,
{
    if times == 0 {
        state
    } else {
        backed_off_times(state, (times - 1) as nat).backed_off()
    }
}

/// From a state without backoff, rate-limited queries in a row take the
/// pause from ten seconds to twenty after the first and to thirty after the
/// second, where it stays however many follow.
pub proof fn lemma_rate_limits_in_a_row(state: ReplyWaitView, times: nat)
    requires
        state.retries == 0,
    ensures
        backed_off_times(state, times).interval_ms() == backoff_interval(times),
        times == 0 ==> backed_off_times(state, times).interval_ms() == 10_000,
        times == 1 ==> backed_off_times(state, times).interval_ms() == 20_000,
        times >= 2 ==> backed_off_times(state, times).interval_ms() == 30_000,
        backed_off_times(state, times).retries == min(times as int, u32::MAX as int),
    decreases times,
{
    lemma_backoff_schedule(times);
    lemma_backoff_schedule(backed_off_times(state, times).retries);
    if times > 0 {
        lemma_rate_limits_in_a_row(state, (times - 1) as nat);
    }
}

/// Queries and pauses take turns: a query is followed by a pause or by the
/// end of the wait, never by another query at once, and a pause is followed
/// by a query or by the timeout.
pub proof fn lemma_queries_and_pauses_alternate(
    state: ReplyWaitView,
    outcome: QueryResultView,
    elapsed_ms: nat,
)
    ensures
        !(after_query(state, outcome, elapsed_ms).1 is Poll),
        after_sleep(elapsed_ms) == WaitActionView::Poll || after_sleep(elapsed_ms) == timed_out(),
{
}

/// The timeout comes once the deadline has passed and not before: until
/// then a query result without a reply is followed by a pause that is not
/// empty and does not reach beyond the deadline, and a pause by a query.
pub proof fn lemma_timeout_at_deadline_only(
    state: ReplyWaitView,
    outcome: QueryResultView,
    elapsed_ms: nat,
)
    ensures
        after_query(state, outcome, elapsed_ms).1 == timed_out() ==> elapsed_ms >= MAX_WAIT_MS,
        after_sleep(elapsed_ms) == timed_out() <==> elapsed_ms >= MAX_WAIT_MS,
        after_sleep(elapsed_ms) == WaitActionView::Poll <==> elapsed_ms < MAX_WAIT_MS,
        is_quiet(outcome, state.user, state.after) && elapsed_ms >= MAX_WAIT_MS ==> after_query(
            state,
            outcome,
            elapsed_ms,
        ).1 == timed_out(),
        is_quiet(outcome, state.user, state.after) && elapsed_ms < MAX_WAIT_MS ==> ({
            let action = after_query(state, outcome, elapsed_ms).1;
            &&& action is Sleep
            &&& 0 < action->Sleep_0 <= MAX_WAIT_MS - elapsed_ms
            &&& action->Sleep_0 <= MAX_POLL_INTERVAL_MS
        }),
{
    lemma_backoff_monotonic(0, state.backed_off().retries);
    if outcome is Ok && is_quiet(outcome, state.user, state.after) {
        lemma_no_qualifying_no_reply(outcome->Ok_0, state.user, state.after);
    }
}

} // verus!
