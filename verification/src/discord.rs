//! The event-driven backend.
//!
//! The platform pushes every message of the watched channel to the process
//! as it arrives. `HumanInDiscord` is the single slot where such an event
//! meets the wait that is out for it: a question opens the slot with the
//! marker of its own message, the first qualifying message that arrives
//! closes it and is the answer, and so does the deadline, without one.
//! While the slot is open no other question is taken.
//! The caller owns the clock: it reports the time gone by since the wait
//! was opened, and the slot says whether that is a timeout.
//! Markers are the platform's message identifiers, which grow with time.

use vstd::prelude::*;
use crate::error::{AskError, AskErrorView, Platform};
use crate::timing::MAX_WAIT_MS;

verus! {

/// One message as the platform's event stream delivers it.
#[derive(Clone, Debug, PartialEq, Eq)]
pub struct DiscordMessage {
    pub id: u64,
    pub channel_id: u64,
    pub author_id: u64,
    pub content: String,
}

/// A `DiscordMessage` as a mathematical value.
pub struct DiscordMessageView {
    pub id: u64,
    pub channel_id: u64,
    pub author_id: u64,
    pub content: Seq<char>,
}

impl View for DiscordMessage {
    type V = DiscordMessageView;

    open spec fn view(&self) -> DiscordMessageView {
        DiscordMessageView {
            id: self.id,
            channel_id: self.channel_id,
            author_id: self.author_id,
            content: self.content@,
        }
    }
}

/// One running instance that asks its questions in a channel and is told of
/// the answers by the platform.
#[derive(Debug)]
pub struct HumanInDiscord {
    user_id: u64,
    channel_id: u64,
    pending: Option<u64>,
}

/// A `HumanInDiscord` as a mathematical value.
pub struct HumanInDiscordView {
    /// The designated human.
    pub user: u64,
    /// The watched channel.
    pub channel: u64,
    /// The marker of the question that is waiting for its answer, if one is.
    pub pending: Option<u64>,
}

impl HumanInDiscordView {
    /// The correlation rule: `message` answers the question that waits here
    /// when it came in the watched channel, the designated human wrote it,
    /// and it is strictly newer than the question.
    pub open spec fn qualifies(self, message: DiscordMessageView) -> bool {
        &&& self.pending matches Some(after)
        &&& message.channel_id == self.channel
        &&& message.author_id == self.user
        &&& message.id > after
    }

    /// The instance with its slot closed.
    pub open spec fn closed(self) -> HumanInDiscordView {
        HumanInDiscordView { pending: None, ..self }
    }

    /// The instance and the timeout reported once the caller's timer has
    /// gone off, `elapsed_ms` after the wait was opened: an open wait times
    /// out when the deadline has passed, and not before.
    pub open spec fn after_timer(self, elapsed_ms: nat) -> (
        HumanInDiscordView,
        Option<AskErrorView>,
    ) {
        if self.pending is Some && elapsed_ms >= MAX_WAIT_MS {
            (self.closed(), Some(AskErrorView::Timeout(Platform::Discord)))
        } else {
            (self, None)
        }
    }

    /// The instance and the answer delivered once `message` has arrived.
    pub open spec fn after_message(self, message: DiscordMessageView) -> (
        HumanInDiscordView,
        Option<Seq<char>>,
    ) {
        if self.qualifies(message) {
            (self.closed(), Some(message.content))
        } else {
            (self, None)
        }
    }
}

impl View for HumanInDiscord {
    type V = HumanInDiscordView;

    closed spec fn view(&self) -> HumanInDiscordView {
        HumanInDiscordView { user: self.user_id, channel: self.channel_id, pending: self.pending }
    }
}

impl HumanInDiscord {
    /// An instance with no question out.
    pub fn new(user_id: u64, channel_id: u64) -> (human: HumanInDiscord)
        ensures
            human@ == (HumanInDiscordView { user: user_id, channel: channel_id, pending: None }),
    {
        HumanInDiscord { user_id, channel_id, pending: None }
    }

    /// The designated human.
    pub fn user_id(&self) -> (user: u64)
        ensures
            user == self@.user,
    {
        self.user_id
    }

    /// The watched channel.
    pub fn channel_id(&self) -> (channel: u64)
        ensures
            channel == self@.channel,
    {
        self.channel_id
    }

    /// Whether a question is waiting for its answer.
    pub fn is_waiting(&self) -> (waiting: bool)
        ensures
            waiting == self@.pending is Some,
    {
        self.pending.is_some()
    }

    /// First step of asking: hands `question` back as the text to post, or
    /// refuses it while another question is waiting for its answer.
    pub fn ask<'a>(&self, question: &'a str) -> (text: Result<&'a str, AskError>)
        ensures
            self@.pending is None ==> text is Ok && text->Ok_0@ == question@,
            self@.pending is Some ==> text is Err && text->Err_0@ == AskErrorView::Busy,
    {
        if self.pending.is_some() {
            Err(AskError::Busy)
        } else {
            Ok(question)
        }
    }

    /// Second step of asking: opens the wait for the answer to the question
    /// posted as message `sent_id`. Where a question is waiting already,
    /// that wait stays as it is and the new one is refused.
    pub fn question_sent(&mut self, sent_id: u64) -> (opened: Result<(), AskError>)
        ensures
            old(self)@.pending is None ==> opened is Ok && final(self)@ == (HumanInDiscordView {
                pending: Some(sent_id),
                ..old(self)@
            }),
            old(self)@.pending is Some ==> opened is Err && opened->Err_0@ == AskErrorView::Busy
                && final(self)@ == old(self)@,
    {
        if self.pending.is_some() {
            Err(AskError::Busy)
        } else {
            self.pending = Some(sent_id);
            Ok(())
        }
    }

    /// Takes in a message that the platform delivered. A message that
    /// qualifies closes the wait and its content is the answer; any other
    /// message changes nothing.
    pub fn on_message(&mut self, message: &DiscordMessage) -> (answer: Option<String>)
        ensures
            (final(self)@, answer.deep_view()) == old(self)@.after_message(message@),
    {
        match self.pending {
            Some(after) => {
                if message.channel_id == self.channel_id && message.author_id == self.user_id
                    && message.id > after {
                    self.pending = None;
                    Some(message.content.clone())
                } else {
                    None
                }
            },
            None => None,
        }
    }

    /// Takes in that the caller's timer has gone off, `elapsed_ms` after the
    /// wait was opened. Where the deadline has passed, the wait is closed
    /// and the question has timed out; before that, and while no question
    /// is waiting, nothing changes.
    pub fn on_timer(&mut self, elapsed_ms: u64) -> (timeout: Option<AskError>)
        ensures
            (final(self)@, timeout.deep_view()) == old(self)@.after_timer(elapsed_ms as nat),
    {
        if self.pending.is_some() && elapsed_ms >= MAX_WAIT_MS {
            self.pending = None;
            Some(AskError::Timeout(Platform::Discord))
        } else {
            None
        }
    }
}

/// A message of the designated human in the watched channel that is strictly
/// newer than the waiting question is delivered as the answer, with exactly
/// its content, and closes the wait, so that nothing arriving later is
/// delivered for that question.
pub proof fn lemma_reply_is_delivered_once(
    human: HumanInDiscordView,
    after: u64,
    reply: DiscordMessageView,
    later: DiscordMessageView,
)
    requires
        human.pending == Some(after),
        reply.channel_id == human.channel,
        reply.author_id == human.user,
        reply.id > after,
    ensures
        human.after_message(reply).1 == Some(reply.content),
        human.after_message(reply).0.pending is None,
        human.after_message(reply).0.after_message(later) == (human.after_message(reply).0, None::<
            Seq<char>,
        >),
{
}

/// A message of another author, of another channel, or not strictly newer
/// than the waiting question is never delivered and leaves the wait open.
pub proof fn lemma_others_are_not_delivered(
    human: HumanInDiscordView,
    after: u64,
    message: DiscordMessageView,
)
    requires
        human.pending == Some(after),
        message.author_id != human.user || message.channel_id != human.channel || message.id
            <= after,
    ensures
        human.after_message(message) == (human, None::<Seq<char>>),
{
}

/// A question that no qualifying message answers times out once the
/// deadline has passed and not before: until then the timer leaves the wait
/// open, from then on it closes it with the timeout.
pub proof fn lemma_open_wait_times_out_at_deadline(
    human: HumanInDiscordView,
    after: u64,
    elapsed_ms: nat,
)
    requires
        human.pending == Some(after),
    ensures
        elapsed_ms < MAX_WAIT_MS ==> human.after_timer(elapsed_ms) == (human, None::<AskErrorView>),
        elapsed_ms >= MAX_WAIT_MS ==> human.after_timer(elapsed_ms) == (
            human.closed(),
            Some(AskErrorView::Timeout(Platform::Discord)),
        ),
{
}

} // verus!
