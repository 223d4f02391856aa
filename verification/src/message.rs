//! Inbound messages and the rule that picks the reply among them.
//!
//! A message counts as the reply to a question when the designated human
//! wrote it and its position marker is strictly newer than the marker of the
//! question. What the message says plays no part. Among several such
//! messages the first in arrival order is the reply.

use vstd::prelude::*;
use crate::marker::{is_newer, marker_newer};

verus! {

/// One message as the platform lists it.
#[derive(Clone, Debug, PartialEq, Eq)]
pub struct SlackMessage {
    pub text: String,
    pub user: String,
    pub ts: String,
}

/// What the platform answers to a post or to a query.
#[derive(Clone, Debug, PartialEq, Eq)]
pub struct SlackResponse {
    pub ok: bool,
    pub channel: Option<String>,
    pub ts: Option<String>,
    pub messages: Option<Vec<SlackMessage>>,
    pub error: Option<String>,
}

/// A `SlackMessage` as a mathematical value.
pub struct SlackMessageView {
    pub text: Seq<char>,
    pub user: Seq<char>,
    pub ts: Seq<char>,
}

/// A `SlackResponse` as a mathematical value.
pub struct SlackResponseView {
    pub ok: bool,
    pub channel: Option<Seq<char>>,
    pub ts: Option<Seq<char>>,
    pub messages: Option<Seq<SlackMessageView>>,
    pub error: Option<Seq<char>>,
}

impl View for SlackMessage {
    type V = SlackMessageView;

    open spec fn view(&self) -> SlackMessageView {
        SlackMessageView { text: self.text@, user: self.user@, ts: self.ts@ }
    }
}

impl DeepView for SlackMessage {
    type V = SlackMessageView;

    open spec fn deep_view(&self) -> SlackMessageView {
        self@
    }
}

impl View for SlackResponse {
    type V = SlackResponseView;

    open spec fn view(&self) -> SlackResponseView {
        SlackResponseView {
            ok: self.ok,
            channel: self.channel.deep_view(),
            ts: self.ts.deep_view(),
            messages: self.messages.deep_view(),
            error: self.error.deep_view(),
        }
    }
}

impl DeepView for SlackResponse {
    type V = SlackResponseView;

    open spec fn deep_view(&self) -> SlackResponseView {
        self@
    }
}

/// The correlation rule: `message` is a reply to the question sent at marker
/// `after` when `user` wrote it and it is strictly newer than `after`.
pub open spec fn qualifies(message: SlackMessageView, user: Seq<char>, after: Seq<char>) -> bool {
    message.user == user && marker_newer(message.ts, after)
}

/// No message of `messages` qualifies.
pub open spec fn none_qualifies(
    messages: Seq<SlackMessageView>,
    user: Seq<char>,
    after: Seq<char>,
) -> bool {
    forall|j: int| 0 <= j < messages.len() ==> !qualifies(#[trigger] messages[j], user, after)
}

/// The message at index `i` qualifies and none before it does.
pub open spec fn is_first_qualifying(
    messages: Seq<SlackMessageView>,
    user: Seq<char>,
    after: Seq<char>,
    i: int,
) -> bool {
    &&& 0 <= i < messages.len()
    &&& qualifies(messages[i], user, after)
    &&& none_qualifies(messages.take(i), user, after)
}

/// The text of the first qualifying message of `messages`, if there is one.
pub open spec fn reply_in(
    messages: Seq<SlackMessageView>,
    user: Seq<char>,
    after: Seq<char>,
) -> Option<Seq<char>> {
    if exists|i: int| is_first_qualifying(messages, user, after, i) {
        Some(messages[choose|i: int| is_first_qualifying(messages, user, after, i)].text)
    } else {
        None
    }
}

/// The first qualifying message is the reply, whatever follows it.
pub proof fn lemma_first_qualifying_is_reply(
    messages: Seq<SlackMessageView>,
    user: Seq<char>,
    after: Seq<char>,
    i: int,
)
    requires
        is_first_qualifying(messages, user, after, i),
    ensures
        reply_in(messages, user, after) == Some(messages[i].text),
{
    let c = choose|c: int| is_first_qualifying(messages, user, after, c);
    if c < i {
        assert(messages.take(i)[c] == messages[c]);
    } else if i < c {
        assert(messages.take(c)[i] == messages[i]);
    }
}

/// Where no message qualifies there is no reply.
pub proof fn lemma_no_qualifying_no_reply(
    messages: Seq<SlackMessageView>,
    user: Seq<char>,
    after: Seq<char>,
)
    requires
        none_qualifies(messages, user, after),
    ensures
        reply_in(messages, user, after) is None,
{
}

/// Whether `message` qualifies as a reply from `user_id` to the question sent
/// at marker `after_ts`.
pub fn message_qualifies(message: &SlackMessage, user_id: &String, after_ts: &String) -> (r: bool)
    ensures
        r == qualifies(message@, user_id@, after_ts@),
{
    message.user == *user_id && is_newer(message.ts.as_str(), after_ts.as_str())
}

/// Scans `messages` in arrival order and returns the text of the first one
/// that qualifies.
pub fn find_reply(messages: &Vec<SlackMessage>, user_id: &String, after_ts: &String) -> (reply:
    Option<String>)
    ensures
        reply.deep_view() == reply_in(messages.deep_view(), user_id@, after_ts@),
{
    let ghost views = messages.deep_view();
    let mut i: usize = 0;
    while i < messages.len()
        invariant
            i <= messages.len(),
            views == messages.deep_view(),
            none_qualifies(views.take(i as int), user_id@, after_ts@),
        decreases messages.len() - i,
    {
        if message_qualifies(&messages[i], user_id, after_ts) {
            proof {
                lemma_first_qualifying_is_reply(views, user_id@, after_ts@, i as int);
            }
            return Some(messages[i].text.clone());
        }
        assert(none_qualifies(views.take(i + 1), user_id@, after_ts@)) by {
            assert(views.take(i + 1).drop_last() =~= views.take(i as int));
        }
        i += 1;
    }
    proof {
        assert(views.take(i as int) =~= views);
        lemma_no_qualifying_no_reply(views, user_id@, after_ts@);
    }
    None
}

} // verus!
