//! The polling backend.
//!
//! `HumanInSlack` holds what one running instance knows: the credentials, the
//! channel, the designated human and, from the first question on, the thread.
//! Asking goes in steps. `ask` gives the request that posts the question;
//! `question_sent` takes in the platform's answer to it and opens the wait;
//! `poll` gives the request for each query of that wait. The caller performs
//! the requests and feeds the wait with what the queries come to.

use vstd::prelude::*;
use crate::error::{AskError, AskErrorView};
pub use crate::message::{SlackMessage, SlackResponse};
use crate::message::{SlackMessageView, SlackResponseView};
use crate::thread::{established, ThreadIdentity};
use crate::wait::{ReplyWaitState, ReplyWaitView};

verus! {

/// A call of the platform's web interface: the address to post to and the
/// fields of the form, in order.
#[derive(Clone, Debug, PartialEq, Eq)]
pub struct SlackRequest {
    pub url: String,
    pub form: Vec<(String, String)>,
}

/// A `SlackRequest` as a mathematical value.
pub struct SlackRequestView {
    pub url: Seq<char>,
    pub form: Seq<(Seq<char>, Seq<char>)>,
}

impl View for SlackRequest {
    type V = SlackRequestView;

    open spec fn view(&self) -> SlackRequestView {
        SlackRequestView { url: self.url@, form: self.form.deep_view() }
    }
}

/// The request that posts `text` to `channel`, into the thread `thread` if
/// there is one.
pub open spec fn post_message_request(
    token: Seq<char>,
    channel: Seq<char>,
    text: Seq<char>,
    thread: Option<Seq<char>>,
) -> SlackRequestView {
    let form = seq![("token"@, token), ("channel"@, channel), ("text"@, text)];
    SlackRequestView {
        url: "https://slack.com/api/chat.postMessage"@,
        form: match thread {
            Some(ts) => form.push(("thread_ts"@, ts)),
            None => form,
        },
    }
}

/// The request that lists the messages newer than `after`: those of the
/// thread `thread` if there is one, those of `channel` otherwise.
pub open spec fn messages_after_request(
    token: Seq<char>,
    channel: Seq<char>,
    after: Seq<char>,
    thread: Option<Seq<char>>,
) -> SlackRequestView {
    let form = seq![
        ("token"@, token),
        ("channel"@, channel),
        ("oldest"@, after),
        ("limit"@, "100"@),
    ];
    match thread {
        Some(ts) => SlackRequestView {
            url: "https://slack.com/api/conversations.replies"@,
            form: form.push(("ts"@, ts)),
        },
        None => SlackRequestView { url: "https://slack.com/api/conversations.history"@, form },
    }
}

/// What a call came to, as a mathematical value: the platform's answer, or
/// what the transport said when it failed.
pub type CallResultView = Result<SlackResponseView, Seq<char>>;

/// The view of a call's result.
pub open spec fn call_result_view(outcome: Result<SlackResponse, String>) -> CallResultView {
    match outcome {
        Ok(response) => Ok(response@),
        Err(text) => Err(text@),
    }
}

/// The error code of an answer that the platform marked as failed.
pub open spec fn error_code(response: SlackResponseView) -> Seq<char> {
    match response.error {
        Some(code) => code,
        None => "Unknown error"@,
    }
}

/// The marker of a posted message, read from what the post came to.
pub open spec fn sent_marker(outcome: CallResultView) -> Result<Seq<char>, Seq<char>> {
    match outcome {
        Err(text) => Err(text),
        Ok(response) => if response.ok {
            Ok(
                match response.ts {
                    Some(ts) => ts,
                    None => Seq::empty(),
                },
            )
        } else {
            Err("Failed to send Slack message: "@ + error_code(response))
        },
    }
}

/// The messages listed, read from what the query came to.
pub open spec fn listed_messages(outcome: CallResultView) -> Result<
    Seq<SlackMessageView>,
    Seq<char>,
> {
    match outcome {
        Err(text) => Err(text),
        Ok(response) => if response.ok {
            Ok(
                match response.messages {
                    Some(messages) => messages,
                    None => Seq::empty(),
                },
            )
        } else {
            Err("Failed to get Slack messages: "@ + error_code(response))
        },
    }
}

/// The text of a question as it is posted: the mention of the designated
/// human, a space, the question.
pub open spec fn mention_text(user: Seq<char>, question: Seq<char>) -> Seq<char> {
    "<@"@ + user + "> "@ + question
}

/// One running instance that asks its questions in a channel and finds the
/// answers by polling.
pub struct HumanInSlack {
    token: String,
    channel_id: String,
    user_id: String,
    thread_ts: ThreadIdentity,
}

/// A `HumanInSlack` as a mathematical value.
pub struct HumanInSlackView {
    pub token: Seq<char>,
    pub channel: Seq<char>,
    pub user: Seq<char>,
    pub thread: Option<Seq<char>>,
}

impl HumanInSlackView {
    /// The request that posts `question`.
    pub open spec fn ask_request(self, question: Seq<char>) -> SlackRequestView {
        post_message_request(
            self.token,
            self.channel,
            mention_text(self.user, question),
            self.thread,
        )
    }

    /// The instance once a question has been posted at `marker`.
    pub open spec fn after_sent(self, marker: Seq<char>) -> HumanInSlackView {
        HumanInSlackView { thread: established(self.thread, marker), ..self }
    }

    /// The request for a query of the wait that started at `after`.
    pub open spec fn poll_request(self, after: Seq<char>) -> SlackRequestView {
        messages_after_request(self.token, self.channel, after, self.thread)
    }
}

impl View for HumanInSlack {
    type V = HumanInSlackView;

    closed spec fn view(&self) -> HumanInSlackView {
        HumanInSlackView {
            token: self.token@,
            channel: self.channel_id@,
            user: self.user_id@,
            thread: self.thread_ts@,
        }
    }
}

fn field(name: &str, value: &str) -> (pair: (String, String))
    ensures
        pair.deep_view() == (name@, value@),
{
    (name.to_owned(), value.to_owned())
}

fn failure_text(prefix: &str, error: Option<String>) -> (text: String)
    ensures
        text@ == prefix@ + match error.deep_view() {
            Some(code) => code,
            None => "Unknown error"@,
        },
{
    let mut text = prefix.to_owned();
    match error {
        Some(code) => text.append(code.as_str()),
        None => text.append("Unknown error"),
    }
    text
}

impl HumanInSlack {
    /// An instance that has asked nothing yet.
    pub fn new(token: String, channel_id: String, user_id: String) -> (human: HumanInSlack)
        ensures
            human@ == (HumanInSlackView {
                token: token@,
                channel: channel_id@,
                user: user_id@,
                thread: None,
            }),
    {
        HumanInSlack { token, channel_id, user_id, thread_ts: ThreadIdentity::new() }
    }

    /// The channel that the questions go to.
    pub fn channel_id(&self) -> (channel: &String)
        ensures
            channel@ == self@.channel,
    {
        &self.channel_id
    }

    /// The designated human.
    pub fn user_id(&self) -> (user: &String)
        ensures
            user@ == self@.user,
    {
        &self.user_id
    }

    /// The thread of this instance, once its first question has been posted.
    pub fn thread_ts(&self) -> (thread: Option<&String>)
        ensures
            thread.deep_view() == self@.thread,
    {
        self.thread_ts.get()
    }

    /// The request that posts `text`, into the thread `thread_ts` if one is
    /// given.
    pub fn send_message(&self, text: &str, thread_ts: Option<&str>) -> (request: SlackRequest)
        ensures
            request@ == post_message_request(
                self@.token,
                self@.channel,
                text@,
                thread_ts.deep_view(),
            ),
    {
        let mut form: Vec<(String, String)> = Vec::new();
        form.push(field("token", self.token.as_str()));
        form.push(field("channel", self.channel_id.as_str()));
        form.push(field("text", text));
        match thread_ts {
            Some(ts) => form.push(field("thread_ts", ts)),
            None => {},
        }
        let url = "https://slack.com/api/chat.postMessage".to_owned();
        let request = SlackRequest { url, form };
        assert(request@.form =~= post_message_request(
            self@.token,
            self@.channel,
            text@,
            thread_ts.deep_view(),
        ).form);
        request
    }

    /// Reads the marker of the posted message from what the post came to.
    ///
    /// A transport failure is handed on as it is. An answer that the
    /// platform marked as failed becomes a failure that names its error
    /// code. An answer without a marker gives the empty marker.
    pub fn send_message_result(outcome: Result<SlackResponse, String>) -> (marker: Result<
        String,
        String,
    >)
        ensures
            match sent_marker(call_result_view(outcome)) {
                Ok(ts) => marker is Ok && marker->Ok_0@ == ts,
                Err(text) => marker is Err && marker->Err_0@ == text,
            },
    {
        match outcome {
            Err(text) => Err(text),
            Ok(response) => {
                if !response.ok {
                    Err(failure_text("Failed to send Slack message: ", response.error))
                } else {
                    match response.ts {
                        Some(ts) => Ok(ts),
                        None => Ok(String::new()),
                    }
                }
            },
        }
    }

    /// The request that lists the messages newer than `after_ts`: those of
    /// the thread `thread_ts` if one is given, those of the channel
    /// otherwise.
    pub fn get_messages_after(&self, after_ts: &str, thread_ts: Option<&str>) -> (request:
        SlackRequest)
        ensures
            request@ == messages_after_request(
                self@.token,
                self@.channel,
                after_ts@,
                thread_ts.deep_view(),
            ),
    {
        let mut form: Vec<(String, String)> = Vec::new();
        form.push(field("token", self.token.as_str()));
        form.push(field("channel", self.channel_id.as_str()));
        form.push(field("oldest", after_ts));
        form.push(field("limit", "100"));
        let url = match thread_ts {
            Some(ts) => {
                form.push(field("ts", ts));
                "https://slack.com/api/conversations.replies".to_owned()
            },
            None => "https://slack.com/api/conversations.history".to_owned(),
        };
        let request = SlackRequest { url, form };
        assert(request@.form =~= messages_after_request(
            self@.token,
            self@.channel,
            after_ts@,
            thread_ts.deep_view(),
        ).form);
        request
    }

    /// Reads the messages listed from what the query came to.
    ///
    /// A transport failure is handed on as it is. An answer that the
    /// platform marked as failed becomes a failure that names its error
    /// code. An answer without a list gives the empty list.
    pub fn get_messages_after_result(outcome: Result<SlackResponse, String>) -> (messages: Result<
        Vec<SlackMessage>,
        String,
    >)
        ensures
            match listed_messages(call_result_view(outcome)) {
                Ok(listed) => messages is Ok && messages->Ok_0.deep_view() == listed,
                Err(text) => messages is Err && messages->Err_0@ == text,
            },
    {
        match outcome {
            Err(text) => Err(text),
            Ok(response) => {
                if !response.ok {
                    Err(failure_text("Failed to get Slack messages: ", response.error))
                } else {
                    match response.messages {
                        Some(messages) => Ok(messages),
                        None => Ok(Vec::new()),
                    }
                }
            },
        }
    }

    /// The text of `question` as it is posted.
    pub fn message_text(&self, question: &str) -> (text: String)
        ensures
            text@ == mention_text(self@.user, question@),
    {
        let mut text = "<@".to_owned();
        text.append(self.user_id.as_str());
        text.append("> ");
        text.append(question);
        text
    }

    /// First step of asking: the request that posts `question`, into this
    /// instance's thread if it has one.
    pub fn ask(&self, question: &str) -> (request: SlackRequest)
        ensures
            request@ == self@.ask_request(question@),
    {
        let text = self.message_text(question);
        match self.thread_ts.get() {
            Some(ts) => self.send_message(text.as_str(), Some(ts.as_str())),
            None => self.send_message(text.as_str(), None),
        }
    }

    /// Second step of asking: takes in what the post came to and opens the
    /// wait for the reply.
    ///
    /// Where the post failed, so does the question, and the instance is as
    /// it was. Where it went through, its marker is the lower bound of the
    /// wait, and becomes the thread of this instance if it has none yet.
    pub fn question_sent(&mut self, outcome: Result<SlackResponse, String>) -> (wait: Result<
        ReplyWaitState,
        AskError,
    >)
        ensures
            match sent_marker(call_result_view(outcome)) {
                Ok(ts) => {
                    &&& final(self)@ == old(self)@.after_sent(ts)
                    &&& wait is Ok
                    &&& wait->Ok_0@ == (ReplyWaitView {
                        after: ts,
                        user: old(self)@.user,
                        retries: 0,
                    })
                },
                Err(text) => {
                    &&& final(self)@ == old(self)@
                    &&& wait is Err
                    &&& wait->Err_0@ == AskErrorView::Transport(text)
                },
            },
    {
        match HumanInSlack::send_message_result(outcome) {
            Err(text) => Err(AskError::Transport(text)),
            Ok(ts) => {
                let _ = self.thread_ts.set(ts.clone());
                Ok(ReplyWaitState::new(ts, self.user_id.clone()))
            },
        }
    }

    /// The request for a query of `wait`: for the messages newer than its
    /// question, in this instance's thread if it has one.
    pub fn poll(&self, wait: &ReplyWaitState) -> (request: SlackRequest)
        ensures
            request@ == self@.poll_request(wait@.after),
    {
        match self.thread_ts.get() {
            Some(ts) => self.get_messages_after(wait.after_ts().as_str(), Some(ts.as_str())),
            None => self.get_messages_after(wait.after_ts().as_str(), None),
        }
    }
}

/// The thread identity is set by the first question and never overwritten:
/// on an instance that has asked nothing yet, two questions in a row leave
/// the marker of the first as the thread, the second is posted into that
/// thread, and the queries of both waits are for that thread.
pub proof fn lemma_questions_share_thread(
    human: HumanInSlackView,
    first_question: Seq<char>,
    first_marker: Seq<char>,
    second_question: Seq<char>,
    second_marker: Seq<char>,
)
    requires
        human.thread is None,
    ensures
        ({
            let once = human.after_sent(first_marker);
            let twice = once.after_sent(second_marker);
            &&& once.thread == Some(first_marker)
            &&& twice.thread == Some(first_marker)
            &&& human.ask_request(first_question) == post_message_request(
                human.token,
                human.channel,
                mention_text(human.user, first_question),
                None,
            )
            &&& once.ask_request(second_question) == post_message_request(
                human.token,
                human.channel,
                mention_text(human.user, second_question),
                Some(first_marker),
            )
            &&& once.poll_request(first_marker) == messages_after_request(
                human.token,
                human.channel,
                first_marker,
                Some(first_marker),
            )
            &&& twice.poll_request(second_marker) == messages_after_request(
                human.token,
                human.channel,
                second_marker,
                Some(first_marker),
            )
        }),
{
}

/// An instance that has a thread keeps it, whatever is posted afterwards.
pub proof fn lemma_thread_never_overwritten(human: HumanInSlackView, marker: Seq<char>)
    requires
        human.thread is Some,
    ensures
        human.after_sent(marker).thread == human.thread,
{
}

} // verus!
