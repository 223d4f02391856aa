//! The ways in which asking a human can fail.

use vstd::prelude::*;

verus! {

/// The chat platform through which the human is reached.
#[derive(Clone, Copy, Debug, PartialEq, Eq, Structural)]
pub enum Platform {
    Slack,
    Discord,
}

/// Why a question got no answer.
#[derive(Clone, Debug, PartialEq, Eq)]
pub enum AskError {
    /// The question was missing or empty; nothing was sent.
    Validation,
    /// Another question is still waiting for its answer; nothing was sent.
    Busy,
    /// A send or a query failed. Holds what the platform or the transport
    /// said about it.
    Transport(String),
    /// No qualifying reply arrived before the deadline.
    Timeout(Platform),
}

/// An `AskError` as a mathematical value.
pub enum AskErrorView {
    Validation,
    Busy,
    Transport(Seq<char>),
    Timeout(Platform),
}

impl AskErrorView {
    /// The text shown for this error.
    pub open spec fn message(self) -> Seq<char> {
        match self {
            AskErrorView::Validation => "question must be a non-empty string"@,
            AskErrorView::Busy => "another question is still waiting for its answer"@,
            AskErrorView::Transport(text) => text,
            AskErrorView::Timeout(Platform::Slack) => "Timeout waiting for human reply in Slack"@,
            AskErrorView::Timeout(Platform::Discord) => {
                "Timeout waiting for human reply in Discord"@
            },
        }
    }
}

impl View for AskError {
    type V = AskErrorView;

    open spec fn view(&self) -> AskErrorView {
        match self {
            AskError::Validation => AskErrorView::Validation,
            AskError::Busy => AskErrorView::Busy,
            AskError::Transport(text) => AskErrorView::Transport(text@),
            AskError::Timeout(platform) => AskErrorView::Timeout(*platform),
        }
    }
}

impl DeepView for AskError {
    type V = AskErrorView;

    open spec fn deep_view(&self) -> AskErrorView {
        self@
    }
}

impl AskError {
    /// The text shown for this error.
    pub fn message(&self) -> (text: String)
        ensures
            text@ == self@.message(),
    {
        match self {
            AskError::Validation => "question must be a non-empty string".to_owned(),
            AskError::Busy => "another question is still waiting for its answer".to_owned(),
            AskError::Transport(text) => text.clone(),
            AskError::Timeout(Platform::Slack) => {
                "Timeout waiting for human reply in Slack".to_owned()
            },
            AskError::Timeout(Platform::Discord) => {
                "Timeout waiting for human reply in Discord".to_owned()
            },
        }
    }
}

} // verus!
