//! The tool adapter.
//!
//! The adapter stands between the tool protocol and a backend. It checks
//! the question before anything is sent, lets one question through at a
//! time, and hands the backend's result on as it is: the answer as the
//! tool's result, a failure as the tool's error with the failure's text.

use vstd::prelude::*;
use crate::error::{AskError, AskErrorView};

verus! {

/// The result of a tool call in the shape of the tool protocol.
#[derive(Clone, Debug, PartialEq, Eq)]
pub struct ToolResult {
    pub is_error: bool,
    pub text: String,
}

/// A `ToolResult` as a mathematical value.
pub struct ToolResultView {
    pub is_error: bool,
    pub text: Seq<char>,
}

impl View for ToolResult {
    type V = ToolResultView;

    open spec fn view(&self) -> ToolResultView {
        ToolResultView { is_error: self.is_error, text: self.text@ }
    }
}

/// What becomes of a tool call that arrives with `question` while a question
/// is or is not in flight: refused for a missing or empty question, refused
/// while another one is in flight, let through otherwise.
pub open spec fn admission(in_flight: bool, question: Option<Seq<char>>) -> Result<
    Seq<char>,
    AskErrorView,
> {
    match question {
        None => Err(AskErrorView::Validation),
        Some(text) => if text.len() == 0 {
            Err(AskErrorView::Validation)
        } else if in_flight {
            Err(AskErrorView::Busy)
        } else {
            Ok(text)
        },
    }
}

/// The tool result that stands for the result of asking.
pub open spec fn tool_result(result: Result<Seq<char>, AskErrorView>) -> ToolResultView {
    match result {
        Ok(answer) => ToolResultView { is_error: false, text: answer },
        Err(error) => ToolResultView { is_error: true, text: error.message() },
    }
}

/// The view of the result of asking.
pub open spec fn ask_result_view(result: Result<String, AskError>) -> Result<
    Seq<char>,
    AskErrorView,
> {
    match result {
        Ok(answer) => Ok(answer@),
        Err(error) => Err(error@),
    }
}

/// Lets one question through at a time.
#[derive(Debug)]
pub struct ToolAdapter {
    in_flight: bool,
}

impl View for ToolAdapter {
    type V = bool;

    closed spec fn view(&self) -> bool {
        self.in_flight
    }
}

impl ToolAdapter {
    /// An adapter with no question in flight.
    pub fn new() -> (adapter: ToolAdapter)
        ensures
            !adapter@,
    {
        ToolAdapter { in_flight: false }
    }

    /// Whether a question is in flight.
    pub fn in_flight(&self) -> (busy: bool)
        ensures
            busy == self@,
    {
        self.in_flight
    }

    /// Takes in a tool call. A question that is let through is in flight
    /// from now on and is handed back for the backend; a call that is
    /// refused changes nothing.
    pub fn accept<'a>(&mut self, question: Option<&'a str>) -> (admitted: Result<&'a str, AskError>)
        ensures
            match admission(old(self)@, question.deep_view()) {
                Ok(text) => admitted is Ok && admitted->Ok_0@ == text && final(self)@,
                Err(error) => admitted is Err && admitted->Err_0@ == error && final(self)@ == old(
                    self,
                )@,
            },
    {
        match question {
            None => Err(AskError::Validation),
            Some(text) => {
                if text.is_empty() {
                    Err(AskError::Validation)
                } else if self.in_flight {
                    Err(AskError::Busy)
                } else {
                    self.in_flight = true;
                    Ok(text)
                }
            },
        }
    }

    /// Takes in the backend's result for the question in flight and gives
    /// the tool result for it. No question is in flight afterwards.
    pub fn complete(&mut self, result: Result<String, AskError>) -> (output: ToolResult)
        ensures
            !final(self)@,
            output@ == tool_result(ask_result_view(result)),
    {
        self.in_flight = false;
        ToolAdapter::render(result)
    }

    /// The tool result that stands for the result of asking: the answer
    /// unchanged, or the text of the failure as an error.
    pub fn render(result: Result<String, AskError>) -> (output: ToolResult)
        ensures
            output@ == tool_result(ask_result_view(result)),
    {
        match result {
            Ok(answer) => ToolResult { is_error: false, text: answer },
            Err(error) => ToolResult { is_error: true, text: error.message() },
        }
    }
}

/// One question at a time: while a question is in flight every tool call is
/// refused, and a call that is let through puts its question in flight.
pub proof fn lemma_one_question_at_a_time(in_flight: bool, question: Option<Seq<char>>)
    ensures
        in_flight ==> admission(in_flight, question) is Err,
        admission(in_flight, question) is Ok ==> !in_flight && question == Some(
            admission(in_flight, question)->Ok_0,
        ) && admission(in_flight, question)->Ok_0.len() > 0,
{
}

} // verus!
