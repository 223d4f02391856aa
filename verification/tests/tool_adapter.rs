use human_in_the_loop::error::{AskError, Platform};
use human_in_the_loop::tool::{ToolAdapter, ToolResult};

#[test]
fn missing_question_is_refused() {
    let mut adapter = ToolAdapter::new();
    assert_eq!(adapter.accept(None), Err(AskError::Validation));
    assert!(!adapter.in_flight());
}

#[test]
fn empty_question_is_refused() {
    let mut adapter = ToolAdapter::new();
    assert_eq!(adapter.accept(Some("")), Err(AskError::Validation));
    assert!(!adapter.in_flight());
}

#[test]
fn question_is_let_through_unchanged() {
    let mut adapter = ToolAdapter::new();
    assert_eq!(adapter.accept(Some(" Proceed? ")), Ok(" Proceed? "));
    assert!(adapter.in_flight());
}

#[test]
fn overlapping_question_is_refused() {
    let mut adapter = ToolAdapter::new();
    assert_eq!(adapter.accept(Some("First?")), Ok("First?"));
    assert_eq!(adapter.accept(Some("Second?")), Err(AskError::Busy));
    assert!(adapter.in_flight());
}

#[test]
fn empty_question_is_a_validation_error_even_while_busy() {
    let mut adapter = ToolAdapter::new();
    assert_eq!(adapter.accept(Some("First?")), Ok("First?"));
    assert_eq!(adapter.accept(Some("")), Err(AskError::Validation));
    assert_eq!(adapter.accept(None), Err(AskError::Validation));
    assert!(adapter.in_flight());
}

#[test]
fn answer_is_handed_on_unchanged() {
    let mut adapter = ToolAdapter::new();
    adapter.accept(Some("Proceed?")).unwrap();
    let output = adapter.complete(Ok("  yes\n".to_string()));
    assert_eq!(output, ToolResult { is_error: false, text: "  yes\n".to_string() });
    assert!(!adapter.in_flight());
    assert_eq!(adapter.accept(Some("Next?")), Ok("Next?"));
}

#[test]
fn failure_is_handed_on_as_an_error() {
    let mut adapter = ToolAdapter::new();
    adapter.accept(Some("Proceed?")).unwrap();
    let output = adapter.complete(Err(AskError::Timeout(Platform::Slack)));
    assert_eq!(
        output,
        ToolResult { is_error: true, text: "Timeout waiting for human reply in Slack".to_string() }
    );
    assert!(!adapter.in_flight());
}

#[test]
fn refusal_is_rendered_without_touching_the_question_in_flight() {
    let mut adapter = ToolAdapter::new();
    adapter.accept(Some("First?")).unwrap();
    let refusal = adapter.accept(Some("Second?")).map(|q| q.to_string());
    let output = ToolAdapter::render(refusal);
    assert_eq!(
        output,
        ToolResult {
            is_error: true,
            text: "another question is still waiting for its answer".to_string()
        }
    );
    assert!(adapter.in_flight());
}

#[test]
fn every_error_has_its_text() {
    assert_eq!(AskError::Validation.message(), "question must be a non-empty string");
    assert_eq!(AskError::Busy.message(), "another question is still waiting for its answer");
    assert_eq!(AskError::Transport("invalid_auth".to_string()).message(), "invalid_auth");
    assert_eq!(AskError::Transport(String::new()).message(), "");
    assert_eq!(
        AskError::Timeout(Platform::Slack).message(),
        "Timeout waiting for human reply in Slack"
    );
    assert_eq!(
        AskError::Timeout(Platform::Discord).message(),
        "Timeout waiting for human reply in Discord"
    );
}
