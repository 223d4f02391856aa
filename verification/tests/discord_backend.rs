use human_in_the_loop::discord::{DiscordMessage, HumanInDiscord};
use human_in_the_loop::error::{AskError, Platform};

const USER: u64 = 7;
const CHANNEL: u64 = 42;

fn message(id: u64, channel_id: u64, author_id: u64, content: &str) -> DiscordMessage {
    DiscordMessage { id, channel_id, author_id, content: content.to_string() }
}

fn waiting_after(sent_id: u64) -> HumanInDiscord {
    let mut human = HumanInDiscord::new(USER, CHANNEL);
    assert_eq!(human.question_sent(sent_id), Ok(()));
    human
}

#[test]
fn new_instance_waits_for_nothing() {
    let human = HumanInDiscord::new(USER, CHANNEL);
    assert_eq!(human.user_id(), USER);
    assert_eq!(human.channel_id(), CHANNEL);
    assert!(!human.is_waiting());
}

#[test]
fn reply_is_delivered_and_closes_the_wait() {
    let mut human = waiting_after(1000);
    assert!(human.is_waiting());
    assert_eq!(human.on_message(&message(1001, CHANNEL, USER, "yes")), Some("yes".to_string()));
    assert!(!human.is_waiting());
}

#[test]
fn only_the_first_reply_is_delivered() {
    let mut human = waiting_after(1000);
    assert_eq!(human.on_message(&message(1001, CHANNEL, USER, "first")), Some("first".to_string()));
    assert_eq!(human.on_message(&message(1002, CHANNEL, USER, "second")), None);
}

#[test]
fn message_of_another_author_is_not_delivered() {
    let mut human = waiting_after(1000);
    assert_eq!(human.on_message(&message(1001, CHANNEL, USER + 1, "no")), None);
    assert!(human.is_waiting());
    assert_eq!(human.on_message(&message(1002, CHANNEL, USER, "yes")), Some("yes".to_string()));
}

#[test]
fn message_of_another_channel_is_not_delivered() {
    let mut human = waiting_after(1000);
    assert_eq!(human.on_message(&message(1001, CHANNEL + 1, USER, "elsewhere")), None);
    assert!(human.is_waiting());
}

#[test]
fn message_at_the_bound_or_older_is_not_delivered() {
    let mut human = waiting_after(1000);
    assert_eq!(human.on_message(&message(1000, CHANNEL, USER, "echo")), None);
    assert_eq!(human.on_message(&message(999, CHANNEL, USER, "old")), None);
    assert_eq!(human.on_message(&message(0, CHANNEL, USER, "oldest")), None);
    assert!(human.is_waiting());
}

#[test]
fn nothing_is_delivered_while_no_question_waits() {
    let mut human = HumanInDiscord::new(USER, CHANNEL);
    assert_eq!(human.on_message(&message(1001, CHANNEL, USER, "unasked")), None);
    assert!(!human.is_waiting());
}

#[test]
fn question_is_handed_back_as_the_text_to_post() {
    let human = HumanInDiscord::new(USER, CHANNEL);
    assert_eq!(human.ask("Proceed?"), Ok("Proceed?"));
    assert_eq!(human.ask(""), Ok(""));
}

#[test]
fn question_is_refused_while_another_one_waits() {
    let mut human = waiting_after(1000);
    assert_eq!(human.ask("Proceed?"), Err(AskError::Busy));
    assert_eq!(human.on_message(&message(1001, CHANNEL, USER, "yes")), Some("yes".to_string()));
    assert_eq!(human.ask("Proceed?"), Ok("Proceed?"));
}

#[test]
fn second_wait_is_refused_while_one_is_open() {
    let mut human = waiting_after(1000);
    assert_eq!(human.question_sent(2000), Err(AskError::Busy));
    // the first wait is as it was
    assert_eq!(human.on_message(&message(1500, CHANNEL, USER, "yes")), Some("yes".to_string()));
    assert_eq!(human.question_sent(2000), Ok(()));
    assert_eq!(human.on_message(&message(1999, CHANNEL, USER, "stale")), None);
}

#[test]
fn deadline_closes_the_wait_with_a_timeout() {
    let mut human = waiting_after(1000);
    assert_eq!(human.on_timer(300_000), Some(AskError::Timeout(Platform::Discord)));
    assert!(!human.is_waiting());
    assert_eq!(human.on_message(&message(1001, CHANNEL, USER, "too late")), None);
    assert_eq!(human.question_sent(3000), Ok(()));
}

#[test]
fn timer_before_the_deadline_leaves_the_wait_open() {
    let mut human = waiting_after(1000);
    assert_eq!(human.on_timer(0), None);
    assert_eq!(human.on_timer(299_999), None);
    assert!(human.is_waiting());
    assert_eq!(human.on_message(&message(1001, CHANNEL, USER, "yes")), Some("yes".to_string()));
}

#[test]
fn timer_without_a_question_reports_nothing() {
    let mut human = HumanInDiscord::new(USER, CHANNEL);
    assert_eq!(human.on_timer(u64::MAX), None);
    assert!(!human.is_waiting());
}

#[test]
fn answered_question_does_not_time_out() {
    let mut human = waiting_after(1000);
    assert_eq!(human.on_message(&message(1001, CHANNEL, USER, "yes")), Some("yes".to_string()));
    assert_eq!(human.on_timer(300_000), None);
}

#[test]
fn largest_marker_can_never_be_answered() {
    let mut human = waiting_after(u64::MAX);
    assert_eq!(human.on_message(&message(u64::MAX, CHANNEL, USER, "echo")), None);
    assert!(human.is_waiting());
}
