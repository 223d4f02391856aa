use human_in_the_loop::message::{find_reply, message_qualifies, SlackMessage};

fn message(user: &str, ts: &str, text: &str) -> SlackMessage {
    SlackMessage { text: text.to_string(), user: user.to_string(), ts: ts.to_string() }
}

#[test]
fn reply_of_the_designated_human_qualifies() {
    let m = message("U1", "200", "yes");
    assert!(message_qualifies(&m, &"U1".to_string(), &"100".to_string()));
}

#[test]
fn message_of_another_author_does_not_qualify() {
    let m = message("U2", "200", "yes");
    assert!(!message_qualifies(&m, &"U1".to_string(), &"100".to_string()));
}

#[test]
fn message_at_the_bound_or_older_does_not_qualify() {
    let user = "U1".to_string();
    let after = "100".to_string();
    assert!(!message_qualifies(&message("U1", "100", "echo"), &user, &after));
    assert!(!message_qualifies(&message("U1", "099", "old"), &user, &after));
}

#[test]
fn content_plays_no_part() {
    let user = "U1".to_string();
    let after = "100".to_string();
    assert!(message_qualifies(&message("U1", "101", ""), &user, &after));
    assert!(message_qualifies(&message("U1", "101", "<@U1> Proceed?"), &user, &after));
}

#[test]
fn first_qualifying_message_wins() {
    let messages = vec![
        message("U2", "150", "not me"),
        message("U1", "100", "echo"),
        message("U1", "160", "first"),
        message("U1", "170", "second"),
    ];
    let reply = find_reply(&messages, &"U1".to_string(), &"100".to_string());
    assert_eq!(reply, Some("first".to_string()));
}

#[test]
fn arrival_order_decides_not_the_marker() {
    let messages =
        vec![message("U1", "170", "listed first"), message("U1", "160", "listed second")];
    let reply = find_reply(&messages, &"U1".to_string(), &"100".to_string());
    assert_eq!(reply, Some("listed first".to_string()));
}

#[test]
fn no_qualifying_message_no_reply() {
    let messages =
        vec![message("U2", "150", "a"), message("U1", "100", "b"), message("U3", "999", "c")];
    assert_eq!(find_reply(&messages, &"U1".to_string(), &"100".to_string()), None);
    assert_eq!(find_reply(&Vec::new(), &"U1".to_string(), &"100".to_string()), None);
}
