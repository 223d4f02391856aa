use human_in_the_loop::timing::{
    poll_interval_after, INITIAL_POLL_INTERVAL_MS, MAX_POLL_INTERVAL_MS, MAX_WAIT_MS,
};
use human_in_the_loop::rate_limit::{bytes_occur_in, is_rate_limit_text};

#[test]
fn rate_limit_word_is_recognised() {
    assert!(is_rate_limit_text("ratelimited"));
    assert!(is_rate_limit_text("Failed to get Slack messages: ratelimited"));
    assert!(is_rate_limit_text("xxratelimitedyy"));
    assert!(is_rate_limit_text("rateratelimited"));
}

#[test]
fn other_texts_are_not_rate_limits() {
    assert!(!is_rate_limit_text(""));
    assert!(!is_rate_limit_text("ratelimite"));
    assert!(!is_rate_limit_text("atelimited"));
    assert!(!is_rate_limit_text("rate limited"));
    assert!(!is_rate_limit_text("RATELIMITED"));
    assert!(!is_rate_limit_text("Failed to get Slack messages: channel_not_found"));
}

#[test]
fn substring_search_edge_cases() {
    assert!(bytes_occur_in(b"abc", b""));
    assert!(bytes_occur_in(b"", b""));
    assert!(!bytes_occur_in(b"", b"a"));
    assert!(!bytes_occur_in(b"ab", b"abc"));
    assert!(bytes_occur_in(b"abc", b"abc"));
    assert!(bytes_occur_in(b"abc", b"c"));
    assert!(bytes_occur_in(b"aab", b"ab"));
    assert!(!bytes_occur_in(b"abab", b"ba "));
}

#[test]
fn substring_search_agrees_with_the_standard_one() {
    let hays =
        ["", "a", "ab", "aab", "ratelimited", "rate", "xratelimitedx", "ratelimiteratelimited"];
    let needles = ["", "a", "ab", "b", "ratelimited", "limited", "x"];
    for hay in hays {
        for needle in needles {
            assert_eq!(bytes_occur_in(hay.as_bytes(), needle.as_bytes()), hay.contains(needle));
        }
    }
}

#[test]
fn design_values() {
    assert_eq!(INITIAL_POLL_INTERVAL_MS, 10_000);
    assert_eq!(MAX_POLL_INTERVAL_MS, 30_000);
    assert_eq!(MAX_WAIT_MS, 300_000);
}

#[test]
fn pause_runs_ten_twenty_thirty_seconds() {
    assert_eq!(poll_interval_after(0), 10_000);
    assert_eq!(poll_interval_after(1), 20_000);
    assert_eq!(poll_interval_after(2), 30_000);
}

#[test]
fn pause_stays_at_its_ceiling() {
    assert_eq!(poll_interval_after(3), 30_000);
    assert_eq!(poll_interval_after(4), 30_000);
    assert_eq!(poll_interval_after(64), 30_000);
    assert_eq!(poll_interval_after(u32::MAX), 30_000);
}

#[test]
fn pause_is_ten_seconds_doubled_and_capped() {
    let mut retries: u32 = 0;
    while retries < 40 {
        let doubled = 10_000u64 * 2u64.pow(retries.min(3));
        assert_eq!(poll_interval_after(retries), doubled.min(30_000));
        retries += 1;
    }
}
