use human_in_the_loop::marker::{bytes_precede, is_newer};

#[test]
fn later_timestamp_is_newer() {
    assert!(is_newer("1700000000.000200", "1700000000.000100"));
    assert!(!is_newer("1700000000.000100", "1700000000.000200"));
}

#[test]
fn equal_marker_is_not_newer() {
    assert!(!is_newer("1700000000.000100", "1700000000.000100"));
    assert!(!is_newer("", ""));
}

#[test]
fn extension_is_newer_than_its_prefix() {
    assert!(is_newer("12", "1"));
    assert!(!is_newer("1", "12"));
    assert!(is_newer("0", ""));
    assert!(!is_newer("", "0"));
}

#[test]
fn first_difference_decides() {
    assert!(is_newer("2", "10"));
    assert!(!is_newer("10", "2"));
    assert!(is_newer("1699999999.999999", "1699999999.999998"));
    assert!(is_newer("1700000000.000000", "1699999999.999999"));
}

#[test]
fn markers_are_ordered_by_their_bytes() {
    assert!(is_newer("\u{e9}", "z"));
    assert!(!is_newer("z", "\u{e9}"));
    assert!(is_newer("\u{1F600}", "\u{e9}"));
}

#[test]
fn order_is_that_of_string_slices() {
    let samples =
        ["", "0", "1", "10", "2", "1700000000.000100", "1700000000.0001", "a", "A", "\u{e9}"];
    for a in samples {
        for b in samples {
            assert_eq!(is_newer(a, b), a > b);
        }
    }
}

#[test]
fn exactly_one_of_two_different_markers_is_newer() {
    let samples = ["", "1", "12", "2", "21"];
    for a in samples {
        for b in samples {
            if a == b {
                assert!(!is_newer(a, b));
            } else {
                assert!(is_newer(a, b) != is_newer(b, a));
            }
        }
    }
}

#[test]
fn byte_order_on_slices() {
    assert!(bytes_precede(&[1, 2], &[1, 3]));
    assert!(bytes_precede(&[1, 2], &[1, 2, 0]));
    assert!(!bytes_precede(&[1, 2], &[1, 2]));
    assert!(!bytes_precede(&[2], &[1, 9, 9]));
    assert!(bytes_precede(&[], &[0]));
    assert!(!bytes_precede(&[], &[]));
}

fn micros(ts: &str) -> u64 {
    let mut value: u64 = 0;
    for byte in ts.bytes() {
        if byte.is_ascii_digit() {
            value = value * 10 + u64::from(byte - b'0');
        }
    }
    value
}

#[test]
fn timestamps_of_one_format_are_ordered_by_their_number() {
    let samples = [
        "1699999999.999999",
        "1700000000.000000",
        "1700000000.000001",
        "1700000000.000010",
        "1700000000.100000",
        "1700000001.000000",
        "9999999999.999999",
        "0000000000.000000",
    ];
    for a in samples {
        for b in samples {
            assert_eq!(is_newer(a, b), micros(a) > micros(b));
        }
    }
}

#[test]
fn timestamps_of_different_length_are_ordered_as_strings() {
    // nine seconds against ten: the shorter one starts with the greater digit
    assert!(is_newer("9.000000", "10.000000"));
    assert!(!is_newer("10.000000", "9.000000"));
}
