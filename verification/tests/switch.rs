use roboapp::camera::switch::parse_payload;
use roboapp::camera::switch::SwitchCommand;

fn std_parse(payload: &[u8]) -> Option<usize> {
    std::str::from_utf8(payload).ok().and_then(|s| s.parse().ok())
}

#[test]
fn empty_payload_advances() {
    assert_eq!(parse_payload(b""), None);
    assert_eq!(SwitchCommand::from_payload(b""), SwitchCommand::Advance);
}

#[test]
fn decimal_payload_selects() {
    assert_eq!(SwitchCommand::from_payload(b"0"), SwitchCommand::Select(0));
    assert_eq!(SwitchCommand::from_payload(b"1"), SwitchCommand::Select(1));
    assert_eq!(SwitchCommand::from_payload(b"42"), SwitchCommand::Select(42));
    assert_eq!(SwitchCommand::from_payload(b"00012"), SwitchCommand::Select(12));
    assert_eq!(SwitchCommand::from_payload(b"+3"), SwitchCommand::Select(3));
}

#[test]
fn garbled_payload_advances() {
    assert_eq!(SwitchCommand::from_payload(b"abc"), SwitchCommand::Advance);
    assert_eq!(SwitchCommand::from_payload(b"-1"), SwitchCommand::Advance);
    assert_eq!(SwitchCommand::from_payload(b"12a"), SwitchCommand::Advance);
    assert_eq!(SwitchCommand::from_payload(b" 1"), SwitchCommand::Advance);
    assert_eq!(SwitchCommand::from_payload(b"1 "), SwitchCommand::Advance);
    assert_eq!(SwitchCommand::from_payload(b"+"), SwitchCommand::Advance);
    assert_eq!(SwitchCommand::from_payload(b"++1"), SwitchCommand::Advance);
    assert_eq!(SwitchCommand::from_payload(b"1+"), SwitchCommand::Advance);
    assert_eq!(SwitchCommand::from_payload(b"1.0"), SwitchCommand::Advance);
    assert_eq!(SwitchCommand::from_payload(&[0xff, 0xfe]), SwitchCommand::Advance);
    assert_eq!(SwitchCommand::from_payload(&[0x31, 0xc3, 0x28]), SwitchCommand::Advance);
}

#[test]
fn largest_index_parses_and_one_more_does_not() {
    let max = usize::MAX.to_string();
    assert_eq!(parse_payload(max.as_bytes()), Some(usize::MAX));
    let mut over = max.clone().into_bytes();
    let last = over.len() - 1;
    over[last] += 1;
    assert_eq!(parse_payload(&over), None);
    let longer = format!("{}0", max);
    assert_eq!(parse_payload(longer.as_bytes()), None);
    let padded = format!("000{}", max);
    assert_eq!(parse_payload(padded.as_bytes()), Some(usize::MAX));
    assert_eq!(parse_payload(b"99999999999999999999999999999999999999999"), None);
    assert_eq!(parse_payload(b"9999999999999999999999999999999999999999x"), None);
}

#[test]
fn parse_agrees_with_the_standard_parser() {
    let samples: Vec<&[u8]> = vec![
        b"", b"0", b"7", b"+7", b"-7", b"+", b"-", b"007", b"18446744073709551615",
        b"18446744073709551616", b"+18446744073709551615", b"1_000", b"0x10", b"12 ", b"\t3",
        b"4294967295", b"4294967296", b"+0", b"-0", b"1e3", b"\xef\xbc\x91",
    ];
    for s in samples {
        assert_eq!(parse_payload(s), std_parse(s));
    }
}

#[test]
fn select_is_taken_modulo_the_device_count() {
    assert_eq!(SwitchCommand::Select(0).target(1, 2), 0);
    assert_eq!(SwitchCommand::Select(1).target(0, 2), 1);
    assert_eq!(SwitchCommand::Select(2).target(1, 2), 0);
    assert_eq!(SwitchCommand::Select(3).target(0, 2), 1);
    assert_eq!(SwitchCommand::Select(7).target(0, 3), 1);
    assert_eq!(SwitchCommand::Select(usize::MAX).target(0, 1), 0);
}

#[test]
fn selecting_the_count_equals_selecting_zero() {
    for count in 1..6usize {
        for current in 0..count {
            assert_eq!(
                SwitchCommand::Select(count).target(current, count),
                SwitchCommand::Select(0).target(current, count)
            );
            assert_eq!(SwitchCommand::Select(count).target(current, count), 0);
        }
    }
}

#[test]
fn advance_wraps_at_the_end() {
    assert_eq!(SwitchCommand::Advance.target(0, 3), 1);
    assert_eq!(SwitchCommand::Advance.target(1, 3), 2);
    assert_eq!(SwitchCommand::Advance.target(2, 3), 0);
    assert_eq!(SwitchCommand::Advance.target(0, 1), 0);
    assert_eq!(SwitchCommand::Advance.target(usize::MAX - 1, usize::MAX), 0);
    assert_eq!(SwitchCommand::Advance.target(usize::MAX, 4), 0);
    assert_eq!(SwitchCommand::Advance.target(usize::MAX, 7), (usize::MAX % 7 + 1) % 7);
}
