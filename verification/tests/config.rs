use libs::config::{log_every_n, parse_port, parse_u64, throttle_cap};
use libs::{get_port, UDP_PORT_DEFAULT};

#[test]
fn parse_u64_reads_decimal_digits() {
    assert_eq!(parse_u64("500"), 500);
    assert_eq!(parse_u64("0"), 0);
    assert_eq!(parse_u64(""), 0);
    assert_eq!(parse_u64("007"), 7);
    assert_eq!(parse_u64("18446744073709551615"), u64::MAX);
}

#[test]
fn parse_u64_counts_each_byte_from_zero_char() {
    // bytes above '9' are not rejected: each counts for its distance from '0'
    assert_eq!(parse_u64("a"), 49);
    assert_eq!(parse_u64("1:"), 20);
}

#[test]
fn parse_port_matches_std_parse() {
    for s in ["4444", "0", "65535", "65536", "+80", "+", "-1", "", "12a", " 1", "+-1", "00080", "99999999999"] {
        assert_eq!(parse_port(s), s.parse::<u16>().ok(), "input {s:?}");
    }
}

#[test]
fn get_port_uses_setting_or_default() {
    assert_eq!(UDP_PORT_DEFAULT, 4444);
    assert_eq!(get_port(None), 4444);
    assert_eq!(get_port(Some("5555")), 5555);
    assert_eq!(get_port(Some("+1")), 1);
}

#[test]
fn log_every_n_from_setting() {
    assert_eq!(log_every_n(None), 500);
    assert_eq!(log_every_n(Some("200")), 200);
    // a period beyond u32 iterations wraps as the cast does
    assert_eq!(log_every_n(Some("4294967296")), 0);
}

#[test]
fn throttle_cap_from_setting() {
    assert_eq!(throttle_cap(None), 100);
    assert_eq!(throttle_cap(Some("40")), 40);
    assert_eq!(throttle_cap(Some("100")), 100);
}
