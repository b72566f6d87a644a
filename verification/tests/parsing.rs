//! Reply parsing: decimal values, sensor and encoder readings, trimming.

use rex_ucph::robot::parse_encoder_reply;
use rex_ucph::robot::parse_sensor_reply;
use rex_ucph::wire::format_usize;
use rex_ucph::wire::parse_usize;
use rex_ucph::wire::trim_trailing;
use rex_ucph::RobotError;

#[test]
fn sensor_reply_with_a_reading() {
    assert_eq!(parse_sensor_reply(b"534"), Ok(534));
    assert_eq!(parse_sensor_reply(b"1"), Ok(1));
}

#[test]
fn sensor_reply_of_zero_is_an_error() {
    assert_eq!(parse_sensor_reply(b"0"), Err(RobotError::Parse));
    assert_eq!(parse_sensor_reply(b"00"), Err(RobotError::Parse));
}

#[test]
fn sensor_reply_that_is_not_numeric_is_an_error() {
    assert_eq!(parse_sensor_reply(b"err"), Err(RobotError::Parse));
    assert_eq!(parse_sensor_reply(b"12a"), Err(RobotError::Parse));
    assert_eq!(parse_sensor_reply(b"-3"), Err(RobotError::Parse));
    assert_eq!(parse_sensor_reply(b""), Err(RobotError::Parse));
    assert_eq!(parse_sensor_reply(b" 534"), Err(RobotError::Parse));
}

#[test]
fn encoder_reply_accepts_zero() {
    assert_eq!(parse_encoder_reply(b"0"), Ok(0));
    assert_eq!(parse_encoder_reply(b"144"), Ok(144));
}

#[test]
fn encoder_reply_that_is_not_numeric_is_an_error() {
    assert_eq!(parse_encoder_reply(b"spin"), Err(RobotError::Parse));
    assert_eq!(parse_encoder_reply(b""), Err(RobotError::Parse));
}

#[test]
fn parse_usize_reads_plain_decimals() {
    assert_eq!(parse_usize(b"0"), Some(0));
    assert_eq!(parse_usize(b"00"), Some(0));
    assert_eq!(parse_usize(b"007"), Some(7));
    assert_eq!(parse_usize(b"65535"), Some(65535));
}

#[test]
fn parse_usize_rejects_non_digits() {
    assert_eq!(parse_usize(b""), None);
    assert_eq!(parse_usize(b"+1"), None);
    assert_eq!(parse_usize(b"1 "), None);
    assert_eq!(parse_usize(b"1.5"), None);
}

#[test]
fn parse_usize_handles_the_machine_limit() {
    let max = format!("{}", usize::MAX);
    assert_eq!(parse_usize(max.as_bytes()), Some(usize::MAX));
    let over = format!("{}0", usize::MAX);
    assert_eq!(parse_usize(over.as_bytes()), None);
    assert_eq!(parse_usize(b"99999999999999999999999999999999"), None);
}

#[test]
fn format_usize_spells_decimals() {
    assert_eq!(format_usize(0), b"0".to_vec());
    assert_eq!(format_usize(7), b"7".to_vec());
    assert_eq!(format_usize(30), b"30".to_vec());
    assert_eq!(format_usize(255), b"255".to_vec());
    assert_eq!(format_usize(12045), b"12045".to_vec());
}

#[test]
fn format_then_parse_is_identity() {
    let values = vec![0usize, 1, 9, 10, 99, 100, 144, 2500, usize::MAX];
    for v in values {
        assert_eq!(parse_usize(&format_usize(v)), Some(v));
    }
}

#[test]
fn trim_trailing_strips_line_endings() {
    assert_eq!(trim_trailing(b"534\r\n"), b"534".to_vec());
    assert_eq!(trim_trailing(b"ok \t\n"), b"ok".to_vec());
    assert_eq!(trim_trailing(b"\n"), b"".to_vec());
    assert_eq!(trim_trailing(b""), b"".to_vec());
}

#[test]
fn trim_trailing_keeps_leading_and_inner_space() {
    assert_eq!(trim_trailing(b" 534"), b" 534".to_vec());
    assert_eq!(trim_trailing(b"a b\n"), b"a b".to_vec());
    assert_eq!(trim_trailing(b"534"), b"534".to_vec());
}
