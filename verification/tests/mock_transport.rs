//! Exchanges driven against a scripted mock transport: the reset/encoder
//! contract and the teardown order as a caller would observe them.

use rex_ucph::robot::parse_encoder_reply;
use rex_ucph::Arlo;
use rex_ucph::Command;

/// A stand-in for the serial link: records every line written and echoes the
/// replies a freshly reset microcontroller would give.
struct MockLink {
    written: Vec<Vec<u8>>,
    encoders_reset: bool,
}

impl MockLink {
    fn new() -> MockLink {
        MockLink { written: Vec::new(), encoders_reset: false }
    }

    fn exchange(&mut self, cmd: &Command) -> Vec<u8> {
        self.written.push(cmd.line.clone());
        if cmd.line == b"c\n".to_vec() {
            self.encoders_reset = true;
            b"ok".to_vec()
        } else if cmd.line.starts_with(b"e") {
            if self.encoders_reset {
                b"0".to_vec()
            } else {
                b"1234".to_vec()
            }
        } else {
            b"ok".to_vec()
        }
    }
}

#[test]
fn encoders_read_zero_right_after_reset() {
    let a = Arlo::new();
    let mut link = MockLink::new();
    let _ = link.exchange(&a.reset_encoder_counts());
    let left = parse_encoder_reply(&link.exchange(&a.read_left_wheel_encoder()));
    let right = parse_encoder_reply(&link.exchange(&a.read_right_wheel_encoder()));
    assert_eq!(left, Ok(0));
    assert_eq!(right, Ok(0));
}

#[test]
fn encoders_count_ticks_before_a_reset() {
    let a = Arlo::new();
    let mut link = MockLink::new();
    let left = parse_encoder_reply(&link.exchange(&a.read_left_wheel_encoder()));
    assert_eq!(left, Ok(1234));
}

#[test]
fn teardown_writes_stop_then_kill() {
    let mut a = Arlo::new();
    a.set_speed(64);
    let mut link = MockLink::new();
    for step in a.shutdown_sequence() {
        link.exchange(&Command { line: step.line, delay_ms: 0 });
    }
    assert_eq!(link.written, vec![b"s\n".to_vec(), b"k\n".to_vec()]);
}
