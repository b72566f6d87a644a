//! The robot handle: configuration state, command planning and reply
//! interpretation.
//!
//! Every exchange with the robot is one ASCII line out and one line back. The
//! methods here decide, from the handle's configuration state, whether a
//! command may be issued and exactly which bytes it consists of; the caller
//! owns the serial port, writes `Command::line`, waits `Command::delay_ms`
//! milliseconds, reads one reply line and hands it back to the parsing
//! functions of this module.

use vstd::prelude::*;

use crate::errors::RobotError;
use crate::wire;

verus! {

/// A one-letter command followed by the line terminator.
pub open spec fn single_line(c: u8) -> Seq<u8> {
    seq![c, 0x0au8]
}

/// The differential-drive command line
/// `d{power_left},{power_right},{dir_left},{dir_right}\n`.
pub open spec fn go_diff_line(pl: u8, pr: u8, dl: u8, dr: u8) -> Seq<u8> {
    seq![0x64u8] + wire::dec_rep(pl as nat) + seq![0x2cu8] + wire::dec_rep(pr as nat)
        + seq![0x2cu8] + wire::dec_rep(dl as nat) + seq![0x2cu8] + wire::dec_rep(dr as nat)
        + seq![0x0au8]
}

/// A configuration command line: one letter, a decimal value, a terminator.
pub open spec fn setter_line(prefix: u8, v: nat) -> Seq<u8> {
    seq![prefix] + wire::dec_rep(v) + seq![0x0au8]
}

/// The request line for one wheel encoder: `e0\n` for the left wheel,
/// `e1\n` for the right one.
pub open spec fn encoder_line(right_wheel: bool) -> Seq<u8> {
    seq![0x65u8, if right_wheel { 0x31u8 } else { 0x30u8 }, 0x0au8]
}

/// The four sonar ping sensors of the robot, a fixed enumeration.
#[derive(Clone, Copy, Debug, PartialEq, Eq, Structural)]
pub enum SensorId {
    Front,
    Back,
    Left,
    Right,
}

/// The ASCII digit that identifies `id` on the wire.
pub open spec fn sensor_digit(id: SensorId) -> u8 {
    match id {
        SensorId::Front => 0x30,
        SensorId::Back => 0x31,
        SensorId::Left => 0x32,
        SensorId::Right => 0x33,
    }
}

/// The request line for one sensor: its digit and the terminator.
pub open spec fn sensor_line(id: SensorId) -> Seq<u8> {
    seq![sensor_digit(id), 0x0au8]
}

/// The sensor, if any, whose request line `line` is.
pub open spec fn spec_sensor_id_of(line: Seq<u8>) -> Option<SensorId> {
    if line == sensor_line(SensorId::Front) {
        Some(SensorId::Front)
    } else if line == sensor_line(SensorId::Back) {
        Some(SensorId::Back)
    } else if line == sensor_line(SensorId::Left) {
        Some(SensorId::Left)
    } else if line == sensor_line(SensorId::Right) {
        Some(SensorId::Right)
    } else {
        None
    }
}

/// One planned exchange: the bytes to write, and how long to wait after the
/// write before reading the reply.
#[derive(Debug)]
pub struct Command {
    /// The full command line, terminator included.
    pub line: Vec<u8>,
    /// Milliseconds to wait between writing the line and reading the reply.
    pub delay_ms: u64,
}

/// One step of the teardown sequence: wait, then write the line. No reply is
/// required for these, and failures must not reach the caller.
#[derive(Debug)]
pub struct ShutdownStep {
    /// Milliseconds to wait before writing this step's line.
    pub wait_before_ms: u64,
    /// The full command line, terminator included.
    pub line: Vec<u8>,
}

/// Builds the one-letter command `c` followed by the terminator.
fn letter_line(c: u8) -> (r: Vec<u8>)
    ensures
        r@ == single_line(c),
{
    let mut r: Vec<u8> = Vec::new();
    r.push(c);
    r.push(0x0a);
    proof {
        assert(r@ =~= single_line(c));
    }
    r
}

/// Builds a configuration command line: `prefix`, the decimal spelling of
/// `v`, the terminator.
fn valued_line(prefix: u8, v: usize) -> (r: Vec<u8>)
    ensures
        r@ == setter_line(prefix, v as nat),
{
    let mut r: Vec<u8> = Vec::new();
    r.push(prefix);
    let mut digits: Vec<u8> = wire::format_usize(v);
    r.append(&mut digits);
    r.push(0x0a);
    proof {
        assert(r@ =~= setter_line(prefix, v as nat));
    }
    r
}

/// Plans the request that reads sensor `id`.
pub fn sensor_command(id: SensorId) -> (r: Command)
    ensures
        r.line@ == sensor_line(id),
        r.delay_ms == 0,
{
    let digit: u8 = match id {
        SensorId::Front => 0x30,
        SensorId::Back => 0x31,
        SensorId::Left => 0x32,
        SensorId::Right => 0x33,
    };
    Command { line: letter_line(digit), delay_ms: 0 }
}

/// Recovers the sensor from its request line, if the line is one of the four
/// fixed requests.
pub fn sensor_id_of_line(line: &[u8]) -> (r: Option<SensorId>)
    ensures
        r == spec_sensor_id_of(line@),
{
    if line.len() == 2 && line[1] == 0x0a {
        let c: u8 = line[0];
        if c == 0x30 {
            proof {
                assert(line@ =~= sensor_line(SensorId::Front));
            }
            Some(SensorId::Front)
        } else if c == 0x31 {
            proof {
                assert(line@ =~= sensor_line(SensorId::Back));
                assert(line@ != sensor_line(SensorId::Front));
            }
            Some(SensorId::Back)
        } else if c == 0x32 {
            proof {
                assert(line@ =~= sensor_line(SensorId::Left));
                assert(line@ != sensor_line(SensorId::Front));
                assert(line@ != sensor_line(SensorId::Back));
            }
            Some(SensorId::Left)
        } else if c == 0x33 {
            proof {
                assert(line@ =~= sensor_line(SensorId::Right));
                assert(line@ != sensor_line(SensorId::Front));
                assert(line@ != sensor_line(SensorId::Back));
                assert(line@ != sensor_line(SensorId::Left));
            }
            Some(SensorId::Right)
        } else {
            proof {
                assert(line@ != sensor_line(SensorId::Front));
                assert(line@ != sensor_line(SensorId::Back));
                assert(line@ != sensor_line(SensorId::Left));
                assert(line@ != sensor_line(SensorId::Right));
            }
            None
        }
    } else {
        proof {
            assert(line@ != sensor_line(SensorId::Front));
            assert(line@ != sensor_line(SensorId::Back));
            assert(line@ != sensor_line(SensorId::Left));
            assert(line@ != sensor_line(SensorId::Right));
        }
        None
    }
}

/// Interprets a trimmed sensor reply. A reading is valid exactly when the
/// reply is a nonempty digit string whose value fits in `usize` and is
/// strictly positive; zero and garbage are both sensor errors.
pub fn parse_sensor_reply(line: &[u8]) -> (r: Result<usize, RobotError>)
    ensures
        (r is Ok) <==> (line@.len() > 0 && wire::all_digits(line@)
            && wire::dec_val(line@) <= usize::MAX && wire::dec_val(line@) > 0),
        r is Ok ==> r->Ok_0 == wire::dec_val(line@),
        r is Err ==> r->Err_0 == RobotError::Parse,
{
    match wire::parse_usize(line) {
        Some(v) => {
            if v > 0 {
                Ok(v)
            } else {
                Err(RobotError::Parse)
            }
        },
        None => Err(RobotError::Parse),
    }
}

/// Interprets a trimmed encoder reply: any nonempty digit string whose value
/// fits in `usize`, zero included, is a valid tick count.
pub fn parse_encoder_reply(line: &[u8]) -> (r: Result<usize, RobotError>)
    ensures
        (r is Ok) <==> (line@.len() > 0 && wire::all_digits(line@)
            && wire::dec_val(line@) <= usize::MAX),
        r is Ok ==> r->Ok_0 == wire::dec_val(line@),
        r is Err ==> r->Err_0 == RobotError::Parse,
{
    match wire::parse_usize(line) {
        Some(v) => Ok(v),
        None => Err(RobotError::Parse),
    }
}

/// The configuration state of one robot handle. The caller owns the serial
/// connection; this state decides which commands may be issued.
pub struct Arlo {
    /// Wheel speed for the continuous encoder-based commands, once set.
    pub speed: Option<u8>,
    /// Wheel speed for encoder-based turning, once set.
    pub turn_speed: Option<u8>,
    /// Duration in milliseconds of the timed step commands, once set.
    pub step_time: Option<usize>,
    /// Duration in milliseconds of the timed rotation commands, once set.
    pub turn_time: Option<usize>,
}

impl Arlo {
    /// Whether the speed needed by the continuous motion commands is set.
    pub open spec fn speed_configured(self) -> bool {
        self.speed is Some
    }

    /// Whether the duration needed by the timed step commands is set.
    pub open spec fn step_time_configured(self) -> bool {
        self.step_time is Some
    }

    /// Whether the duration needed by the timed rotation commands is set.
    pub open spec fn turn_time_configured(self) -> bool {
        self.turn_time is Some
    }

    /// A fresh handle state: nothing configured yet.
    pub fn new() -> (r: Arlo)
        ensures
            r.speed is None,
            r.turn_speed is None,
            r.step_time is None,
            r.turn_time is None,
    {
        Arlo { speed: None, turn_speed: None, step_time: None, turn_time: None }
    }

    /// Plans direct differential drive: per-wheel power (at most 127) and
    /// direction (0 reverse, 1 forward), bypassing the encoders. Out-of-range
    /// arguments are rejected before anything is written.
    pub fn go_diff(&self, power_left: u8, power_right: u8, dir_left: u8, dir_right: u8) -> (r:
        Result<Command, RobotError>)
        ensures
            (r is Ok) <==> (power_left <= 127 && power_right <= 127 && dir_left <= 1
                && dir_right <= 1),
            r is Ok ==> r->Ok_0.line@ == go_diff_line(power_left, power_right, dir_left, dir_right)
                && r->Ok_0.delay_ms == 0,
            r is Err ==> r->Err_0 == RobotError::Validation,
    {
        if power_left > 127 || power_right > 127 || dir_left > 1 || dir_right > 1 {
            return Err(RobotError::Validation);
        }
        let mut line: Vec<u8> = Vec::new();
        line.push(0x64);
        let mut part: Vec<u8> = wire::format_usize(power_left as usize);
        line.append(&mut part);
        line.push(0x2c);
        let mut part: Vec<u8> = wire::format_usize(power_right as usize);
        line.append(&mut part);
        line.push(0x2c);
        let mut part: Vec<u8> = wire::format_usize(dir_left as usize);
        line.append(&mut part);
        line.push(0x2c);
        let mut part: Vec<u8> = wire::format_usize(dir_right as usize);
        line.append(&mut part);
        line.push(0x0a);
        proof {
            assert(line@ =~= go_diff_line(power_left, power_right, dir_left, dir_right));
        }
        Ok(Command { line, delay_ms: 0 })
    }

    /// Plans the stop command, which zeroes the motor power on both wheels.
    pub fn stop(&self) -> (r: Command)
        ensures
            r.line@ == single_line(0x73),
            r.delay_ms == 0,
    {
        Command { line: letter_line(0x73), delay_ms: 0 }
    }

    /// Plans continuous forward driving on the encoders; the speed must have
    /// been set first.
    pub fn go(&self) -> (r: Result<Command, RobotError>)
        ensures
            (r is Ok) <==> self.speed_configured(),
            r is Ok ==> r->Ok_0.line@ == single_line(0x67) && r->Ok_0.delay_ms == 0,
            r is Err ==> r->Err_0 == RobotError::Precondition,
    {
        if self.speed.is_none() {
            return Err(RobotError::Precondition);
        }
        Ok(Command { line: letter_line(0x67), delay_ms: 0 })
    }

    /// Plans continuous reverse driving on the encoders; the speed must have
    /// been set first.
    pub fn backward(&self) -> (r: Result<Command, RobotError>)
        ensures
            (r is Ok) <==> self.speed_configured(),
            r is Ok ==> r->Ok_0.line@ == single_line(0x76) && r->Ok_0.delay_ms == 0,
            r is Err ==> r->Err_0 == RobotError::Precondition,
    {
        if self.speed.is_none() {
            return Err(RobotError::Precondition);
        }
        Ok(Command { line: letter_line(0x76), delay_ms: 0 })
    }

    /// Plans continuous left rotation on the encoders; the speed must have
    /// been set first.
    pub fn left(&self) -> (r: Result<Command, RobotError>)
        ensures
            (r is Ok) <==> self.speed_configured(),
            r is Ok ==> r->Ok_0.line@ == single_line(0x6e) && r->Ok_0.delay_ms == 0,
            r is Err ==> r->Err_0 == RobotError::Precondition,
    {
        if self.speed.is_none() {
            return Err(RobotError::Precondition);
        }
        Ok(Command { line: letter_line(0x6e), delay_ms: 0 })
    }

    /// Plans continuous right rotation on the encoders; the speed must have
    /// been set first.
    pub fn right(&self) -> (r: Result<Command, RobotError>)
        ensures
            (r is Ok) <==> self.speed_configured(),
            r is Ok ==> r->Ok_0.line@ == single_line(0x6d) && r->Ok_0.delay_ms == 0,
            r is Err ==> r->Err_0 == RobotError::Precondition,
    {
        if self.speed.is_none() {
            return Err(RobotError::Precondition);
        }
        Ok(Command { line: letter_line(0x6d), delay_ms: 0 })
    }

    /// Plans a timed step forward; the step time must have been set first.
    pub fn step_forward(&self) -> (r: Result<Command, RobotError>)
        ensures
            (r is Ok) <==> self.step_time_configured(),
            r is Ok ==> r->Ok_0.line@ == single_line(0x66) && r->Ok_0.delay_ms == 0,
            r is Err ==> r->Err_0 == RobotError::Precondition,
    {
        if self.step_time.is_none() {
            return Err(RobotError::Precondition);
        }
        Ok(Command { line: letter_line(0x66), delay_ms: 0 })
    }

    /// Plans a timed step backward; the step time must have been set first.
    pub fn step_backward(&self) -> (r: Result<Command, RobotError>)
        ensures
            (r is Ok) <==> self.step_time_configured(),
            r is Ok ==> r->Ok_0.line@ == single_line(0x62) && r->Ok_0.delay_ms == 0,
            r is Err ==> r->Err_0 == RobotError::Precondition,
    {
        if self.step_time.is_none() {
            return Err(RobotError::Precondition);
        }
        Ok(Command { line: letter_line(0x62), delay_ms: 0 })
    }

    /// Plans a timed rotation to the left; the turn time must have been set
    /// first.
    pub fn step_rotate_left(&self) -> (r: Result<Command, RobotError>)
        ensures
            (r is Ok) <==> self.turn_time_configured(),
            r is Ok ==> r->Ok_0.line@ == single_line(0x6c) && r->Ok_0.delay_ms == 0,
            r is Err ==> r->Err_0 == RobotError::Precondition,
    {
        if self.turn_time.is_none() {
            return Err(RobotError::Precondition);
        }
        Ok(Command { line: letter_line(0x6c), delay_ms: 0 })
    }

    /// Plans a timed rotation to the right; the turn time must have been set
    /// first.
    pub fn step_rotate_right(&self) -> (r: Result<Command, RobotError>)
        ensures
            (r is Ok) <==> self.turn_time_configured(),
            r is Ok ==> r->Ok_0.line@ == single_line(0x72) && r->Ok_0.delay_ms == 0,
            r is Err ==> r->Err_0 == RobotError::Precondition,
    {
        if self.turn_time.is_none() {
            return Err(RobotError::Precondition);
        }
        Ok(Command { line: letter_line(0x72), delay_ms: 0 })
    }

    /// Plans the request that reads the front sonar ping sensor; the parsed
    /// reply is the measured range in millimeters.
    pub fn read_front_ping_sensor(&self) -> (r: Command)
        ensures
            r.line@ == sensor_line(SensorId::Front),
            r.delay_ms == 0,
    {
        sensor_command(SensorId::Front)
    }

    /// Plans the request that reads the back sonar ping sensor; the parsed
    /// reply is the measured range in millimeters.
    pub fn read_back_ping_sensor(&self) -> (r: Command)
        ensures
            r.line@ == sensor_line(SensorId::Back),
            r.delay_ms == 0,
    {
        sensor_command(SensorId::Back)
    }

    /// Plans the request that reads the left sonar ping sensor; the parsed
    /// reply is the measured range in millimeters.
    pub fn read_left_ping_sensor(&self) -> (r: Command)
        ensures
            r.line@ == sensor_line(SensorId::Left),
            r.delay_ms == 0,
    {
        sensor_command(SensorId::Left)
    }

    /// Plans the request that reads the right sonar ping sensor; the parsed
    /// reply is the measured range in millimeters.
    pub fn read_right_ping_sensor(&self) -> (r: Command)
        ensures
            r.line@ == sensor_line(SensorId::Right),
            r.delay_ms == 0,
    {
        sensor_command(SensorId::Right)
    }

    /// Stores the speed used by the continuous motion commands and plans the
    /// command that communicates it to the microcontroller.
    pub fn set_speed(&mut self, speed: u8) -> (r: Command)
        ensures
            final(self).speed == Some(speed),
            final(self).turn_speed == old(self).turn_speed,
            final(self).step_time == old(self).step_time,
            final(self).turn_time == old(self).turn_time,
            r.line@ == setter_line(0x7a, speed as nat),
            r.delay_ms == 0,
    {
        self.speed = Some(speed);
        Command { line: valued_line(0x7a, speed as usize), delay_ms: 0 }
    }

    /// Stores the turn speed used by the continuous rotation commands and
    /// plans the command that communicates it to the microcontroller.
    pub fn set_turnspeed(&mut self, turn_speed: u8) -> (r: Command)
        ensures
            final(self).turn_speed == Some(turn_speed),
            final(self).speed == old(self).speed,
            final(self).step_time == old(self).step_time,
            final(self).turn_time == old(self).turn_time,
            r.line@ == setter_line(0x78, turn_speed as nat),
            r.delay_ms == 0,
    {
        self.turn_speed = Some(turn_speed);
        Command { line: valued_line(0x78, turn_speed as usize), delay_ms: 0 }
    }

    /// Stores the duration in milliseconds of the timed step commands and
    /// plans the command that communicates it to the microcontroller.
    pub fn set_step_time(&mut self, step_time: usize) -> (r: Command)
        ensures
            final(self).step_time == Some(step_time),
            final(self).speed == old(self).speed,
            final(self).turn_speed == old(self).turn_speed,
            final(self).turn_time == old(self).turn_time,
            r.line@ == setter_line(0x74, step_time as nat),
            r.delay_ms == 0,
    {
        self.step_time = Some(step_time);
        Command { line: valued_line(0x74, step_time), delay_ms: 0 }
    }

    /// Stores the duration in milliseconds of the timed rotation commands and
    /// plans the command that communicates it to the microcontroller.
    pub fn set_turn_time(&mut self, turn_time: usize) -> (r: Command)
        ensures
            final(self).turn_time == Some(turn_time),
            final(self).speed == old(self).speed,
            final(self).turn_speed == old(self).turn_speed,
            final(self).step_time == old(self).step_time,
            r.line@ == setter_line(0x79, turn_time as nat),
            r.delay_ms == 0,
    {
        self.turn_time = Some(turn_time);
        Command { line: valued_line(0x79, turn_time), delay_ms: 0 }
    }

    /// Plans the request that reads the left wheel's tick count since the
    /// last reset; the microcontroller needs 45 ms before its reply is ready.
    pub fn read_left_wheel_encoder(&self) -> (r: Command)
        ensures
            r.line@ == encoder_line(false),
            r.delay_ms == 45,
    {
        let mut line: Vec<u8> = Vec::new();
        line.push(0x65);
        line.push(0x30);
        line.push(0x0a);
        proof {
            assert(line@ =~= encoder_line(false));
        }
        Command { line, delay_ms: 45 }
    }

    /// Plans the request that reads the right wheel's tick count since the
    /// last reset; the microcontroller needs 45 ms before its reply is ready.
    pub fn read_right_wheel_encoder(&self) -> (r: Command)
        ensures
            r.line@ == encoder_line(true),
            r.delay_ms == 45,
    {
        let mut line: Vec<u8> = Vec::new();
        line.push(0x65);
        line.push(0x31);
        line.push(0x0a);
        proof {
            assert(line@ =~= encoder_line(true));
        }
        Command { line, delay_ms: 45 }
    }

    /// Plans the command that zeroes both wheel encoder counts on the
    /// microcontroller.
    pub fn reset_encoder_counts(&self) -> (r: Command)
        ensures
            r.line@ == single_line(0x63),
            r.delay_ms == 0,
    {
        Command { line: letter_line(0x63), delay_ms: 0 }
    }

    /// The teardown plan, the same whatever the handle's state: wait, issue
    /// stop, wait again, issue the shutdown command — stop always strictly
    /// before shutdown. The caller must run every step and swallow failures;
    /// teardown never reports an error.
    pub fn shutdown_sequence(&self) -> (r: Vec<ShutdownStep>)
        ensures
            r@.len() == 2,
            r@[0].wait_before_ms == 5,
            r@[0].line@ == single_line(0x73),
            r@[1].wait_before_ms == 10,
            r@[1].line@ == single_line(0x6b),
    {
        let mut r: Vec<ShutdownStep> = Vec::new();
        r.push(ShutdownStep { wait_before_ms: 5, line: letter_line(0x73) });
        r.push(ShutdownStep { wait_before_ms: 10, line: letter_line(0x6b) });
        r
    }
}

/// Law: once a speed has been stored — whatever its value — every
/// speed-guarded motion command (`go`, `backward`, `left`, `right`) is
/// accepted rather than rejected with a precondition error.
pub proof fn lemma_speed_set_enables_motion(a: Arlo, s: u8)
    requires
        a.speed == Some(s),
    ensures
        a.speed_configured(),
{
}

/// Law: a sensor request round-trips — parsing the line formatted for a
/// sensor always yields that same sensor, for each of the four fixed
/// identifiers.
pub proof fn lemma_sensor_command_round_trip(id: SensorId)
    ensures
        spec_sensor_id_of(sensor_line(id)) == Some(id),
{
    assert(sensor_line(SensorId::Front)[0] == 0x30);
    assert(sensor_line(SensorId::Back)[0] == 0x31);
    assert(sensor_line(SensorId::Left)[0] == 0x32);
    assert(sensor_line(SensorId::Right)[0] == 0x33);
}

} // verus!
