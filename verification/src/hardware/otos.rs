//! The optical tracking sensor: a pose source on the end of a serial link.
//!
//! The sensor is brought up by a fixed sequence of requests and pauses, with
//! one loop in it that waits for calibration to finish. After that it is asked
//! for its position and, if that was accepted, for its velocity, and each
//! accepted pair becomes a pose. A cycle that fails keeps the pose of the
//! cycle before.

use vstd::prelude::*;
use crate::fixed::{fx_mul, magnitude, product, SCALE};
use crate::hardware::packet::{is_valid, Packet};
use crate::hardware::serial_device::SerialFault;
use crate::localization::odometry::{is_finite, is_saturated, saturated};
use crate::localization::pose::{resting, Pose};
use crate::units::{Angle, AngularVelocity, Length, Time, Velocity};

verus! {

/// The size of a response that only acknowledges: identifier and checksum.
pub const SENDING_SIZE: usize = 2;

/// The size of a response that carries a position or a velocity:
/// identifier, checksum, and three words of four bytes.
pub const RECEIVING_SIZE: usize = 14;

/// The size of the payload of a position or a velocity.
pub const PAYLOAD_SIZE: usize = 12;

/// How long calibration is waited for, in microseconds.
pub const CALIBRATION_TIMEOUT: i64 = 1_000_000;

/// The pause after the first request, in microseconds.
pub const INITIALIZE_PAUSE: i64 = 500_000;

/// The pause between two looks at the calibration, and between two pose
/// cycles, in microseconds.
pub const POLL_PAUSE: i64 = 10_000;

/// The pause after the self test, in microseconds.
pub const SELF_TEST_PAUSE: i64 = 100_000;

/// The forward velocity is the sensor's `x` velocity times this.
pub const FORWARD_GAIN: i64 = -970_000;

/// The lateral velocity is the sensor's `y` velocity times this.
pub const LATERAL_GAIN: i64 = 970_000;

/// The angular velocity is the sensor's `h` velocity times this.
pub const ANGULAR_GAIN: i64 = -982_500;

/// The requests the sensor understands.
#[derive(Clone, Copy, Debug, PartialEq, Eq, Structural)]
pub enum Command {
    Initialize,
    Calibrate,
    IsCalibrating,
    Reset,
    ResetTracking,
    SetOffset,
    SetPosition,
    GetPosition,
    GetVelocity,
    Check,
    SelfTest,
    Invalid,
}

/// The kinds of response the sensor gives.
#[derive(Clone, Copy, Debug, PartialEq, Eq, Structural)]
pub enum Response {
    Success,
    Error,
    Waiting,
    Unknown,
}

/// Three words as a payload carries them. Each is the bit pattern of a
/// single-precision number.
#[derive(Clone, Copy, Debug, PartialEq, Eq, Structural)]
pub struct Reading {
    pub x: u32,
    pub y: u32,
    pub h: u32,
}

/// A position or a velocity as fixed-point counts: `x` and `y` in metres,
/// `h` in radians, or each per second.
#[derive(Clone, Copy, Debug, PartialEq, Eq, Structural)]
pub struct Sample {
    pub x: i64,
    pub y: i64,
    pub h: i64,
}

/// Where the bring-up of the sensor stands. Each stage names what is done
/// next.
#[derive(Clone, Copy, Debug, PartialEq, Eq, Structural)]
pub enum Stage {
    Initialize,
    PauseAfterInitialize,
    Reset,
    SetOffset,
    Calibrate,
    AskCalibration,
    AwaitCalibration,
    SelfTest,
    PauseAfterSelfTest,
    Ready,
}

/// What the caller is to do next.
#[derive(Clone, Copy, Debug, PartialEq, Eq, Structural)]
pub enum Action {
    /// Send the request and await a response of `response_size` bytes.
    Send { command: Command, response_size: usize },
    /// Sleep for so many microseconds.
    Sleep { us: i64 },
    /// Nothing: the sensor is up.
    Done,
}

/// What an [`Otos`] holds.
#[derive(Clone, Copy, Debug, PartialEq, Eq, Structural)]
pub struct OtosState {
    pub pose: Pose,
    pub stage: Stage,
}

/// The tracking sensor as a pose source.
pub struct Otos {
    state: OtosState,
}

impl View for Otos {
    type V = OtosState;

    closed spec fn view(&self) -> OtosState {
        self.state
    }
}

/// The identifier of a request.
pub open spec fn command_id(c: Command) -> u8 {
    match c {
        Command::Initialize => 0,
        Command::Calibrate => 1,
        Command::IsCalibrating => 2,
        Command::Reset => 3,
        Command::ResetTracking => 4,
        Command::SetOffset => 5,
        Command::SetPosition => 6,
        Command::GetPosition => 7,
        Command::GetVelocity => 8,
        Command::Check => 9,
        Command::SelfTest => 10,
        Command::Invalid => 11,
    }
}

/// The identifier of a kind of response.
pub open spec fn response_id(r: Response) -> u8 {
    match r {
        Response::Success => 0,
        Response::Error => 1,
        Response::Waiting => 2,
        Response::Unknown => 3,
    }
}

/// The word that four bytes hold, least significant byte first.
pub open spec fn word_of(b0: u8, b1: u8, b2: u8, b3: u8) -> int {
    b0 as int + 256 * (b1 as int) + 65_536 * (b2 as int) + 16_777_216 * (b3 as int)
}

/// The byte of a word at place `i`, counted from the least significant.
pub open spec fn byte_of(w: int, i: int) -> int {
    if i == 0 {
        w % 256
    } else if i == 1 {
        (w / 256) % 256
    } else if i == 2 {
        (w / 65_536) % 256
    } else {
        (w / 16_777_216) % 256
    }
}

/// The payload that carries a reading: `x`, `y` and `h`, four bytes each,
/// least significant byte first.
pub open spec fn payload_of(r: Reading) -> Seq<u8> {
    Seq::new(12, |i: int| byte_of(
        if i < 4 { r.x as int } else if i < 8 { r.y as int } else { r.h as int },
        i % 4,
    ) as u8)
}

/// The reading that a payload of twelve bytes carries.
pub open spec fn reading_of(data: Seq<u8>) -> Reading {
    Reading {
        x: word_of(data[0], data[1], data[2], data[3]) as u32,
        y: word_of(data[4], data[5], data[6], data[7]) as u32,
        h: word_of(data[8], data[9], data[10], data[11]) as u32,
    }
}

/// Whether a response can be used as a position or a velocity: it reports
/// success, its checksum holds, and its payload has twelve bytes.
pub open spec fn is_acceptable(id: u8, checksum: u8, data: Seq<u8>) -> bool {
    id == response_id(Response::Success) && is_valid(id, checksum, data) && data.len() == 12
}

/// Whether a sample can be a position or a velocity: none of its words sits
/// at an end of the range, where values that are no numbers collect.
pub open spec fn is_sound(sample: Sample) -> bool {
    &&& !saturated(sample.x as int)
    &&& !saturated(sample.y as int)
    &&& !saturated(sample.h as int)
}

/// A count inside the range, times a gain of less than one, stays inside
/// the range.
pub proof fn lemma_gain_keeps_finite(v: int, gain: int)
    requires
        i64::MIN < v < i64::MAX,
        -(SCALE as int) < gain < SCALE as int,
    ensures
        !saturated(product(v, gain)),
{
    let one = SCALE as int;
    let top = 0x7fff_ffff_ffff_ffffint;
    let m = magnitude(v * gain);
    assert(m <= top * (one - 1)) by (nonlinear_arith)
        requires
            m == magnitude(v * gain),
            -top <= v <= top,
            -(one - 1) <= gain <= one - 1,
            one == 1_000_000,
            top == 0x7fff_ffff_ffff_ffff,
    ;
    assert(0 <= m / one < top) by (nonlinear_arith)
        requires
            0 <= m <= top * (one - 1),
            one == 1_000_000,
            top == 0x7fff_ffff_ffff_ffff,
    ;
}

/// The pose that a position and a velocity of the sensor stand for.
pub open spec fn pose_of(position: Sample, velocity: Sample) -> Pose {
    Pose {
        x: Length { um: position.x },
        y: Length { um: position.y },
        h: Angle { urad: position.h },
        vf: Velocity { um_per_s: product(velocity.x as int, FORWARD_GAIN as int) as i64 },
        vs: Velocity { um_per_s: product(velocity.y as int, LATERAL_GAIN as int) as i64 },
        omega: AngularVelocity {
            urad_per_s: product(velocity.h as int, ANGULAR_GAIN as int) as i64,
        },
    }
}

/// Whether the wait for calibration ends with this answer: the exchange
/// failed, the sensor no longer reports that it is waiting, or the time is
/// up.
pub open spec fn calibration_ends(reply: Option<u8>, since_calibration: int) -> bool {
    match reply {
        None => true,
        Some(id) => id != response_id(Response::Waiting) || since_calibration
            > CALIBRATION_TIMEOUT as int,
    }
}

/// The stage after `stage` and what the caller is to do on the way there.
///
/// `reply` is the identifier of the response to the request sent last, or
/// `None` where that exchange failed; `since_calibration` is the time since
/// calibration was asked for. Both matter only while calibration is awaited.
pub open spec fn transition(stage: Stage, reply: Option<u8>, since_calibration: int) -> (
    Stage,
    Action,
) {
    match stage {
        Stage::Initialize => (
            Stage::PauseAfterInitialize,
            Action::Send { command: Command::Initialize, response_size: SENDING_SIZE },
        ),
        Stage::PauseAfterInitialize => (Stage::Reset, Action::Sleep { us: INITIALIZE_PAUSE }),
        Stage::Reset => (
            Stage::SetOffset,
            Action::Send { command: Command::Reset, response_size: SENDING_SIZE },
        ),
        Stage::SetOffset => (
            Stage::Calibrate,
            Action::Send { command: Command::SetOffset, response_size: SENDING_SIZE },
        ),
        Stage::Calibrate => (
            Stage::AskCalibration,
            Action::Send { command: Command::Calibrate, response_size: SENDING_SIZE },
        ),
        Stage::AskCalibration => (
            Stage::AwaitCalibration,
            Action::Send { command: Command::IsCalibrating, response_size: SENDING_SIZE },
        ),
        Stage::AwaitCalibration => if calibration_ends(reply, since_calibration) {
            (
                Stage::SelfTest,
                Action::Send { command: Command::ResetTracking, response_size: SENDING_SIZE },
            )
        } else {
            (Stage::AskCalibration, Action::Sleep { us: POLL_PAUSE })
        },
        Stage::SelfTest => (
            Stage::PauseAfterSelfTest,
            Action::Send { command: Command::SelfTest, response_size: SENDING_SIZE },
        ),
        Stage::PauseAfterSelfTest => (Stage::Ready, Action::Sleep { us: SELF_TEST_PAUSE }),
        Stage::Ready => (Stage::Ready, Action::Done),
    }
}

impl Sample {
    /// Whether the sample can be a position or a velocity.
    pub fn is_sound(&self) -> (ok: bool)
        ensures
            ok == is_sound(*self),
    {
        !is_saturated(self.x) && !is_saturated(self.y) && !is_saturated(self.h)
    }
}

impl Command {
    /// The identifier of the request.
    pub fn id(&self) -> (id: u8)
        ensures
            id == command_id(*self),
    {
        match self {
            Command::Initialize => 0,
            Command::Calibrate => 1,
            Command::IsCalibrating => 2,
            Command::Reset => 3,
            Command::ResetTracking => 4,
            Command::SetOffset => 5,
            Command::SetPosition => 6,
            Command::GetPosition => 7,
            Command::GetVelocity => 8,
            Command::Check => 9,
            Command::SelfTest => 10,
            Command::Invalid => 11,
        }
    }
}

impl Response {
    /// The identifier of the kind of response.
    pub fn id(&self) -> (id: u8)
        ensures
            id == response_id(*self),
    {
        match self {
            Response::Success => 0,
            Response::Error => 1,
            Response::Waiting => 2,
            Response::Unknown => 3,
        }
    }
}

/// The word that four bytes hold, least significant byte first.
pub fn word(b0: u8, b1: u8, b2: u8, b3: u8) -> (w: u32)
    ensures
        w as int == word_of(b0, b1, b2, b3),
{
    (b0 as u32) + 256 * (b1 as u32) + 65_536 * (b2 as u32) + 16_777_216 * (b3 as u32)
}

/// Appends the four bytes of a word, least significant byte first.
fn push_word(out: &mut Vec<u8>, w: u32)
    ensures
        final(out)@ == old(out)@ + seq![
            byte_of(w as int, 0) as u8,
            byte_of(w as int, 1) as u8,
            byte_of(w as int, 2) as u8,
            byte_of(w as int, 3) as u8,
        ],
{
    let ghost before = out@;
    out.push((w % 256) as u8);
    out.push(((w / 256) % 256) as u8);
    out.push(((w / 65_536) % 256) as u8);
    out.push(((w / 16_777_216) % 256) as u8);
    assert(out@ =~= before + seq![
        byte_of(w as int, 0) as u8,
        byte_of(w as int, 1) as u8,
        byte_of(w as int, 2) as u8,
        byte_of(w as int, 3) as u8,
    ]);
}

/// The payload that carries a reading.
pub fn encode(r: &Reading) -> (data: Vec<u8>)
    ensures
        data@ == payload_of(*r),
{
    let mut data: Vec<u8> = Vec::new();
    push_word(&mut data, r.x);
    push_word(&mut data, r.y);
    push_word(&mut data, r.h);
    assert(data@ =~= payload_of(*r));
    data
}

/// The reading that a payload carries, where it has exactly twelve bytes.
pub fn decode(data: &Vec<u8>) -> (r: Option<Reading>)
    ensures
        r is Some <==> data@.len() == 12,
        r matches Some(reading) ==> reading == reading_of(data@),
{
    if data.len() != PAYLOAD_SIZE {
        return None;
    }
    Some(
        Reading {
            x: word(data[0], data[1], data[2], data[3]),
            y: word(data[4], data[5], data[6], data[7]),
            h: word(data[8], data[9], data[10], data[11]),
        },
    )
}

/// Decoding the payload of a reading gives the reading back.
pub proof fn payload_round_trip(r: Reading)
    ensures
        payload_of(r).len() == 12,
        reading_of(payload_of(r)) == r,
{
    lemma_word_round_trip(r.x);
    lemma_word_round_trip(r.y);
    lemma_word_round_trip(r.h);
}

/// The four bytes of a word hold the word.
pub proof fn lemma_word_round_trip(w: u32)
    ensures
        word_of(
            byte_of(w as int, 0) as u8,
            byte_of(w as int, 1) as u8,
            byte_of(w as int, 2) as u8,
            byte_of(w as int, 3) as u8,
        ) == w as int,
{
}

/// Takes a response as a position or a velocity.
///
/// The response is accepted only if it reports success, its checksum holds,
/// and its payload has twelve bytes.
pub fn accept(packet: &Packet) -> (r: Result<Reading, SerialFault>)
    ensures
        r is Ok <==> is_acceptable(packet.id, packet.checksum, packet.data@),
        r matches Ok(reading) ==> reading == reading_of(packet.data@),
        r matches Err(e) ==> e == SerialFault::ReadFailed,
{
    if packet.id != Response::Success.id() || !packet.is_correct() {
        return Err(SerialFault::ReadFailed);
    }
    match decode(&packet.data) {
        Some(reading) => Ok(reading),
        None => Err(SerialFault::ReadFailed),
    }
}

/// Why the outcome of an exchange cannot be used as a position or a
/// velocity, if it cannot: the exchange's own failure, or a failed read where
/// a response came back that is not acceptable.
pub open spec fn fault_of(outcome: Result<Packet, SerialFault>) -> Option<SerialFault> {
    match outcome {
        Err(e) => Some(e),
        Ok(p) => if is_acceptable(p.id, p.checksum, p.data@) {
            None
        } else {
            Some(SerialFault::ReadFailed)
        },
    }
}

/// What a pose cycle comes to: the position and the velocity read, where
/// both exchanges gave an acceptable response; the first failure otherwise.
/// The velocity is asked for only after the position was accepted; a cycle
/// that has an accepted position and no outcome for the velocity has failed
/// for want of a response.
pub open spec fn cycle_of(
    position: Result<Packet, SerialFault>,
    velocity: Option<Result<Packet, SerialFault>>,
) -> Result<(Reading, Reading), SerialFault> {
    match fault_of(position) {
        Some(e) => Err(e),
        None => match velocity {
            None => Err(SerialFault::WriteFailed),
            Some(v) => match fault_of(v) {
                Some(e) => Err(e),
                None => Ok((reading_of(position->Ok_0.data@), reading_of(v->Ok_0.data@))),
            },
        },
    }
}

/// The reading that the outcome of an exchange carries, or why it carries
/// none.
pub fn reading(outcome: &Result<Packet, SerialFault>) -> (r: Result<Reading, SerialFault>)
    ensures
        r is Ok <==> fault_of(*outcome) is None,
        r matches Ok(reading) ==> (outcome matches Ok(p) && reading == reading_of(p.data@)),
        r matches Err(e) ==> fault_of(*outcome) == Some(e),
{
    match outcome {
        Ok(packet) => accept(packet),
        Err(e) => Err(*e),
    }
}

/// Whether the velocity is to be asked for: only after the position was
/// accepted.
pub fn wants_velocity(position: &Result<Packet, SerialFault>) -> (ask: bool)
    ensures
        ask == (fault_of(*position) is None),
{
    reading(position).is_ok()
}

/// Ends a pose cycle. `position` is the outcome of the exchange that asked
/// for the position; `velocity` is the outcome of the exchange that asked
/// for the velocity, or `None` where it was not made.
///
/// The cycle yields the two readings exactly when both outcomes are
/// acceptable responses. Otherwise it fails with the first failure: that of
/// the position if it has one, whatever the velocity; else that of the
/// velocity; and a cycle with no outcome for the velocity fails for want of a
/// response.
pub fn cycle(
    position: &Result<Packet, SerialFault>,
    velocity: Option<&Result<Packet, SerialFault>>,
) -> (r: Result<(Reading, Reading), SerialFault>)
    ensures
        r == cycle_of(
            *position,
            match velocity {
                Some(v) => Some(*v),
                None => None,
            },
        ),
        r is Ok <==> (velocity matches Some(v) && fault_of(*position) is None && fault_of(*v)
            is None),
        fault_of(*position) matches Some(e) ==> r == Err::<(Reading, Reading), SerialFault>(e),
{
    let first = match reading(position) {
        Ok(first) => first,
        Err(e) => {
            return Err(e);
        },
    };
    match velocity {
        None => Err(SerialFault::WriteFailed),
        Some(outcome) => match reading(outcome) {
            Ok(second) => Ok((first, second)),
            Err(e) => Err(e),
        },
    }
}

impl Otos {
    /// A sensor that has not been brought up, with the pose at rest at the
    /// origin.
    pub fn new() -> (o: Otos)
        ensures
            o@.stage == Stage::Initialize,
            o@.pose == resting(Length { um: 0 }, Length { um: 0 }, Angle { urad: 0 }),
    {
        Otos {
            state: OtosState {
                pose: Pose::new(Length { um: 0 }, Length { um: 0 }, Angle { urad: 0 }),
                stage: Stage::Initialize,
            },
        }
    }

    /// The next step of the bring-up; see [`transition`].
    pub fn advance(&mut self, reply: Option<u8>, since_calibration: Time) -> (action: Action)
        ensures
            final(self)@.pose == old(self)@.pose,
            (final(self)@.stage, action) == transition(
                old(self)@.stage,
                reply,
                since_calibration.us as int,
            ),
    {
        let (stage, action) = match self.state.stage {
            Stage::Initialize => (
                Stage::PauseAfterInitialize,
                Action::Send { command: Command::Initialize, response_size: SENDING_SIZE },
            ),
            Stage::PauseAfterInitialize => (Stage::Reset, Action::Sleep { us: INITIALIZE_PAUSE }),
            Stage::Reset => (
                Stage::SetOffset,
                Action::Send { command: Command::Reset, response_size: SENDING_SIZE },
            ),
            Stage::SetOffset => (
                Stage::Calibrate,
                Action::Send { command: Command::SetOffset, response_size: SENDING_SIZE },
            ),
            Stage::Calibrate => (
                Stage::AskCalibration,
                Action::Send { command: Command::Calibrate, response_size: SENDING_SIZE },
            ),
            Stage::AskCalibration => (
                Stage::AwaitCalibration,
                Action::Send { command: Command::IsCalibrating, response_size: SENDING_SIZE },
            ),
            Stage::AwaitCalibration => {
                let ends = match reply {
                    None => true,
                    Some(id) => id != Response::Waiting.id() || since_calibration.us
                        > CALIBRATION_TIMEOUT,
                };
                if ends {
                    (
                        Stage::SelfTest,
                        Action::Send {
                            command: Command::ResetTracking,
                            response_size: SENDING_SIZE,
                        },
                    )
                } else {
                    (Stage::AskCalibration, Action::Sleep { us: POLL_PAUSE })
                }
            },
            Stage::SelfTest => (
                Stage::PauseAfterSelfTest,
                Action::Send { command: Command::SelfTest, response_size: SENDING_SIZE },
            ),
            Stage::PauseAfterSelfTest => (Stage::Ready, Action::Sleep { us: SELF_TEST_PAUSE }),
            Stage::Ready => (Stage::Ready, Action::Done),
        };
        self.state.stage = stage;
        action
    }

    /// The pose that a position and a velocity of the sensor stand for.
    ///
    /// A sample with a word at an end of the range is no position and no
    /// velocity: the cycle has failed to read one. A pose that is given has
    /// no field at an end of the range.
    pub fn get_pose(position: Sample, velocity: Sample) -> (r: Result<Pose, SerialFault>)
        ensures
            r is Ok <==> is_sound(position) && is_sound(velocity),
            r matches Ok(pose) ==> pose == pose_of(position, velocity) && is_finite(pose),
            r matches Err(e) ==> e == SerialFault::ReadFailed,
    {
        if !position.is_sound() || !velocity.is_sound() {
            return Err(SerialFault::ReadFailed);
        }
        proof {
            lemma_gain_keeps_finite(velocity.x as int, FORWARD_GAIN as int);
            lemma_gain_keeps_finite(velocity.y as int, LATERAL_GAIN as int);
            lemma_gain_keeps_finite(velocity.h as int, ANGULAR_GAIN as int);
        }
        Ok(
            Pose {
                x: Length { um: position.x },
                y: Length { um: position.y },
                h: Angle { urad: position.h },
                vf: Velocity { um_per_s: fx_mul(velocity.x, FORWARD_GAIN) },
                vs: Velocity { um_per_s: fx_mul(velocity.y, LATERAL_GAIN) },
                omega: AngularVelocity { urad_per_s: fx_mul(velocity.h, ANGULAR_GAIN) },
            },
        )
    }

    /// Ends a pose cycle: a pose replaces the stored one, a failure leaves
    /// the stored one in place.
    pub fn record(&mut self, outcome: Result<Pose, SerialFault>)
        ensures
            final(self)@.stage == old(self)@.stage,
            final(self)@.pose == match outcome {
                Ok(pose) => pose,
                Err(_) => old(self)@.pose,
            },
    {
        match outcome {
            Ok(pose) => {
                self.state.pose = pose;
            },
            Err(_) => {},
        }
    }

    /// A copy of the stored pose.
    pub fn pose(&self) -> (pose: Pose)
        ensures
            pose == self@.pose,
    {
        self.state.pose
    }

    /// The stored `x`.
    pub fn x(&self) -> (r: Length)
        ensures
            r == self@.pose.x,
    {
        self.state.pose.x
    }

    /// The stored `y`.
    pub fn y(&self) -> (r: Length)
        ensures
            r == self@.pose.y,
    {
        self.state.pose.y
    }

    /// The stored heading.
    pub fn h(&self) -> (r: Angle)
        ensures
            r == self@.pose.h,
    {
        self.state.pose.h
    }

    /// The stored forward velocity.
    pub fn vf(&self) -> (r: Velocity)
        ensures
            r == self@.pose.vf,
    {
        self.state.pose.vf
    }

    /// The stored lateral velocity.
    pub fn vs(&self) -> (r: Velocity)
        ensures
            r == self@.pose.vs,
    {
        self.state.pose.vs
    }

    /// The stored angular velocity.
    pub fn omega(&self) -> (r: AngularVelocity)
        ensures
            r == self@.pose.omega,
    {
        self.state.pose.omega
    }
}

} // verus!
