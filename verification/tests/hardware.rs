use atum::hardware::imu::{mirror, Imu};
use atum::hardware::motor_group::{average, fuse, keep_successful, MotorCommand, MotorGroup};
use atum::hardware::otos::{
    accept, cycle, decode, encode, reading, wants_velocity, word, Action, Command, Otos, Reading,
    Response, Sample, CALIBRATION_TIMEOUT, PAYLOAD_SIZE, RECEIVING_SIZE, SENDING_SIZE,
};
use atum::hardware::packet::Packet;
use atum::hardware::serial_device::{SerialDevice, SerialFault, Wait};
use atum::hardware::tracking_wheel::TrackingWheel;
use atum::localization::pose::Pose;
use atum::localization::vec2::{Rotation, Vec2};
use atum::motion::move_to::Direction;
use atum::units::{Angle, AngularVelocity, Length, Time, Velocity, FULL_TURN, HALF_TURN};

#[test]
fn packet_without_payload_carries_its_id_as_checksum() {
    let p = Packet::new(5);
    assert_eq!(p.id, 5);
    assert_eq!(p.checksum, 5);
    assert!(p.data.is_empty());
    assert!(p.is_correct());
}

#[test]
fn packet_checksum_is_the_xor_of_id_and_payload() {
    let p = Packet::with_data(7, vec![1, 2, 3]);
    assert_eq!(p.id, 7);
    assert_eq!(p.checksum, 7 ^ 1 ^ 2 ^ 3);
    assert_eq!(p.data, vec![1, 2, 3]);
    let q = Packet::with_data(0xA5, vec![0xFF, 0x0F, 0x80]);
    assert_eq!(q.checksum, 0xA5 ^ 0xFF ^ 0x0F ^ 0x80);
}

#[test]
fn built_packets_are_correct() {
    for id in [0u8, 1, 7, 0x80, 0xFF] {
        assert!(Packet::new(id).is_correct());
        assert!(Packet::with_data(id, vec![0]).is_correct());
        assert!(Packet::with_data(id, vec![1, 2, 3, 4, 5, 6, 7, 8, 9, 10, 11, 12]).is_correct());
        assert!(Packet::with_data(id, vec![0xFF; 40]).is_correct());
    }
}

#[test]
fn flipping_any_payload_byte_is_detected() {
    let payload: Vec<u8> = vec![3, 1, 4, 1, 5, 9, 2, 6, 5, 3, 5, 9];
    for i in 0..payload.len() {
        for flip in [0x01u8, 0x80, 0xFF, 0x5A] {
            let mut p = Packet::with_data(7, payload.clone());
            p.data[i] ^= flip;
            assert!(!p.is_correct(), "byte {} flipped by {:#x}", i, flip);
        }
    }
}

#[test]
fn wrong_checksum_or_id_is_detected() {
    let mut p = Packet::with_data(7, vec![1, 2, 3]);
    p.checksum ^= 1;
    assert!(!p.is_correct());
    let mut q = Packet::with_data(7, vec![1, 2, 3]);
    q.id = 8;
    assert!(!q.is_correct());
    let d = Packet::default();
    assert_eq!((d.id, d.checksum, d.data.len()), (0, 0, 0));
    assert!(d.is_correct());
}

#[test]
fn packet_goes_over_the_wire_id_first() {
    let p = Packet::with_data(7, vec![1, 2, 4]);
    assert_eq!(p.to_bytes(), vec![7, 7 ^ 1 ^ 2 ^ 4, 1, 2, 4]);
    assert_eq!(Packet::new(9).to_bytes(), vec![9, 9]);
}

#[test]
fn packet_is_read_back_from_the_wire() {
    let p = Packet::with_data(7, vec![1, 2, 4]);
    let q = Packet::from_bytes(&p.to_bytes());
    assert_eq!((q.id, q.checksum, q.data.clone()), (p.id, p.checksum, p.data.clone()));
    assert!(q.is_correct());
    let empty = Packet::from_bytes(&vec![]);
    assert_eq!((empty.id, empty.checksum, empty.data.len()), (0, 0, 0));
    let one = Packet::from_bytes(&vec![9]);
    assert_eq!((one.id, one.checksum, one.data.len()), (9, 0, 0));
    let two = Packet::from_bytes(&vec![9, 8]);
    assert_eq!((two.id, two.checksum, two.data.len()), (9, 8, 0));
}

#[test]
fn poll_waits_reads_or_gives_up() {
    let d = SerialDevice::new(1, 5);
    assert_eq!(d.poll(0, 2, Time::zero()), Wait::Again);
    assert_eq!(d.poll(1, 2, Time::from_micros(4_999)), Wait::Again);
    assert_eq!(d.poll(1, 2, Time::from_micros(5_000)), Wait::GiveUp);
    assert_eq!(d.poll(0, 14, Time::from_secs(1)), Wait::GiveUp);
    assert_eq!(d.poll(2, 2, Time::zero()), Wait::Read);
    assert_eq!(d.poll(20, 14, Time::from_secs(1)), Wait::Read);
    assert_eq!(d.poll(0, 0, Time::from_secs(1)), Wait::Read);
}

#[test]
fn serial_timeout_saturates() {
    let d = SerialDevice::new(1, u64::MAX);
    assert_eq!(d.poll(0, 2, Time::from_micros(i64::MAX - 1)), Wait::Again);
    assert_eq!(d.poll(0, 2, Time::from_micros(i64::MAX)), Wait::GiveUp);
}

#[test]
fn exchange_succeeds_on_a_valid_frame_only() {
    let d = SerialDevice::new(1, 5);
    let good = Packet::with_data(0, vec![1, 2, 3]).to_bytes();
    let r = d.msg(Some(&good)).unwrap();
    assert_eq!((r.id, r.data), (0, vec![1, 2, 3]));
    let mut bad = good.clone();
    bad[3] ^= 0x10;
    assert_eq!(d.msg(Some(&bad)).unwrap_err(), SerialFault::WriteFailed);
    assert_eq!(d.msg(None).unwrap_err(), SerialFault::WriteFailed);
    // nothing but zeroes is a valid frame with id zero
    assert!(d.msg(Some(&vec![])).is_ok());
    assert_eq!(d.msg(Some(&vec![4])).unwrap_err(), SerialFault::WriteFailed);
    assert_eq!(d.write(&Packet::new(3)), vec![3, 3]);
    assert_eq!(d.read(&vec![3, 3, 1]).data, vec![1]);
}

#[test]
fn command_and_response_identifiers() {
    assert_eq!(Command::Initialize.id(), 0);
    assert_eq!(Command::Calibrate.id(), 1);
    assert_eq!(Command::IsCalibrating.id(), 2);
    assert_eq!(Command::Reset.id(), 3);
    assert_eq!(Command::ResetTracking.id(), 4);
    assert_eq!(Command::SetOffset.id(), 5);
    assert_eq!(Command::SetPosition.id(), 6);
    assert_eq!(Command::GetPosition.id(), 7);
    assert_eq!(Command::GetVelocity.id(), 8);
    assert_eq!(Command::Check.id(), 9);
    assert_eq!(Command::SelfTest.id(), 10);
    assert_eq!(Command::Invalid.id(), 11);
    assert_eq!(Response::Success.id(), 0);
    assert_eq!(Response::Error.id(), 1);
    assert_eq!(Response::Waiting.id(), 2);
    assert_eq!(Response::Unknown.id(), 3);
    assert_eq!(SENDING_SIZE, 2);
    assert_eq!(RECEIVING_SIZE, 14);
    assert_eq!(PAYLOAD_SIZE, 12);
    assert_eq!(CALIBRATION_TIMEOUT, 1_000_000);
}

#[test]
fn words_are_little_endian() {
    assert_eq!(word(0x78, 0x56, 0x34, 0x12), 0x1234_5678);
    assert_eq!(word(0xFF, 0xFF, 0xFF, 0xFF), u32::MAX);
    assert_eq!(word(0, 0, 0x80, 0x3F), 1.0f32.to_bits());
}

#[test]
fn payload_round_trip() {
    let r = Reading { x: 1.5f32.to_bits(), y: (-2.25f32).to_bits(), h: u32::MAX };
    let bytes = encode(&r);
    assert_eq!(bytes.len(), 12);
    assert_eq!(&bytes[0..4], &1.5f32.to_le_bytes());
    assert_eq!(&bytes[4..8], &(-2.25f32).to_le_bytes());
    assert_eq!(&bytes[8..12], &[0xFF, 0xFF, 0xFF, 0xFF]);
    assert_eq!(decode(&bytes), Some(r));
    assert_eq!(decode(&vec![0; 11]), None);
    assert_eq!(decode(&vec![0; 13]), None);
    assert_eq!(decode(&vec![]), None);
}

#[test]
fn response_is_accepted_only_if_it_is_a_valid_success_with_twelve_bytes() {
    let r = Reading { x: 1, y: 2, h: 3 };
    let good = Packet::with_data(Response::Success.id(), encode(&r));
    assert_eq!(good.to_bytes().len(), RECEIVING_SIZE);
    assert_eq!(accept(&good), Ok(r));
    let error = Packet::with_data(Response::Error.id(), encode(&r));
    assert_eq!(accept(&error), Err(SerialFault::ReadFailed));
    let waiting = Packet::with_data(Response::Waiting.id(), encode(&r));
    assert_eq!(accept(&waiting), Err(SerialFault::ReadFailed));
    let mut corrupt = Packet::with_data(Response::Success.id(), encode(&r));
    corrupt.data[5] ^= 0x40;
    assert_eq!(accept(&corrupt), Err(SerialFault::ReadFailed));
    let short = Packet::with_data(Response::Success.id(), vec![0; 11]);
    assert_eq!(accept(&short), Err(SerialFault::ReadFailed));
    let ack = Packet::new(Response::Success.id());
    assert_eq!(accept(&ack), Err(SerialFault::ReadFailed));
}

fn success(r: Reading) -> Result<Packet, SerialFault> {
    Ok(Packet::with_data(Response::Success.id(), encode(&r)))
}

#[test]
fn cycle_yields_both_readings_when_both_are_accepted() {
    let p = Reading { x: 1, y: 2, h: 3 };
    let v = Reading { x: 4, y: 5, h: 6 };
    assert!(wants_velocity(&success(p)));
    assert_eq!(reading(&success(p)), Ok(p));
    assert_eq!(cycle(&success(p), Some(&success(v))), Ok((p, v)));
    assert_eq!(cycle(&success(v), Some(&success(p))), Ok((v, p)));
}

#[test]
fn cycle_fails_at_the_position() {
    let v = Reading { x: 4, y: 5, h: 6 };
    let failed: Result<Packet, SerialFault> = Err(SerialFault::WriteFailed);
    let refused: Result<Packet, SerialFault> =
        Ok(Packet::with_data(Response::Error.id(), encode(&v)));
    let short: Result<Packet, SerialFault> = Ok(Packet::new(Response::Success.id()));
    let mut corrupt = Packet::with_data(Response::Success.id(), encode(&v));
    corrupt.data[0] ^= 1;
    let corrupt: Result<Packet, SerialFault> = Ok(corrupt);
    assert!(!wants_velocity(&failed));
    assert!(!wants_velocity(&refused));
    assert!(!wants_velocity(&short));
    assert!(!wants_velocity(&corrupt));
    assert_eq!(reading(&failed), Err(SerialFault::WriteFailed));
    assert_eq!(reading(&refused), Err(SerialFault::ReadFailed));
    // the exchange's own failure is handed on, a bad response is a failed read
    assert_eq!(cycle(&failed, None), Err(SerialFault::WriteFailed));
    assert_eq!(cycle(&refused, None), Err(SerialFault::ReadFailed));
    assert_eq!(cycle(&short, None), Err(SerialFault::ReadFailed));
    assert_eq!(cycle(&corrupt, None), Err(SerialFault::ReadFailed));
    // whatever the velocity
    assert_eq!(cycle(&failed, Some(&success(v))), Err(SerialFault::WriteFailed));
    assert_eq!(cycle(&refused, Some(&success(v))), Err(SerialFault::ReadFailed));
    let read_failed: Result<Packet, SerialFault> = Err(SerialFault::ReadFailed);
    assert_eq!(cycle(&read_failed, Some(&failed)), Err(SerialFault::ReadFailed));
}

#[test]
fn cycle_fails_at_the_velocity() {
    let p = Reading { x: 1, y: 2, h: 3 };
    let failed: Result<Packet, SerialFault> = Err(SerialFault::WriteFailed);
    let waiting: Result<Packet, SerialFault> =
        Ok(Packet::with_data(Response::Waiting.id(), encode(&p)));
    let long: Result<Packet, SerialFault> =
        Ok(Packet::with_data(Response::Success.id(), vec![0; 13]));
    assert_eq!(cycle(&success(p), Some(&failed)), Err(SerialFault::WriteFailed));
    assert_eq!(cycle(&success(p), Some(&waiting)), Err(SerialFault::ReadFailed));
    assert_eq!(cycle(&success(p), Some(&long)), Err(SerialFault::ReadFailed));
    // an accepted position with no answer for the velocity is no pose
    assert_eq!(cycle(&success(p), None), Err(SerialFault::WriteFailed));
}

#[test]
fn sample_at_the_end_of_the_range_is_no_pose() {
    let good = Sample { x: 1, y: 2, h: 3 };
    assert!(good.is_sound());
    assert!(Sample { x: i64::MAX - 1, y: i64::MIN + 1, h: 0 }.is_sound());
    for bad in [
        Sample { x: i64::MAX, y: 2, h: 3 },
        Sample { x: 1, y: i64::MIN, h: 3 },
        Sample { x: 1, y: 2, h: i64::MAX },
    ] {
        assert!(!bad.is_sound());
        assert_eq!(Otos::get_pose(bad, good), Err(SerialFault::ReadFailed));
        assert_eq!(Otos::get_pose(good, bad), Err(SerialFault::ReadFailed));
    }
    // a failed cycle keeps the pose of the cycle before
    let mut otos = Otos::new();
    let before = Otos::get_pose(good, good).unwrap();
    otos.record(Ok(before));
    otos.record(Otos::get_pose(good, Sample { x: i64::MAX, y: 0, h: 0 }));
    assert_eq!(otos.pose(), before);
    // the largest sample still gives a pose inside the range
    let edge = Sample { x: i64::MIN + 1, y: i64::MAX - 1, h: i64::MIN + 1 };
    let pose = Otos::get_pose(edge, edge).unwrap();
    assert_eq!(pose.vf.um_per_s, 8_946_670_875_749_132_532);
    assert_eq!(pose.vs.um_per_s, 8_946_670_875_749_132_531);
    assert_eq!(pose.omega.urad_per_s, 9_061_963_026_209_817_230);
}

#[test]
fn sensor_pose_scales_the_velocities() {
    let position = Sample { x: 1_000_000, y: 2_000_000, h: 500_000 };
    let velocity = Sample { x: 100_000, y: 200_000, h: 1_000_000 };
    let pose = Otos::get_pose(position, velocity).unwrap();
    assert_eq!(pose.x, Length::from_meters(1));
    assert_eq!(pose.y, Length::from_meters(2));
    assert_eq!(pose.h, Angle::from_microradians(500_000));
    assert_eq!(pose.vf, Velocity::from_micrometers_per_second(-97_000));
    assert_eq!(pose.vs, Velocity::from_micrometers_per_second(194_000));
    assert_eq!(pose.omega, AngularVelocity::from_microradians_per_second(-982_500));
}

fn send(command: Command) -> Action {
    Action::Send { command, response_size: 2 }
}

#[test]
fn bring_up_runs_in_order() {
    let mut otos = Otos::new();
    let t = Time::zero();
    assert_eq!(otos.advance(None, t), send(Command::Initialize));
    assert_eq!(otos.advance(Some(0), t), Action::Sleep { us: 500_000 });
    assert_eq!(otos.advance(None, t), send(Command::Reset));
    assert_eq!(otos.advance(Some(0), t), send(Command::SetOffset));
    assert_eq!(otos.advance(Some(0), t), send(Command::Calibrate));
    assert_eq!(otos.advance(Some(0), t), send(Command::IsCalibrating));
    // still calibrating: pause and ask again
    assert_eq!(otos.advance(Some(2), Time::from_millis(1)), Action::Sleep { us: 10_000 });
    assert_eq!(otos.advance(None, Time::from_millis(11)), send(Command::IsCalibrating));
    assert_eq!(otos.advance(Some(2), Time::from_millis(12)), Action::Sleep { us: 10_000 });
    assert_eq!(otos.advance(None, Time::from_millis(22)), send(Command::IsCalibrating));
    // done calibrating
    assert_eq!(otos.advance(Some(0), Time::from_millis(23)), send(Command::ResetTracking));
    assert_eq!(otos.advance(Some(0), t), send(Command::SelfTest));
    assert_eq!(otos.advance(Some(0), t), Action::Sleep { us: 100_000 });
    assert_eq!(otos.advance(None, t), Action::Done);
    assert_eq!(otos.advance(None, t), Action::Done);
    assert_eq!(otos.pose(), Pose::default());
}

fn at_calibration() -> Otos {
    let mut otos = Otos::new();
    for _ in 0..6 {
        otos.advance(Some(0), Time::zero());
    }
    otos
}

#[test]
fn calibration_wait_ends_on_timeout() {
    let mut otos = at_calibration();
    // exactly one second is not yet over
    assert_eq!(otos.advance(Some(2), Time::from_secs(1)), Action::Sleep { us: 10_000 });
    assert_eq!(otos.advance(None, Time::from_secs(1)), send(Command::IsCalibrating));
    assert_eq!(otos.advance(Some(2), Time::from_micros(1_000_001)), send(Command::ResetTracking));
    assert_eq!(otos.advance(None, Time::zero()), send(Command::SelfTest));
}

#[test]
fn calibration_wait_ends_on_a_failed_exchange() {
    let mut otos = at_calibration();
    assert_eq!(otos.advance(None, Time::zero()), send(Command::ResetTracking));
}

#[test]
fn calibration_wait_ends_on_any_answer_but_waiting() {
    for id in [0u8, 1, 3, 200] {
        let mut otos = at_calibration();
        assert_eq!(otos.advance(Some(id), Time::zero()), send(Command::ResetTracking));
    }
}

#[test]
fn failed_cycle_keeps_the_stale_pose() {
    let mut otos = Otos::new();
    let p = Otos::get_pose(
        Sample { x: 1, y: 2, h: 3 },
        Sample { x: 4_000_000, y: 5_000_000, h: 6_000_000 },
    )
    .unwrap();
    otos.record(Ok(p));
    assert_eq!(otos.pose(), p);
    otos.record(Err(SerialFault::ReadFailed));
    assert_eq!(otos.pose(), p);
    otos.record(Err(SerialFault::WriteFailed));
    assert_eq!(otos.pose(), p);
    assert_eq!(otos.x(), p.x);
    assert_eq!(otos.y(), p.y);
    assert_eq!(otos.h(), p.h);
    assert_eq!(otos.vf(), Velocity::from_micrometers_per_second(-3_880_000));
    assert_eq!(otos.vs(), Velocity::from_micrometers_per_second(4_850_000));
    assert_eq!(otos.omega(), AngularVelocity::from_microradians_per_second(-5_895_000));
}

#[test]
fn average_rounds_toward_zero() {
    assert_eq!(average(&vec![1, 2, 4]), Some(2));
    assert_eq!(average(&vec![-1, -2, -4]), Some(-2));
    assert_eq!(average(&vec![5]), Some(5));
    assert_eq!(average(&vec![]), None);
    assert_eq!(average(&vec![i64::MAX, i64::MAX, i64::MAX]), Some(i64::MAX));
    assert_eq!(average(&vec![i64::MIN, i64::MIN]), Some(i64::MIN));
    assert_eq!(average(&vec![i64::MIN, i64::MAX]), Some(0));
}

#[test]
fn failed_readings_are_left_out() {
    assert_eq!(keep_successful(&vec![Some(10), None, Some(20)]), vec![10, 20]);
    assert_eq!(keep_successful(&vec![None, None]), Vec::<i64>::new());
    assert_eq!(fuse(&vec![Some(10), None, Some(20)], 99), 15);
    assert_eq!(fuse(&vec![None, None], 99), 99);
    assert_eq!(fuse(&vec![], 99), 99);
}

#[test]
fn readings_at_the_end_of_the_range_are_left_out() {
    assert_eq!(
        keep_successful(&vec![Some(10), Some(i64::MAX), Some(i64::MIN), Some(20)]),
        vec![10, 20]
    );
    assert_eq!(fuse(&vec![Some(10), Some(i64::MAX), None, Some(20)], 99), 15);
    assert_eq!(fuse(&vec![Some(i64::MAX), Some(i64::MIN)], 99), 99);
    assert_eq!(fuse(&vec![Some(i64::MAX - 1), Some(i64::MAX - 1)], 99), i64::MAX - 1);
    assert_eq!(
        fuse(&vec![Some(i64::MIN + 1), Some(i64::MIN + 1), Some(i64::MIN + 1)], 99),
        i64::MIN + 1
    );
    let mut g = MotorGroup::new();
    assert_eq!(g.voltage(&vec![Some(4_000_000)]), 4_000_000);
    assert_eq!(g.voltage(&vec![Some(i64::MAX)]), 4_000_000);
    assert_eq!(g.velocity(&vec![Some(i64::MIN), Some(7)]), 7);
    let mut imu = Imu::new(Angle::from_microradians(42));
    assert_eq!(
        mirror(&vec![Some(i64::MAX), Some(i64::MIN), Some(1)]),
        vec![None, None, Some(FULL_TURN - 1)]
    );
    assert_eq!(imu.rotation(&vec![Some(i64::MAX)]).urad, 42);
    assert_eq!(imu.rotation(&vec![Some(i64::MAX), Some(1_000_000)]).urad, FULL_TURN - 1_000_000);
    // a reading that runs off when it is mirrored is left out as well
    assert_eq!(imu.rotation(&vec![Some(i64::MIN + 1)]).urad, FULL_TURN - 1_000_000);
    assert_eq!(imu.heading(&vec![Some(i64::MIN), None]).urad, FULL_TURN - 1_000_000);
}

#[test]
fn motor_group_reuses_its_last_report() {
    let mut g = MotorGroup::new();
    assert_eq!(g.command(), MotorCommand::Voltage(0));
    g.set_velocity(300_000_000);
    assert_eq!(g.command(), MotorCommand::Velocity(300_000_000));
    g.set_voltage(6_000_000);
    assert_eq!(g.command(), MotorCommand::Voltage(6_000_000));
    assert_eq!(g.voltage(&vec![None]), 0);
    assert_eq!(g.voltage(&vec![Some(5_000_000), Some(6_000_000), None]), 5_500_000);
    assert_eq!(g.voltage(&vec![None, None, None]), 5_500_000);
    assert_eq!(g.velocity(&vec![None]), 0);
    assert_eq!(g.velocity(&vec![Some(100), Some(300)]), 200);
    assert_eq!(g.velocity(&vec![]), 200);
    assert_eq!(g.voltage(&vec![]), 5_500_000);
    assert_eq!(g.command(), MotorCommand::Voltage(6_000_000));
}

#[test]
fn imu_mirrors_and_averages() {
    assert_eq!(mirror(&vec![Some(1_000_000), None]), vec![Some(FULL_TURN - 1_000_000), None]);
    let mut imu = Imu::new(Angle::from_microradians(42));
    assert_eq!(imu.rotation(&vec![None, None]).urad, 42);
    assert_eq!(
        imu.rotation(&vec![Some(1_000_000), Some(2_000_000), None]).urad,
        FULL_TURN - 1_500_000
    );
    assert_eq!(imu.rotation(&vec![None]).urad, FULL_TURN - 1_500_000);
}

#[test]
fn imu_heading_is_normalized() {
    let mut imu = Imu::new(Angle::zero());
    assert_eq!(imu.heading(&vec![Some(1_000_000)]).urad, FULL_TURN - 1_000_000);
    // the sensor has turned more than once: the rotation is negative
    assert_eq!(imu.heading(&vec![Some(7_000_000)]).urad, 2 * FULL_TURN - 7_000_000);
    assert_eq!(imu.rotation(&vec![Some(7_000_000)]).urad, FULL_TURN - 7_000_000);
    assert_eq!(imu.heading(&vec![Some(FULL_TURN)]).urad, 0);
    assert_eq!(imu.heading(&vec![Some(0)]).urad, 0);
    assert_eq!(imu.heading(&vec![Some(-1)]).urad, 1);
}

fn wheel(direction: Direction, position: i64) -> TrackingWheel {
    TrackingWheel::new(
        direction,
        Length::from_inches(2),
        Vec2::new(Length::from_micrometers(10), Length::from_micrometers(20)),
        Angle::from_degrees(90),
        Rotation { cos: 0, sin: 1_000_000 },
        Angle::from_microradians(position),
    )
}

#[test]
fn tracking_wheel_rolls_its_circumference_per_turn() {
    let mut w = wheel(Direction::Forward, 0);
    assert_eq!(w.angle(), Angle::from_degrees(90));
    assert_eq!(w.from_center().x.um, 10);
    assert_eq!(w.from_center().y.um, 20);
    assert_eq!(w.mount().axis, Rotation { cos: 0, sin: 1_000_000 });
    // 50.8 mm * 3.141593 = 159.592 mm
    assert_eq!(w.traveled(Angle::from_microradians(FULL_TURN)).um, 159_592);
    // no change since
    assert_eq!(w.traveled(Angle::from_microradians(FULL_TURN)).um, 0);
    // half a turn back
    assert_eq!(w.traveled(Angle::from_microradians(HALF_TURN)).um, -79_796);
}

#[test]
fn tracking_wheel_shows_a_position_at_the_end_of_the_range() {
    let big = TrackingWheel::new(
        Direction::Forward,
        Length::from_millimeters(60),
        Vec2::new(Length::zero(), Length::zero()),
        Angle::zero(),
        Rotation { cos: 1_000_000, sin: 0 },
        Angle::zero(),
    );
    let mut w = big;
    assert_eq!(w.traveled(Angle::from_microradians(i64::MAX)).um, i64::MAX);
    // the position before is at the end of the range: still no arc
    assert_eq!(w.traveled(Angle::from_microradians(5)).um, i64::MIN);
    // and then the wheel measures again: one radian of a circumference of
    // 188.495 mm is 29.999 mm
    assert_eq!(w.traveled(Angle::from_microradians(1_000_005)).um, 29_999);

    let mut w = wheel(Direction::Forward, 0);
    assert_eq!(w.traveled(Angle::from_microradians(i64::MIN)).um, i64::MIN);
    // a reversed wheel turns the least position into the greatest
    let mut w = wheel(Direction::Reverse, 0);
    assert_eq!(w.traveled(Angle::from_microradians(i64::MIN)).um, i64::MAX);
    // the greatest position reversed is one short of the least, and is seen all the same
    let mut w = wheel(Direction::Reverse, 0);
    assert_eq!(w.traveled(Angle::from_microradians(i64::MAX)).um, i64::MIN);
    // a change that runs off the range
    let mut w = wheel(Direction::Forward, -2);
    assert_eq!(w.traveled(Angle::from_microradians(i64::MAX - 1)).um, i64::MAX);
    // the largest change that does not: about 2^63 rad of a 50.8 mm wheel
    let mut w = wheel(Direction::Forward, 0);
    assert_eq!(w.traveled(Angle::from_microradians(i64::MAX - 1)).um, 234272292767670315);
    // a wheel with no circumference to speak of
    let mut w = TrackingWheel::new(
        Direction::Forward,
        Length::from_micrometers(i64::MAX),
        Vec2::new(Length::zero(), Length::zero()),
        Angle::zero(),
        Rotation { cos: 1_000_000, sin: 0 },
        Angle::zero(),
    );
    assert_eq!(w.traveled(Angle::from_microradians(-1)).um, i64::MIN);
}

#[test]
fn reversed_tracking_wheel_counts_backward() {
    let mut w = wheel(Direction::Reverse, 0);
    assert_eq!(w.traveled(Angle::from_microradians(FULL_TURN)).um, -159_592);
    assert_eq!(w.traveled(Angle::from_microradians(0)).um, 159_592);
    assert!(Direction::Reverse.is_reverse());
    assert!(!Direction::Forward.is_reverse());
}
