use atum::localization::odometry::{Odometry, WheelMount};
use atum::localization::pose::Pose;
use atum::localization::vec2::{Rotation, Vec2};
use atum::mappings::DriveMode;
use atum::motion::desaturate;
use atum::hardware::motor_group::{MotorCommand, MotorGroup};
use atum::subsystems::drivetrain::{
    apply_curve, differential, Drivetrain, MAX_VELOCITY, MAX_VOLTAGE,
};
use atum::subsystems::intake::{Intake, IntakeCommand};
use atum::subsystems::{Color, RobotSettings};
use atum::units::{Angle, Length, Time, Velocity};

const ONE: i64 = 1_000_000;

fn drivetrain() -> Drivetrain {
    let side = WheelMount::new(
        Vec2::new(Length::from_micrometers(-100_000), Length::zero()),
        Rotation { cos: 0, sin: ONE },
    );
    let forward = WheelMount::new(
        Vec2::new(Length::zero(), Length::from_micrometers(50_000)),
        Rotation { cos: ONE, sin: 0 },
    );
    let odometry = Odometry::new(Pose::default(), forward, side, Angle::zero());
    Drivetrain::new(
        MotorGroup::new(),
        MotorGroup::new(),
        odometry,
        Length::from_micrometers(82_550),
        Length::from_micrometers(200_000),
    )
}

fn voltages(left: i64, right: i64) -> (MotorCommand, MotorCommand) {
    (MotorCommand::Voltage(left), MotorCommand::Voltage(right))
}

#[test]
fn limits_are_twelve_volts_and_six_hundred_rpm() {
    assert_eq!(MAX_VOLTAGE, 12_000_000);
    assert_eq!(MAX_VELOCITY, 600_000_000);
}

#[test]
fn new_drivetrain_is_at_rest() {
    let dt = drivetrain();
    assert_eq!(dt.command(), voltages(0, 0));
    assert_eq!(dt.pose(), Pose::default());
    assert_eq!(dt.get_pose(), Pose::default());
    assert_eq!(dt.track(), Length::from_micrometers(200_000));
}

#[test]
fn set_voltages_and_set_velocity_record_the_command() {
    let mut dt = drivetrain();
    dt.set_voltages(3, -4);
    assert_eq!(dt.command(), voltages(3, -4));
    dt.set_velocity(5, 6);
    assert_eq!(dt.command(), (MotorCommand::Velocity(5), MotorCommand::Velocity(6)));
}

#[test]
fn arcade_mixes_sum_and_difference() {
    let mut dt = drivetrain();
    dt.arcade(5_000_000, 3_000_000);
    assert_eq!(dt.command(), voltages(8_000_000, 2_000_000));
    dt.arcade(-1_000_000, 3_000_000);
    assert_eq!(dt.command(), voltages(2_000_000, -4_000_000));
    dt.arcade(i64::MAX, i64::MAX);
    assert_eq!(dt.command(), voltages(i64::MAX, 0));
}

#[test]
fn curve_keeps_the_sign() {
    assert_eq!(apply_curve(500_000, 1), 500_000);
    assert_eq!(apply_curve(500_000, 0), 500_000);
    assert_eq!(apply_curve(500_000, -3), 500_000);
    assert_eq!(apply_curve(500_000, 2), 250_000);
    assert_eq!(apply_curve(-500_000, 2), -250_000);
    assert_eq!(apply_curve(500_000, 3), 125_000);
    assert_eq!(apply_curve(-500_000, 3), -125_000);
    assert_eq!(apply_curve(-500_000, 4), -62_500);
    assert_eq!(apply_curve(ONE, 2), ONE);
    assert_eq!(apply_curve(-ONE, 2), -ONE);
    assert_eq!(apply_curve(0, 2), 0);
}

#[test]
fn differential_in_arcade_mode_curves_the_turn() {
    let mode = DriveMode::Arcade { power: 500_000, turn: 500_000 };
    assert_eq!(differential(&mode), (9_000_000, 3_000_000));
    let mode = DriveMode::Arcade { power: 500_000, turn: -500_000 };
    assert_eq!(differential(&mode), (3_000_000, 9_000_000));
    let mode = DriveMode::Arcade { power: ONE, turn: 0 };
    assert_eq!(differential(&mode), (12_000_000, 12_000_000));
}

#[test]
fn differential_in_tank_mode_passes_the_sticks_through() {
    let mode = DriveMode::Tank { left: ONE, right: -ONE };
    assert_eq!(differential(&mode), (12_000_000, -12_000_000));
    let mode = DriveMode::Tank { left: 250_000, right: 0 };
    assert_eq!(differential(&mode), (3_000_000, 0));
}

#[test]
fn drive_gives_the_differential_voltages() {
    let mut dt = drivetrain();
    dt.drive(&DriveMode::Arcade { power: 500_000, turn: 500_000 });
    assert_eq!(dt.command(), voltages(9_000_000, 3_000_000));
    dt.drive(&DriveMode::Tank { left: -ONE, right: ONE });
    assert_eq!(dt.command(), voltages(-12_000_000, 12_000_000));
}

#[test]
fn desaturate_keeps_the_ratio() {
    assert_eq!(desaturate([1_200, 600], 600), [600, 300]);
    assert_eq!(desaturate([-1_200, 600], 600), [-600, 300]);
    assert_eq!(desaturate([600, -1_200], 600), [300, -600]);
    // rounding is toward zero
    assert_eq!(desaturate([5, -10], 5), [2, -5]);
}

#[test]
fn desaturate_leaves_commands_within_the_limit() {
    assert_eq!(desaturate([600, -600], 600), [600, -600]);
    assert_eq!(desaturate([1, 2], 600), [1, 2]);
    assert_eq!(desaturate([0, 0], 0), [0, 0]);
    assert_eq!(desaturate([0, 0], -5), [0, 0]);
}

#[test]
fn desaturate_takes_any_number_of_commands() {
    assert_eq!(desaturate([100, -400, 200], 100), [25, -100, 50]);
    assert_eq!(desaturate([7], 3), [3]);
    assert_eq!(desaturate([-7], 3), [-3]);
    assert_eq!(desaturate([], 3), []);
    assert_eq!(desaturate([1, 2, 3, 4], 4), [1, 2, 3, 4]);
}

#[test]
fn desaturate_at_the_ends_of_the_range() {
    assert_eq!(desaturate([i64::MIN, i64::MAX], i64::MAX), [-i64::MAX, i64::MAX - 1]);
    assert_eq!(desaturate([i64::MIN, 0], 1), [-1, 0]);
}

#[test]
fn pose_override_and_estimator_tick_go_through_the_drivetrain() {
    let mut dt = drivetrain();
    let p = Pose::new(Length::from_inches(1), Length::from_inches(2), Angle::from_degrees(90));
    dt.set_pose(p);
    assert_eq!(dt.pose(), p);
    assert_eq!(dt.average_heading(Angle::from_microradians(200)).urad, p.h.urad + 100);
    dt.set_voltages(7, 8);
    dt.update_pose(
        Length::from_micrometers(0),
        Length::from_micrometers(1_000),
        Angle::zero(),
        Rotation { cos: ONE, sin: 0 },
        Time::from_millis(10),
    );
    assert_eq!(dt.pose().x.um, 25_400 + 1_000);
    assert_eq!(dt.pose().y.um, 50_800);
    assert_eq!(dt.pose().vf, Velocity::from_micrometers_per_second(100_000));
    assert_eq!(dt.command(), voltages(7, 8));
}

fn rates(values: &[i64]) -> Vec<Option<i64>> {
    values.iter().map(|v| Some(*v)).collect()
}

#[test]
fn ground_speed_from_wheel_rates() {
    let mut dt = drivetrain();
    // circumference 82.55 mm * 3.141593 = 259.338 mm; 100 rpm is 432.23 mm/s
    assert_eq!(dt.velocity(&rates(&[100_000_000]), &rates(&[100_000_000])), 432_230);
    assert_eq!(dt.velocity(&rates(&[100_000_000]), &rates(&[-100_000_000])), 0);
    assert_eq!(dt.velocity(&rates(&[-60_000_000]), &rates(&[-60_000_000])), -259_338);
    // each side is the mean of its motors that answered
    assert_eq!(
        dt.velocity(&vec![Some(90_000_000), None, Some(110_000_000)], &rates(&[100_000_000])),
        432_230
    );
    // a side that does not answer is taken at its last report
    assert_eq!(dt.velocity(&vec![None], &vec![]), 432_230);
}

#[test]
fn voltages_are_read_per_side() {
    let mut dt = drivetrain();
    assert_eq!(dt.get_voltages(&vec![None], &vec![None]), [0, 0]);
    assert_eq!(
        dt.get_voltages(&vec![Some(6_000_000), Some(7_000_000)], &vec![Some(-1), None]),
        [6_500_000, -1]
    );
    assert_eq!(dt.get_voltages(&vec![None, None], &vec![]), [6_500_000, -1]);
    dt.set_voltages(1, 2);
    assert_eq!(dt.get_voltages(&vec![], &vec![Some(5)]), [6_500_000, 5]);
    assert_eq!(dt.command(), voltages(1, 2));
}

#[test]
fn rate_of_turn_from_wheel_rates() {
    let mut dt = drivetrain();
    // 259.338 mm * 200 rpm / 60 = 864.46 mm/s over a track of 0.2 m
    assert_eq!(dt.angular_velocity(&rates(&[100_000_000]), &rates(&[100_000_000])), 4_322_300);
    assert_eq!(dt.angular_velocity(&rates(&[100_000_000]), &rates(&[-100_000_000])), 0);
    let side = WheelMount::new(
        Vec2::new(Length::zero(), Length::zero()),
        Rotation { cos: 0, sin: ONE },
    );
    let forward = WheelMount::new(
        Vec2::new(Length::zero(), Length::zero()),
        Rotation { cos: ONE, sin: 0 },
    );
    let odometry = Odometry::new(Pose::default(), forward, side, Angle::zero());
    let mut trackless = Drivetrain::new(
        MotorGroup::new(),
        MotorGroup::new(),
        odometry,
        Length::from_micrometers(82_550),
        Length::zero(),
    );
    assert_eq!(trackless.angular_velocity(&rates(&[100_000_000]), &rates(&[100_000_000])), 0);
}

#[test]
fn intake_patterns() {
    let mut intake = Intake::new();
    assert_eq!(intake.voltages(), [0, 0, 0]);
    intake.set_command(Some(IntakeCommand::ScoreHigh(12)));
    assert_eq!(intake.voltages(), [-12, -12, 12]);
    intake.set_command(Some(IntakeCommand::ScoreMiddle(12)));
    assert_eq!(intake.voltages(), [-12, 12, 12]);
    intake.set_command(Some(IntakeCommand::ScoreLow(12)));
    assert_eq!(intake.voltages(), [12, 12, -12]);
    intake.set_command(Some(IntakeCommand::ScoreLow(i64::MIN)));
    assert_eq!(intake.voltages(), [i64::MIN, i64::MIN, i64::MAX]);
    intake.set_command(None);
    assert_eq!(intake.voltages(), [0, 0, 0]);
}

#[test]
fn robot_settings_hold_their_fields() {
    let s = RobotSettings { color: Color::Blue, enable_color: true };
    assert_eq!(s.color, Color::Blue);
    assert!(s.enable_color);
    assert_ne!(Color::Red, Color::Blue);
}
