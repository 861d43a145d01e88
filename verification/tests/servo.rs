use rc_car::motor::duty_from_angle;
use rc_car::motor::ledc::Channel;
use rc_car::motor::ledc::ChannelNumber;
use rc_car::motor::ledc::Duty;
use rc_car::motor::ledc::Number;
use rc_car::motor::ledc_motor::PwmMotor;
use rc_car::motor::servo::angle_duty;
use rc_car::motor::servo::servo_motor_loop;
use rc_car::motor::servo::Pause;
use rc_car::motor::servo::ServoAction;
use rc_car::motor::servo::ServoEvent;
use rc_car::motor::servo::ServoState;
use rc_car::motor::servo::SETTLE_MILLIS;
use rc_car::motor::ServoCmd;
use rc_car::motor::Speed;

const PERIOD: u16 = 4096;

fn turn(state: &mut ServoState, angle: i32) -> Vec<u16> {
    let mut duties = vec![];
    let mut action = servo_motor_loop(
        state,
        ServoEvent::Command(ServoCmd::TurnToAngle(angle)),
        PERIOD,
    );
    while let ServoAction::Move { duty, .. } = action {
        duties.push(duty);
        action = servo_motor_loop(state, ServoEvent::Moved, PERIOD);
    }
    assert!(matches!(action, ServoAction::Receive));
    duties
}

#[test]
fn the_ends_of_the_pulse_are_a_fortieth_and_an_eighth_of_the_period() {
    assert_eq!(duty_from_angle(0, 20_000), 500);
    assert_eq!(duty_from_angle(180, 20_000), 2500);
    assert_eq!(duty_from_angle(90, 20_000), 1500);
    assert_eq!(duty_from_angle(1, 20_000), 511);
    assert_eq!(duty_from_angle(45, 4096), 102 + 45 * 410 / 180);
}

#[test]
fn a_duty_keeps_its_low_sixteen_bits() {
    assert_eq!(duty_from_angle(180, 1_000_000), (125_000u32 % 65_536) as u16);
}

#[test]
fn duties_grow_with_the_angle_and_stay_in_range() {
    let mut last = 0;
    for deg in 0..=180 {
        let duty = duty_from_angle(deg, 20_000);
        assert!(duty >= last);
        assert!((500..=2500).contains(&duty));
        last = duty;
    }
}

#[test]
fn duties_grow_with_the_period() {
    for deg in [0, 1, 45, 90, 179, 180] {
        for period in 0..3000 {
            assert!(duty_from_angle(deg, period) <= duty_from_angle(deg, period + 1));
        }
    }
}

#[test]
fn angles_are_clamped() {
    assert_eq!(angle_duty(-20, 20_000), 500);
    assert_eq!(angle_duty(270, 20_000), 2500);
    assert_eq!(angle_duty(i32::MIN, 20_000), 500);
    assert_eq!(angle_duty(90, 20_000), 1500);
}

#[test]
fn speeds_pause_as_told() {
    assert!(matches!(Speed::Slow.pause(), Pause::Millis(15)));
    assert!(matches!(Speed::Normal.pause(), Pause::Millis(10)));
    assert!(matches!(Speed::Fast.pause(), Pause::Millis(5)));
    assert!(matches!(Speed::Instant.pause(), Pause::Skip));
    let time = embassy_time::Duration::from_millis(7);
    match Speed::Custom(time).pause() {
        Pause::For(pause) => assert_eq!(pause, time),
        _ => panic!("not a pause of its own"),
    }
}

#[test]
fn a_servo_homes_first() {
    let mut state = ServoState::new(60, Speed::Fast);
    match servo_motor_loop(&mut state, ServoEvent::Start, PERIOD) {
        ServoAction::Home { duty, settle_millis } => {
            assert_eq!(duty, 238);
            assert_eq!(settle_millis, SETTLE_MILLIS);
            assert_eq!(settle_millis, 500);
        }
        _ => panic!("not homing"),
    }
    let action = servo_motor_loop(&mut state, ServoEvent::Homed, PERIOD);
    assert!(matches!(action, ServoAction::Receive));
    assert_eq!(state.angle(), 60);
}

#[test]
fn a_sweep_starts_at_the_angle_it_leaves_and_stops_before_its_target() {
    let mut state = ServoState::new(10, Speed::Fast);
    assert_eq!(turn(&mut state, 13), vec![124, 127, 129]);
    assert_eq!(state.angle(), 13);
    assert_eq!(turn(&mut state, 11), vec![131, 129]);
    assert_eq!(state.angle(), 11);
    assert_eq!(turn(&mut state, 12), vec![127]);
    assert_eq!(state.angle(), 12);
}

#[test]
fn a_sweep_has_a_move_for_every_degree() {
    let mut state = ServoState::new(0, Speed::Instant);
    assert_eq!(turn(&mut state, 180).len(), 180);
    assert_eq!(turn(&mut state, -20).len(), 200);
    assert_eq!(state.angle(), -20);
}

#[test]
fn turning_to_the_current_angle_moves_nothing() {
    let mut state = ServoState::new(42, Speed::Slow);
    assert!(turn(&mut state, 42).is_empty());
    assert_eq!(state.angle(), 42);
}

#[test]
fn a_change_of_speed_moves_nothing_and_counts_from_the_next_move_on() {
    let mut state = ServoState::new(0, Speed::Fast);
    let action = servo_motor_loop(
        &mut state,
        ServoEvent::Command(ServoCmd::SetSpeed(Speed::Slow)),
        PERIOD,
    );
    assert!(matches!(action, ServoAction::Receive));
    assert_eq!(state.angle(), 0);
    let action = servo_motor_loop(
        &mut state,
        ServoEvent::Command(ServoCmd::TurnToAngle(1)),
        PERIOD,
    );
    assert!(matches!(action, ServoAction::Move { duty: 102, pause: Pause::Millis(15) }));
}

#[test]
fn a_command_tells_its_target() {
    let mut state = ServoState::new(5, Speed::Fast);
    assert_eq!(state.target_of(&ServoCmd::TurnToAngle(77)), 77);
    assert_eq!(state.target_of(&ServoCmd::SetSpeed(Speed::Slow)), 5);
    turn(&mut state, 9);
    assert_eq!(state.target_of(&ServoCmd::SetSpeed(Speed::Slow)), 9);
}

#[test]
fn a_servo_task_sets_its_channel() {
    let pwm = Channel::configured(ChannelNumber::Channel3, Number::Timer1, Duty::Duty12Bit);
    let motor = PwmMotor::new(pwm, 60);
    assert_eq!(motor.initial_angle, 60);
    let mut task = motor.task();
    assert_eq!(task.pwm(), pwm);
    let action = task.drive(ServoEvent::Start);
    assert!(matches!(action, ServoAction::Home { duty: 238, settle_millis: 500 }));
    assert_eq!(task.pwm(), Channel { duty: 238, ..pwm });
    task.drive(ServoEvent::Homed);
    let action = task.drive(ServoEvent::Command(ServoCmd::TurnToAngle(62)));
    assert!(matches!(action, ServoAction::Move { duty: 238, pause: Pause::Millis(5) }));
    task.drive(ServoEvent::Moved);
    assert_eq!(task.pwm().duty, 102 + 61 * 410 / 180);
    assert_eq!(task.angle(), 60);
    assert!(matches!(task.drive(ServoEvent::Moved), ServoAction::Receive));
    assert_eq!(task.angle(), 62);
    assert_eq!(task.pwm().duty, 102 + 61 * 410 / 180);
}
