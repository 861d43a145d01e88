use rc_car::gpio::Level;
use rc_car::motor::dc_motor;
use rc_car::motor::dc_motor::DCMotor;
use rc_car::motor::ledc::idx_to_timer;
use rc_car::motor::ledc::Channel;
use rc_car::motor::ledc::ChannelNumber;
use rc_car::motor::ledc::Config;
use rc_car::motor::ledc::Duty;
use rc_car::motor::ledc::LSClockSource;
use rc_car::motor::ledc::Number;
use rc_car::motor::ledc_motor;
use rc_car::motor::ledc_motor::Dc;
use rc_car::motor::ledc_motor::End;
use rc_car::motor::ledc_motor::Servo;
use rc_car::motor::ledc_motor::TimerConfigTrait;
use rc_car::motor::ledc_motor::TimerCount;
use rc_car::motor::ledc_motor::TimerEntry;
use rc_car::motor::mcpwm_motor;
use rc_car::motor::mcpwm_motor::operator_clock;
use rc_car::motor::mcpwm_motor::step_motor_loop;
use rc_car::motor::mcpwm_motor::ErasedPwmPin;
use rc_car::motor::mcpwm_motor::PwmController;
use rc_car::motor::mcpwm_motor::PwmPin;
use rc_car::motor::mcpwm_motor::ServoMotor;
use rc_car::motor::mcpwm_motor::StepCmd;
use rc_car::motor::mcpwm_motor::StepMotorBuilder;
use rc_car::motor::mcpwm_motor::TimerClock;
use rc_car::motor::servo::Pause;
use rc_car::motor::servo::ServoAction;
use rc_car::motor::servo::ServoEvent;
use rc_car::motor::step_motor::retarget;
use rc_car::motor::step_motor::step_pulse;
use rc_car::motor::step_motor::StepPulse;
use rc_car::motor::step_motor::Target;
use rc_car::motor::step_motor::STEPS_PER_REV;
use rc_car::motor::ServoCmd;

fn config(duty: Duty, frequency: u32) -> Config {
    Config { duty, clock_source: LSClockSource::APBClk, frequency }
}

#[test]
fn timers_are_numbered() {
    assert_eq!(idx_to_timer(0), Number::Timer0);
    assert_eq!(idx_to_timer(1), Number::Timer1);
    assert_eq!(idx_to_timer(2), Number::Timer2);
    assert_eq!(idx_to_timer(3), Number::Timer3);
}

#[test]
fn a_resolution_has_as_many_duties_as_its_bits_say() {
    assert_eq!(Duty::Duty1Bit.range(), 2);
    assert_eq!(Duty::Duty2Bit.range(), 4);
    assert_eq!(Duty::Duty3Bit.range(), 8);
    assert_eq!(Duty::Duty4Bit.range(), 16);
    assert_eq!(Duty::Duty5Bit.range(), 32);
    assert_eq!(Duty::Duty6Bit.range(), 64);
    assert_eq!(Duty::Duty7Bit.range(), 128);
    assert_eq!(Duty::Duty8Bit.range(), 256);
    assert_eq!(Duty::Duty9Bit.range(), 512);
    assert_eq!(Duty::Duty10Bit.range(), 1024);
    assert_eq!(Duty::Duty11Bit.range(), 2048);
    assert_eq!(Duty::Duty12Bit.range(), 4096);
    assert_eq!(Duty::Duty13Bit.range(), 8192);
    assert_eq!(Duty::Duty14Bit.range(), 16384);
}

#[test]
fn a_dc_motor_goes_both_ways_and_stops() {
    let pwm = Channel::configured(ChannelNumber::Channel0, Number::Timer0, Duty::Duty8Bit);
    let mut motor = DCMotor::new(pwm);
    assert_eq!((motor.pina, motor.pinb), (Level::Low, Level::Low));
    motor.go_front();
    assert_eq!((motor.pina, motor.pinb), (Level::High, Level::Low));
    motor.go_back();
    assert_eq!((motor.pina, motor.pinb), (Level::Low, Level::High));
    motor.stop();
    assert_eq!((motor.pina, motor.pinb), (Level::Low, Level::Low));
    motor.set_duty_percent(50);
    assert_eq!(motor.pwm.duty, 128);
    motor.set_duty_percent(100);
    assert_eq!(motor.pwm.duty, 256);
    motor.set_duty_percent(33);
    assert_eq!(motor.pwm.duty, 84);
    motor.set_duty_percent(0);
    assert_eq!(motor.pwm.duty, 0);
}

#[test]
fn a_duty_can_be_set_as_it_is() {
    let mut pwm = Channel::configured(ChannelNumber::Channel0, Number::Timer0, Duty::Duty12Bit);
    assert_eq!(pwm.max_duty_cycle(), 4096);
    pwm.set_duty_hw(77);
    assert_eq!(pwm.duty, 77);
}

#[test]
fn equal_configurations_share_a_timer() {
    let slow = config(Duty::Duty12Bit, 50);
    let fast = config(Duty::Duty8Bit, 20_000);
    let fine = config(Duty::Duty12Bit, 20_000);
    let spawner = dc_motor::MotorSpawner::new()
        .spawn(slow)
        .spawn(fast)
        .spawn(slow)
        .spawn(fine)
        .spawn(fast);
    let motors = spawner.finish();
    assert_eq!(motors[0].pwm.timer, Number::Timer0);
    assert_eq!(motors[1].pwm.timer, Number::Timer1);
    assert_eq!(motors[2].pwm.timer, Number::Timer0);
    assert_eq!(motors[3].pwm.timer, Number::Timer2);
    assert_eq!(motors[4].pwm.timer, Number::Timer1);
    assert_eq!(motors[0].pwm.number, ChannelNumber::Channel0);
    assert_eq!(motors[4].pwm.number, ChannelNumber::Channel4);
    assert_eq!(motors[3].pwm.resolution, Duty::Duty12Bit);
    assert_eq!(motors[4].pwm.resolution, Duty::Duty8Bit);
}

#[test]
fn a_fifth_configuration_finds_no_timer() {
    let spawner = dc_motor::MotorSpawner::new()
        .spawn(config(Duty::Duty8Bit, 1))
        .spawn(config(Duty::Duty8Bit, 2))
        .spawn(config(Duty::Duty8Bit, 3));
    assert!(spawner.has_timer_for(config(Duty::Duty8Bit, 5)));
    let spawner = spawner.spawn(config(Duty::Duty8Bit, 4));
    assert!(!spawner.has_timer_for(config(Duty::Duty8Bit, 5)));
    assert!(!spawner.has_timer_for(config(Duty::Duty9Bit, 4)));
    assert!(spawner.has_timer_for(config(Duty::Duty8Bit, 4)));
    let motors = spawner
        .spawn(config(Duty::Duty8Bit, 3))
        .spawn(config(Duty::Duty8Bit, 2))
        .spawn(config(Duty::Duty8Bit, 1))
        .spawn(config(Duty::Duty8Bit, 1))
        .finish();
    assert_eq!(motors[3].pwm.timer, Number::Timer3);
    assert_eq!(motors[4].pwm.timer, Number::Timer2);
    assert_eq!(motors[7].pwm.timer, Number::Timer0);
    assert_eq!(motors[7].pwm.number, ChannelNumber::Channel7);
}

#[test]
fn typed_configurations_have_their_values() {
    assert_eq!(Servo::as_config(), config(Duty::Duty12Bit, 50));
    assert_eq!(Dc::as_config(), config(Duty::Duty8Bit, 20_000));
    assert_eq!(Servo::FREQUENCY, 50);
    assert_eq!(Dc::DUTY_RESOLUTION, Duty::Duty8Bit);
}

#[test]
fn the_type_counts_the_timers() {
    assert_eq!(<End as TimerCount>::COUNT, 0);
    assert_eq!(<TimerEntry<Servo, End> as TimerCount>::COUNT, 1);
    assert_eq!(<TimerEntry<Dc, TimerEntry<Servo, End>> as TimerCount>::COUNT, 2);
}

#[test]
fn servos_share_a_timer_that_is_reused() {
    let motors = ledc_motor::MotorSpawner::new_pwm()
        .spawn_new(60, Servo)
        .spawn_reuse(0, Servo)
        .spawn_reuse(40, Servo)
        .spawn_new(10, Dc)
        .spawn_reuse(80, Servo)
        .finish();
    assert_eq!(motors[0].pwm.timer, Number::Timer0);
    assert_eq!(motors[1].pwm.timer, Number::Timer0);
    assert_eq!(motors[2].pwm.timer, Number::Timer0);
    assert_eq!(motors[3].pwm.timer, Number::Timer1);
    assert_eq!(motors[4].pwm.timer, Number::Timer0);
    assert_eq!(motors[3].pwm.resolution, Duty::Duty8Bit);
    assert_eq!(motors[4].pwm.resolution, Duty::Duty12Bit);
    assert_eq!(motors[4].pwm.number, ChannelNumber::Channel4);
    assert_eq!(motors[0].initial_angle, 60);
    assert_eq!(motors[4].initial_angle, 80);
}

#[test]
fn dc_motors_get_a_new_timer_each_time_they_ask_for_one() {
    let motors = ledc_motor::MotorSpawner::new_dc()
        .spawn_new(Dc)
        .spawn_new(Servo)
        .spawn_reuse(Dc)
        .finish();
    assert_eq!(motors[0].pwm.timer, Number::Timer0);
    assert_eq!(motors[1].pwm.timer, Number::Timer1);
    assert_eq!(motors[2].pwm.timer, Number::Timer0);
    assert_eq!(motors[2].pwm.number, ChannelNumber::Channel2);
    assert_eq!(motors[1].pwm.resolution, Duty::Duty12Bit);
    assert_eq!(motors[2].pina, Level::Low);
}

#[test]
fn operators_are_clocked_for_their_motors() {
    assert_eq!(
        operator_clock::<ServoMotor>(1),
        TimerClock { period: 19_999, frequency: 50 }
    );
    assert_eq!(
        operator_clock::<StepMotorBuilder>(2),
        TimerClock { period: 99, frequency: 1_000 }
    );
    assert_eq!(ServoMotor::timer_period(0), 20_000);
    assert_eq!(StepMotorBuilder::timer_frequency(0), 1_000);
    assert_eq!(ServoMotor::MAPPINGS, [(20_000, 50); 3]);
}

#[test]
fn servos_take_the_operators_in_order() {
    let (m0, m1, m2) = mcpwm_motor::MotorSpawner::new_servo()
        .spawn(Some(30))
        .spawn(None)
        .spawn(Some(-5))
        .finish();
    assert_eq!(m0.pin(), ErasedPwmPin::Op0(PwmPin { period: 19_999, timestamp: 0 }));
    assert_eq!(m1.pin(), ErasedPwmPin::Op1(PwmPin { period: 19_999, timestamp: 0 }));
    assert_eq!(m2.pin(), ErasedPwmPin::Op2(PwmPin { period: 19_999, timestamp: 0 }));
    assert_eq!(m0.angle(), 30);
    assert_eq!(m1.angle(), 0);
    assert_eq!(m2.angle(), -5);
    let m = mcpwm_motor::MotorSpawner::new_servo().spawn(Some(7)).finish();
    assert_eq!(m.angle(), 7);
    let (a, b) = mcpwm_motor::MotorSpawner::new_servo().spawn(Some(1)).spawn(Some(2)).finish();
    assert_eq!((a.angle(), b.angle()), (1, 2));
}

#[test]
fn a_servo_drives_its_pin() {
    let mut motor = mcpwm_motor::MotorSpawner::new_servo().spawn(Some(90)).finish();
    let action = motor.drive(ServoEvent::Start);
    assert!(matches!(action, ServoAction::Home { duty: 1499, settle_millis: 500 }));
    assert_eq!(motor.pin(), ErasedPwmPin::Op0(PwmPin { period: 19_999, timestamp: 1499 }));
    motor.drive(ServoEvent::Homed);
    let action = motor.drive(ServoEvent::Command(ServoCmd::TurnToAngle(92)));
    assert!(matches!(action, ServoAction::Move { duty: 1499, pause: Pause::Millis(5) }));
    motor.drive(ServoEvent::Moved);
    assert_eq!(motor.pin(), ErasedPwmPin::Op0(PwmPin { period: 19_999, timestamp: 1510 }));
    motor.drive(ServoEvent::Moved);
    assert_eq!(motor.angle(), 92);
}

#[test]
fn a_stepper_obeys_its_commands() {
    let (_, builder) = mcpwm_motor::MotorSpawner::new_step().spawn(None).spawn(None).finish();
    let mut motor = builder.into_motor();
    assert_eq!(motor.pwm_pin.operator_index(), 1);
    assert_eq!((motor.pina, motor.pinb), (Level::Low, Level::Low));
    step_motor_loop(&mut motor, StepCmd::Forward { duty: 50 });
    assert_eq!((motor.pina, motor.pinb), (Level::High, Level::Low));
    assert_eq!(motor.pwm_pin, ErasedPwmPin::Op1(PwmPin { period: 99, timestamp: 49 }));
    step_motor_loop(&mut motor, StepCmd::Backward { duty: 100 });
    assert_eq!((motor.pina, motor.pinb), (Level::Low, Level::High));
    assert_eq!(motor.pwm_pin, ErasedPwmPin::Op1(PwmPin { period: 99, timestamp: 99 }));
    step_motor_loop(&mut motor, StepCmd::Stop);
    assert_eq!((motor.pina, motor.pinb), (Level::Low, Level::Low));
    assert_eq!(motor.pwm_pin, ErasedPwmPin::Op1(PwmPin { period: 99, timestamp: 99 }));
}

#[test]
fn a_step_is_high_for_half_of_its_time() {
    assert_eq!(step_pulse(true, 1001), StepPulse { dir: Level::High, half_delay: 500 });
    assert_eq!(step_pulse(false, 30_000), StepPulse { dir: Level::Low, half_delay: 15_000 });
    assert_eq!(step_pulse(true, (1 << 64) + 6).half_delay, 3);
    assert_eq!(STEPS_PER_REV, 200);
}

#[test]
fn a_motor_brakes_before_it_turns_round() {
    assert_eq!(retarget(Some(true), Some(true)), Target::Requested);
    assert_eq!(retarget(Some(false), Some(false)), Target::Requested);
    assert_eq!(retarget(Some(true), Some(false)), Target::Brake);
    assert_eq!(retarget(Some(false), Some(true)), Target::Brake);
    assert_eq!(retarget(None, Some(true)), Target::Brake);
    assert_eq!(retarget(Some(true), None), Target::Brake);
    assert_eq!(retarget(None, None), Target::Brake);
}
