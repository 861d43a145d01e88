use rc_car::gpio::Level;
use rc_car::ps2::bus::config_program;
use rc_car::ps2::bus::read_program;
use rc_car::ps2::bus::receive_byte;
use rc_car::ps2::bus::send_command_string;
use rc_car::ps2::bus::shift_in_out;
use rc_car::ps2::bus::BusOp;
use rc_car::ps2::bus::CMD_READ_DATA;
use rc_car::ps2::bus::CMD_SET_MODE;
use rc_car::ps2::bus::CTRL_BYTE_DELAY;
use rc_car::ps2::bus::CTRL_CLK_DELAY;
use rc_car::ps2::buttons;
use rc_car::ps2::held;
use rc_car::ps2::Button;
use rc_car::ps2::Ps2Controller;
use rc_car::ps2::CONFIG_SAMPLES;
use rc_car::ps2::LAST_READ;
use rc_car::ps2::READ_SAMPLES;
use rc_car::ps2_controller_task::ps2_controller_task;
use rc_car::ps2_controller_task::AnalogStick;
use rc_car::ps2_controller_task::ButtonLogic;
use rc_car::ps2_controller_task::Ps2GamepadStatus;
use rc_car::ps2_controller_task::TaskAction;
use rc_car::ps2_controller_task::READ_MILLIS;
use rc_car::web::Status;

/// The samples of a data line on which `bytes` come in.
fn levels(bytes: &[u8]) -> Vec<Level> {
    let mut samples = vec![];
    for byte in bytes {
        for i in 0..8 {
            samples.push(if byte & (1 << i) != 0 { Level::High } else { Level::Low });
        }
    }
    samples
}

/// The samples of a data line that follows the command line, checking when they are taken.
fn loop_back(steps: &[BusOp]) -> Vec<Level> {
    let (mut clk, mut cmd, mut att) = (Level::High, Level::High, Level::High);
    let mut samples = vec![];
    for step in steps {
        match *step {
            BusOp::Clk(level) => clk = level,
            BusOp::Cmd(level) => cmd = level,
            BusOp::Att(level) => att = level,
            BusOp::DelayMicros(_) => {}
            BusOp::SampleDat => {
                assert_eq!((clk, att), (Level::Low, Level::Low));
                samples.push(cmd);
            }
        }
    }
    assert_eq!((clk, cmd, att), (Level::High, Level::High, Level::High));
    samples
}

fn status(raw_buttons: u16) -> Ps2GamepadStatus {
    Ps2GamepadStatus { raw_buttons, ..Default::default() }
}

const RESPONSE: [u8; 9] = [0xFF, 0x73, 0x5A, 0xEF, 0x7F, 10, 20, 30, 40];

#[test]
fn a_bit_is_put_on_the_line_before_the_clock_falls() {
    let mut steps = vec![];
    shift_in_out(&mut steps, 0x01);
    assert_eq!(steps.len(), 50);
    assert_eq!(
        steps[..7],
        [
            BusOp::Cmd(Level::High),
            BusOp::Clk(Level::Low),
            BusOp::DelayMicros(CTRL_CLK_DELAY),
            BusOp::SampleDat,
            BusOp::Clk(Level::High),
            BusOp::DelayMicros(CTRL_CLK_DELAY),
            BusOp::Cmd(Level::Low),
        ]
    );
    assert_eq!(
        steps[48..],
        [BusOp::Cmd(Level::High), BusOp::DelayMicros(CTRL_BYTE_DELAY)]
    );
}

#[test]
fn a_command_is_framed_by_the_attention_line() {
    let mut steps = vec![];
    send_command_string(&mut steps, &CMD_SET_MODE);
    assert_eq!(steps.len(), 2 + 9 * 50 + 2);
    assert_eq!(steps[..2], [BusOp::Att(Level::Low), BusOp::DelayMicros(18)]);
    assert_eq!(steps[452..], [BusOp::Att(Level::High), BusOp::DelayMicros(18)]);
    assert_eq!(loop_back(&steps), levels(&CMD_SET_MODE));
}

#[test]
fn every_byte_survives_a_loop_back() {
    for byte in 0..=255u8 {
        let mut steps = vec![BusOp::Att(Level::Low)];
        shift_in_out(&mut steps, byte);
        steps.push(BusOp::Att(Level::High));
        assert_eq!(receive_byte(&loop_back(&steps), 0), byte);
    }
}

#[test]
fn a_read_sends_the_poll_command() {
    let steps = read_program();
    assert_eq!(
        steps[..4],
        [
            BusOp::Cmd(Level::High),
            BusOp::Clk(Level::High),
            BusOp::Att(Level::Low),
            BusOp::DelayMicros(18),
        ]
    );
    let samples = loop_back(&steps);
    assert_eq!(samples.len(), READ_SAMPLES);
    assert_eq!(samples, levels(&CMD_READ_DATA));
}

#[test]
fn locking_the_mode_reads_twice_before_and_once_after() {
    let samples = loop_back(&config_program());
    assert_eq!(samples.len(), CONFIG_SAMPLES);
    let poll = levels(&CMD_READ_DATA);
    assert_eq!(samples[..72], poll);
    assert_eq!(samples[72..144], poll);
    assert_eq!(samples[144..184], levels(&[0x01, 0x43, 0x00, 0x01, 0x00]));
    assert_eq!(samples[184..256], levels(&CMD_SET_MODE));
    assert_eq!(
        samples[256..328],
        levels(&[0x01, 0x43, 0x00, 0x00, 0x5A, 0x5A, 0x5A, 0x5A, 0x5A])
    );
    assert_eq!(samples[LAST_READ..], poll);
}

#[test]
fn a_controller_starts_at_rest() {
    let (controller, steps) = Ps2Controller::spawn();
    assert_eq!(controller.raw_buttons, 0xFFFF);
    for button in Button::ALL {
        assert!(!controller.button(button));
    }
    assert_eq!(controller.analog_lx(), 128);
    assert_eq!(controller.analog_ly(), 128);
    assert_eq!(controller.analog_rx(), 128);
    assert_eq!(controller.analog_ry(), 128);
    assert_eq!(
        steps[..3],
        [BusOp::Cmd(Level::High), BusOp::Clk(Level::High), BusOp::Att(Level::High)]
    );
    assert_eq!(steps[3..], config_program());
}

#[test]
fn a_response_is_taken_over() {
    let (mut controller, _) = Ps2Controller::spawn();
    assert!(controller.read_gamepad(&levels(&RESPONSE)));
    assert_eq!(controller.raw_buttons, 0x7FEF);
    assert!(controller.button(Button::Up));
    assert!(controller.button(Button::X));
    assert!(!controller.button(Button::Down));
    assert_eq!(controller.analog_lx(), 30);
    assert_eq!(controller.analog_ly(), 40);
    assert_eq!(controller.analog_rx(), 10);
    assert_eq!(controller.analog_ry(), 20);
}

#[test]
fn only_analog_modes_are_valid() {
    let (mut controller, _) = Ps2Controller::spawn();
    for mode in 0..=255u8 {
        let mut response = RESPONSE;
        response[1] = mode;
        assert_eq!(controller.accept(response), (0x70..0x80).contains(&mode));
        assert_eq!(controller.raw_buttons, 0x7FEF);
    }
}

#[test]
fn the_last_read_of_locking_the_mode_counts() {
    let (mut controller, _) = Ps2Controller::spawn();
    let mut samples = levels(&[0u8; 41]);
    samples.extend(levels(&RESPONSE));
    assert_eq!(samples.len(), CONFIG_SAMPLES);
    assert_eq!(controller.config_gamepad(&samples), Ok(()));
    assert_eq!(controller.raw_buttons, 0x7FEF);
    assert_eq!(controller.analog_lx(), 30);
}

#[test]
fn buttons_have_their_bits() {
    assert_eq!(u16::from(Button::Select), buttons::SELECT);
    assert_eq!(buttons::SELECT, 0x0001);
    assert_eq!(u16::from(Button::X), 0x8000);
    for (i, button) in Button::ALL.iter().enumerate() {
        assert_eq!(u16::from(*button), 1 << i);
        assert!(held(!(1 << i), *button));
        assert!(!held(1 << i, *button));
        assert!(held(0, *button));
    }
}

#[test]
fn only_changes_are_reported() {
    let mut logic = ButtonLogic::new();
    assert_eq!(logic.update(false), None);
    assert_eq!(logic.update(true), Some(Status::Pressed));
    assert_eq!(logic.update(true), None);
    assert_eq!(logic.update(false), Some(Status::Released));
    assert_eq!(logic.force_release(), None);
    logic.update(true);
    assert_eq!(logic.force_release(), Some(Status::Released));
    assert!(!logic.pressed);
    assert_eq!(logic.update(false), None);
}

#[test]
fn any_and_all() {
    let status = status(!(buttons::A | buttons::L1));
    assert!(status.pressed(Button::A));
    assert!(status.any([Button::B, Button::A]));
    assert!(!status.any([Button::B, Button::X]));
    assert!(status.all([Button::L1, Button::A]));
    assert!(!status.all([Button::L1, Button::A, Button::B]));
    assert!(!status.any([]));
    assert!(status.all([]));
}

#[test]
fn active_buttons_are_listed_first() {
    let active = status(!(buttons::X | buttons::L3 | buttons::UP)).active_buttons();
    assert_eq!(active[..3], [Some(Button::L3), Some(Button::Up), Some(Button::X)]);
    assert_eq!(active[3..], [None; 13]);
    assert_eq!(status(0xFFFF).active_buttons(), [None; 16]);
    assert_eq!(status(0).active_buttons(), Button::ALL.map(Some));
}

#[test]
fn the_default_status_is_all_zero() {
    let status = Ps2GamepadStatus::default();
    assert_eq!(status.left_analog_stick, AnalogStick::default());
    assert_eq!(AnalogStick::default(), AnalogStick { x: 0, y: 0 });
    assert!(status.all(Button::ALL));
}

#[test]
fn a_valid_read_is_published() {
    let (mut controller, _) = Ps2Controller::spawn();
    let action = ps2_controller_task(&mut controller, &levels(&RESPONSE));
    assert_eq!(
        action,
        TaskAction::Publish(Ps2GamepadStatus {
            left_analog_stick: AnalogStick { x: 30, y: 40 },
            right_analog_stick: AnalogStick { x: 10, y: 20 },
            raw_buttons: 0x7FEF,
        })
    );
    assert_eq!(READ_MILLIS, 10);
}

#[test]
fn a_lost_controller_is_connected_again() {
    let (mut controller, _) = Ps2Controller::spawn();
    let action = ps2_controller_task(&mut controller, &levels(&[0xFF; 9]));
    assert_eq!(action, TaskAction::Reconnect);
    assert_eq!(controller.raw_buttons, 0xFFFF);
    let mut digital = RESPONSE;
    digital[1] = 0x41;
    let action = ps2_controller_task(&mut controller, &levels(&digital));
    assert_eq!(action, TaskAction::Reconnect);
}
