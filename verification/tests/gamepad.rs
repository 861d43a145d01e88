use rc_car::display::DisplayState;
use rc_car::gamepad::frame::frame_event;
use rc_car::gamepad::frame::uart_task;
use rc_car::gamepad::frame::FrameError;
use rc_car::gamepad::frame::FrameEvent;
use rc_car::gamepad::frame::FrameReceiver;
use rc_car::gamepad::frame::GAMEPAD_SIZE;
use rc_car::gamepad::uni_gamepad_t;
use rc_car::gamepad::Button;
use rc_car::gamepad::DpadDirection;
use rc_car::gamepad::RegularButton;
use rc_car::gamepad::BUTTON_A;
use rc_car::gamepad::BUTTON_THUMB_R;
use rc_car::gamepad::BUTTON_Y;
use rc_car::gamepad::DPAD_LEFT;
use rc_car::gamepad::DPAD_UP;

fn encoded(payload: &[u8]) -> Vec<u8> {
    let mut bytes = vec![0u8; payload.len() + 2];
    let len = cobs::encode(payload, &mut bytes);
    bytes.truncate(len);
    bytes.push(0);
    bytes
}

fn image() -> [u8; 56] {
    let mut bytes = [0u8; 56];
    bytes[0] = DPAD_UP | DPAD_LEFT;
    bytes[4..8].copy_from_slice(&(-512i32).to_le_bytes());
    bytes[8..12].copy_from_slice(&511i32.to_le_bytes());
    bytes[12..16].copy_from_slice(&3i32.to_le_bytes());
    bytes[16..20].copy_from_slice(&i32::MIN.to_le_bytes());
    bytes[20..24].copy_from_slice(&1023i32.to_le_bytes());
    bytes[24..28].copy_from_slice(&i32::MAX.to_le_bytes());
    bytes[28..30].copy_from_slice(&(BUTTON_A | BUTTON_THUMB_R).to_le_bytes());
    bytes[30] = 9;
    for i in 0..3 {
        bytes[32 + 4 * i..36 + 4 * i].copy_from_slice(&(-1 - i as i32).to_le_bytes());
        bytes[44 + 4 * i..48 + 4 * i].copy_from_slice(&(100 + i as i32).to_le_bytes());
    }
    bytes
}

fn check_image(pad: &uni_gamepad_t) {
    assert_eq!(pad.dpad, DPAD_UP | DPAD_LEFT);
    assert_eq!(pad.axis_x, -512);
    assert_eq!(pad.axis_y, 511);
    assert_eq!(pad.axis_rx, 3);
    assert_eq!(pad.axis_ry, i32::MIN);
    assert_eq!(pad.brake, 1023);
    assert_eq!(pad.throttle, i32::MAX);
    assert_eq!(pad.buttons, BUTTON_A | BUTTON_THUMB_R);
    assert_eq!(pad.misc_buttons, 9);
    assert_eq!(pad.gyro, [-1, -2, -3]);
    assert_eq!(pad.accel, [100, 101, 102]);
}

fn receive(receiver: &mut FrameReceiver, bytes: &[u8]) -> FrameEvent {
    let (last, first) = bytes.split_last().unwrap();
    for byte in first {
        assert!(matches!(uart_task(receiver, Ok(*byte)), FrameEvent::Waiting));
    }
    uart_task(receiver, Ok(*last))
}

#[test]
fn buttons_are_told_apart() {
    let pad = uni_gamepad_t { dpad: DPAD_LEFT, buttons: BUTTON_Y, ..Default::default() };
    assert!(pad.pressed(Button::Dpad(DpadDirection::Left)));
    assert!(!pad.pressed(Button::Dpad(DpadDirection::Up)));
    assert!(!pad.pressed(Button::Dpad(DpadDirection::Down)));
    assert!(!pad.pressed(Button::Dpad(DpadDirection::Right)));
    assert!(pad.pressed(Button::Regular(RegularButton::Y)));
    assert!(!pad.pressed(Button::Regular(RegularButton::A)));
    assert!(!pad.pressed(Button::Regular(RegularButton::ThumbL)));
}

#[test]
fn a_pad_at_rest_reports_nothing() {
    assert_eq!(uni_gamepad_t::default().status().as_str(), "");
}

#[test]
fn a_report_names_what_is_held_and_where_the_sticks_are() {
    let pad = uni_gamepad_t {
        dpad: DPAD_UP | DPAD_LEFT,
        buttons: BUTTON_A | BUTTON_THUMB_R,
        axis_x: -5,
        throttle: 1023,
        ..Default::default()
    };
    assert_eq!(pad.status().as_str(), "UP LEFT A R3 | LX:-5 LY:0 | RT:1023 LT:0");
    let pad = uni_gamepad_t { axis_ry: 40, ..Default::default() };
    assert_eq!(pad.status().as_str(), "| RX:0 RY:40");
    let pad = uni_gamepad_t { buttons: BUTTON_Y, ..Default::default() };
    assert_eq!(pad.status().as_str(), "Y");
}

#[test]
fn a_report_that_is_too_long_is_cut() {
    let pad = uni_gamepad_t {
        dpad: 15,
        buttons: 1023,
        axis_x: i32::MIN,
        axis_y: i32::MIN,
        axis_rx: i32::MIN,
        axis_ry: i32::MIN,
        throttle: i32::MIN,
        brake: i32::MIN,
        ..Default::default()
    };
    let names = "UP DOWN LEFT RIGHT A B X Y L1 R1 L2 R2 L3 R3 ";
    let left = "| LX:-2147483648 LY:-2147483648 ";
    let right = "| RX:-2147483648 RY:-2147483648 ";
    let third = "| RT:-2147483648 LT:-2147483648";
    let whole = format!("{names}{left}{right}{third}");
    let status = pad.status();
    assert_eq!(names.len() + left.len() + right.len(), 109);
    // The label of the last number would end at byte 129, so the write ends before it. There is
    // no space to trim, and no digit is lost.
    assert_eq!(status.as_str(), &whole[..125]);
    assert!(status.ends_with("| RT:-2147483648"));
    assert!(status.len() <= 128);
}

#[test]
fn a_number_can_be_cut_after_its_sign() {
    let mut pad = uni_gamepad_t {
        dpad: 15,
        buttons: 1023,
        axis_x: i32::MIN,
        axis_y: i32::MIN,
        axis_rx: i32::MIN,
        axis_ry: i32::MIN,
        throttle: 1,
        brake: -1234567890,
        ..Default::default()
    };
    let status = pad.status();
    assert!(status.ends_with("RY:-2147483648 | RT:1 LT:-"));
    assert_eq!(status.len(), 120);
    // With two bytes less in front the number fits, but the space behind it does not.
    pad.buttons = 1023 - BUTTON_A;
    let status = pad.status();
    assert!(status.ends_with("RY:-2147483648 | RT:1 LT:-1234567890"));
    assert_eq!(status.len(), 128);
}

#[test]
fn a_frame_delivers_the_state() {
    let mut receiver = FrameReceiver::new();
    match receive(&mut receiver, &encoded(&image())) {
        FrameEvent::Received(pad) => check_image(&pad),
        _ => panic!("not received"),
    }
    match receive(&mut receiver, &encoded(&image())) {
        FrameEvent::Received(pad) => check_image(&pad),
        _ => panic!("not received again"),
    }
}

#[test]
fn zeros_between_frames_are_passed_over() {
    let mut receiver = FrameReceiver::new();
    for _ in 0..3 {
        assert!(matches!(uart_task(&mut receiver, Ok(0)), FrameEvent::Waiting));
    }
    assert!(matches!(receive(&mut receiver, &encoded(&image())), FrameEvent::Received(_)));
}

#[test]
fn a_frame_of_another_size_is_dropped() {
    let mut receiver = FrameReceiver::new();
    assert!(matches!(receive(&mut receiver, &encoded(&[1; 55])), FrameEvent::WrongSize(55)));
    assert!(matches!(receive(&mut receiver, &encoded(&[0; 3])), FrameEvent::WrongSize(3)));
    assert!(matches!(receive(&mut receiver, &encoded(&image())), FrameEvent::Received(_)));
}

#[test]
fn a_broken_frame_is_dropped() {
    let mut receiver = FrameReceiver::new();
    match receive(&mut receiver, &[5, 1, 0]) {
        FrameEvent::Broken(FrameError::InvalidFrame { .. }) => {}
        _ => panic!("not broken"),
    }
    assert!(matches!(receive(&mut receiver, &encoded(&image())), FrameEvent::Received(_)));
}

#[test]
fn a_frame_that_is_too_long_is_dropped() {
    let mut receiver = FrameReceiver::new();
    let bytes = encoded(&[7; 57]);
    let end = bytes.len() - 1;
    match receive(&mut receiver, &bytes[..end]) {
        FrameEvent::Broken(FrameError::TargetBufTooSmall) => {}
        _ => panic!("it fits"),
    }
    assert!(matches!(uart_task(&mut receiver, Ok(0)), FrameEvent::Waiting));
    assert!(matches!(receive(&mut receiver, &encoded(&image())), FrameEvent::Received(_)));
}

#[test]
fn a_failed_read_drops_the_frame_in_progress() {
    let mut receiver = FrameReceiver::new();
    let bytes = encoded(&image());
    for byte in &bytes[..20] {
        uart_task(&mut receiver, Ok(*byte));
    }
    assert!(matches!(uart_task(&mut receiver, Err(())), FrameEvent::ReadFailed));
    assert!(matches!(receive(&mut receiver, &bytes), FrameEvent::Received(_)));
}

#[test]
fn outcomes_lead_to_events() {
    let bytes = image();
    assert_eq!(GAMEPAD_SIZE, 56);
    assert!(matches!(frame_event(Ok(None), &bytes), FrameEvent::Waiting));
    assert!(matches!(frame_event(Ok(Some(12)), &bytes), FrameEvent::WrongSize(12)));
    match frame_event(Ok(Some(56)), &bytes) {
        FrameEvent::Received(pad) => check_image(&pad),
        _ => panic!("not received"),
    }
    let empty = frame_event(Err(FrameError::EmptyFrame), &bytes);
    assert!(matches!(empty, FrameEvent::Broken(FrameError::EmptyFrame)));
}

#[test]
fn padding_does_not_count() {
    let mut bytes = image();
    bytes[1] = 255;
    bytes[3] = 255;
    bytes[31] = 255;
    check_image(&uni_gamepad_t::from_image(&bytes));
}

#[test]
fn the_display_shows_the_servos_in_its_own_order() {
    assert_eq!(DisplayState::of_servos(1, 2, 3, 4, 5).angles, [1, 4, 3, 2, 5]);
    assert_eq!(DisplayState::default().angles, [0; 5]);
}
