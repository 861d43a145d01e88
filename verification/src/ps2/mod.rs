//! The PS2 controller: its buttons, its sticks and the wire protocol that reads them.
use vstd::prelude::*;

use crate::gpio::Level;

pub mod bus;
pub mod buttons;

verus! {

// ---------------------------------------------------------------------------
// Buttons
// ---------------------------------------------------------------------------

/// A button of the controller.
#[derive(Clone, Copy, Debug, PartialEq, Eq, Structural)]
pub enum Button {
    Select,
    L3,
    R3,
    Start,
    Up,
    Right,
    Down,
    Left,
    L2,
    R2,
    L1,
    R1,
    Y,
    B,
    A,
    X,
}

impl Button {
    /// All buttons, in the order of their bits.
    pub const ALL: [Button; 16] = [
        Button::Select,
        Button::L3,
        Button::R3,
        Button::Start,
        Button::Up,
        Button::Right,
        Button::Down,
        Button::Left,
        Button::L2,
        Button::R2,
        Button::L1,
        Button::R1,
        Button::Y,
        Button::B,
        Button::A,
        Button::X,
    ];

    /// The bit of the button.
    pub open spec fn mask(self) -> u16 {
        match self {
            Button::Select => buttons::SELECT,
            Button::L3 => buttons::L3,
            Button::R3 => buttons::R3,
            Button::Start => buttons::START,
            Button::Up => buttons::UP,
            Button::Right => buttons::RIGHT,
            Button::Down => buttons::DOWN,
            Button::Left => buttons::LEFT,
            Button::L2 => buttons::L2,
            Button::R2 => buttons::R2,
            Button::L1 => buttons::L1,
            Button::R1 => buttons::R1,
            Button::Y => buttons::Y,
            Button::B => buttons::B,
            Button::A => buttons::A,
            Button::X => buttons::X,
        }
    }
}

impl vstd::std_specs::convert::FromSpecImpl<Button> for u16 {
    open spec fn obeys_from_spec() -> bool {
        true
    }

    open spec fn from_spec(button: Button) -> u16 {
        button.mask()
    }
}

impl From<Button> for u16 {
    fn from(button: Button) -> (mask: u16) {
        match button {
            Button::Select => buttons::SELECT,
            Button::L3 => buttons::L3,
            Button::R3 => buttons::R3,
            Button::Start => buttons::START,
            Button::Up => buttons::UP,
            Button::Right => buttons::RIGHT,
            Button::Down => buttons::DOWN,
            Button::Left => buttons::LEFT,
            Button::L2 => buttons::L2,
            Button::R2 => buttons::R2,
            Button::L1 => buttons::L1,
            Button::R1 => buttons::R1,
            Button::Y => buttons::Y,
            Button::B => buttons::B,
            Button::A => buttons::A,
            Button::X => buttons::X,
        }
    }
}

/// Whether a button is held: its bit is zero.
pub open spec fn is_held(raw_buttons: u16, button: Button) -> bool {
    !raw_buttons & button.mask() != 0
}

/// Whether a button is held, given the raw button bytes.
pub fn held(raw_buttons: u16, button: Button) -> (held: bool)
    ensures
        held == is_held(raw_buttons, button),
{
    let mask: u16 = u16::from(button);
    (!raw_buttons & mask) != 0
}

// ---------------------------------------------------------------------------
// Controller
// ---------------------------------------------------------------------------

/// How often the data line is sampled while the controller is read.
pub const READ_SAMPLES: usize = 72;

/// How often the data line is sampled while the controller is locked in analog mode.
pub const CONFIG_SAMPLES: usize = 400;

/// Where the samples of the last read begin among those of locking the mode.
pub const LAST_READ: usize = 328;

/// What was last read from the controller.
#[derive(Clone, Copy, Debug)]
pub struct Ps2Controller {
    pub raw_buttons: u16,
    /// LX, LY, RX, RY
    pub analog_data: [u8; 4],
}

/// The button bits of a response: byte 4 above byte 3.
pub open spec fn response_buttons(response: Seq<u8>) -> int {
    256 * response[4] + response[3]
}

/// Whether a response comes from a controller in an analog mode: the upper half of its second
/// byte is seven.
pub open spec fn response_is_analog(response: Seq<u8>) -> bool {
    response[1] / 16 == 7
}

impl Ps2Controller {
    pub open spec fn lx(self) -> u8 {
        self.analog_data[0]
    }

    pub open spec fn ly(self) -> u8 {
        self.analog_data[1]
    }

    pub open spec fn rx(self) -> u8 {
        self.analog_data[2]
    }

    pub open spec fn ry(self) -> u8 {
        self.analog_data[3]
    }

    /// Whether the controller holds what a response says.
    pub open spec fn shows(self, response: Seq<u8>) -> bool {
        &&& self.raw_buttons == response_buttons(response)
        &&& self.lx() == response[7]
        &&& self.ly() == response[8]
        &&& self.rx() == response[5]
        &&& self.ry() == response[6]
    }

    /// A controller with no button held and its sticks centred, and the steps that set up the
    /// lines and lock it in analog mode. Hand the samples to [`Ps2Controller::config_gamepad`].
    pub fn spawn() -> (started: (Ps2Controller, Vec<bus::BusOp>))
        ensures
            started.0.raw_buttons == 0xFFFF,
            started.0.lx() == 128,
            started.0.ly() == 128,
            started.0.rx() == 128,
            started.0.ry() == 128,
            started.1@ == seq![
                bus::BusOp::Cmd(Level::High),
                bus::BusOp::Clk(Level::High),
                bus::BusOp::Att(Level::High),
            ] + bus::config_steps(),
    {
        let controller = Ps2Controller { raw_buttons: 0xFFFF, analog_data: [128, 128, 128, 128] };
        let mut steps: Vec<bus::BusOp> = Vec::new();
        steps.push(bus::BusOp::Cmd(Level::High));
        steps.push(bus::BusOp::Clk(Level::High));
        steps.push(bus::BusOp::Att(Level::High));
        assert(steps@ =~= seq![
            bus::BusOp::Cmd(Level::High),
            bus::BusOp::Clk(Level::High),
            bus::BusOp::Att(Level::High),
        ]);
        bus::push_config(&mut steps);
        (controller, steps)
    }

    /// Takes over what was read while the controller was locked in analog mode: of its three
    /// reads the last one counts.
    pub fn config_gamepad(&mut self, samples: &Vec<Level>) -> (outcome: Result<(), ()>)
        requires
            samples.len() == CONFIG_SAMPLES,
        ensures
            outcome is Ok,
            final(self).shows(bus::sampled_bytes(samples@, LAST_READ as int, 9)),
    {
        let _ = self.read_at(samples, 0);
        let _ = self.read_at(samples, READ_SAMPLES);
        let _ = self.read_at(samples, LAST_READ);
        Ok(())
    }

    /// Takes over what was read from the controller. Returns whether it is in an analog mode.
    pub fn read_gamepad(&mut self, samples: &Vec<Level>) -> (valid: bool)
        requires
            samples.len() == READ_SAMPLES,
        ensures
            final(self).shows(bus::sampled_bytes(samples@, 0, 9)),
            valid == response_is_analog(bus::sampled_bytes(samples@, 0, 9)),
    {
        self.read_at(samples, 0)
    }

    fn read_at(&mut self, samples: &Vec<Level>, at: usize) -> (valid: bool)
        requires
            at + READ_SAMPLES <= samples.len(),
        ensures
            final(self).shows(bus::sampled_bytes(samples@, at as int, 9)),
            valid == response_is_analog(bus::sampled_bytes(samples@, at as int, 9)),
    {
        let mut response: [u8; 9] = [0, 0, 0, 0, 0, 0, 0, 0, 0];
        let mut i: usize = 0;
        while i < 9
            invariant
                i <= 9,
                at + READ_SAMPLES <= samples.len(),
                forall|k: int|
                    0 <= k < i ==> #[trigger] response[k] == bus::sampled_byte(
                        samples@,
                        at + 8 * k,
                    ),
            decreases 9 - i,
        {
            response[i] = bus::receive_byte(samples, at + 8 * i);
            i += 1;
        }
        assert(response@ =~= bus::sampled_bytes(samples@, at as int, 9));
        self.accept(response)
    }

    /// Takes over a response of the controller. Returns whether it is in an analog mode.
    pub fn accept(&mut self, response: [u8; 9]) -> (valid: bool)
        ensures
            final(self).shows(response@),
            valid == response_is_analog(response@),
    {
        let mode: u8 = response[1];
        let high: u8 = response[4];
        let low: u8 = response[3];
        assert((high as u16) << 8u16 | (low as u16) == 256 * high + low) by (bit_vector);
        assert((mode & 0xF0) == 0x70 <==> mode / 16 == 7) by (bit_vector);
        self.raw_buttons = (high as u16) << 8u16 | (low as u16);
        self.analog_data = [response[7], response[8], response[5], response[6]];
        (mode & 0xF0) == 0x70
    }

    /// Whether a button is held.
    pub fn button(&self, button: Button) -> (held: bool)
        ensures
            held == is_held(self.raw_buttons, button),
    {
        held(self.raw_buttons, button)
    }

    /// The left stick, from 0 at the left to 255.
    pub fn analog_lx(&self) -> (value: u8)
        ensures
            value == self.lx(),
    {
        self.analog_data[0]
    }

    /// The left stick, from 0 at the top to 255.
    pub fn analog_ly(&self) -> (value: u8)
        ensures
            value == self.ly(),
    {
        self.analog_data[1]
    }

    /// The right stick, from 0 at the left to 255.
    pub fn analog_rx(&self) -> (value: u8)
        ensures
            value == self.rx(),
    {
        self.analog_data[2]
    }

    /// The right stick, from 0 at the top to 255.
    pub fn analog_ry(&self) -> (value: u8)
        ensures
            value == self.ry(),
    {
        self.analog_data[3]
    }
}

// ---------------------------------------------------------------------------
// Laws
// ---------------------------------------------------------------------------

/// The buttons have one bit each, in the order in which they are listed.
pub proof fn law_buttons_are_listed_in_the_order_of_their_bits(i: int)
    requires
        0 <= i < 16,
    ensures
        Button::ALL@[i].mask() == 1u16 << (i as u16),
{
    assert(1u16 << 0u16 == 0x0001 && 1u16 << 1u16 == 0x0002 && 1u16 << 2u16 == 0x0004 && 1u16
        << 3u16 == 0x0008 && 1u16 << 4u16 == 0x0010 && 1u16 << 5u16 == 0x0020 && 1u16 << 6u16
        == 0x0040 && 1u16 << 7u16 == 0x0080 && 1u16 << 8u16 == 0x0100 && 1u16 << 9u16 == 0x0200
        && 1u16 << 10u16 == 0x0400 && 1u16 << 11u16 == 0x0800 && 1u16 << 12u16 == 0x1000 && 1u16
        << 13u16 == 0x2000 && 1u16 << 14u16 == 0x4000 && 1u16 << 15u16 == 0x8000)
        by (bit_vector);
}

/// Every button is listed, once.
pub proof fn law_every_button_is_listed_once(button: Button)
    ensures
        Button::ALL@.contains(button),
        Button::ALL@.no_duplicates(),
{
    let at: int = match button {
        Button::Select => 0,
        Button::L3 => 1,
        Button::R3 => 2,
        Button::Start => 3,
        Button::Up => 4,
        Button::Right => 5,
        Button::Down => 6,
        Button::Left => 7,
        Button::L2 => 8,
        Button::R2 => 9,
        Button::L1 => 10,
        Button::R1 => 11,
        Button::Y => 12,
        Button::B => 13,
        Button::A => 14,
        Button::X => 15,
    };
    assert(Button::ALL@[at] == button);
}

/// Flipping the bit of one button changes whether that button is held, and nothing about the
/// others.
pub proof fn law_buttons_do_not_disturb_each_other(raw_buttons: u16, flipped: Button, button: Button)
    ensures
        is_held(raw_buttons ^ flipped.mask(), button) == (is_held(raw_buttons, button) != (flipped
            == button)),
{
    law_every_button_is_listed_once(flipped);
    law_every_button_is_listed_once(button);
    let i: int = choose|i: int| 0 <= i < 16 && Button::ALL@[i] == flipped;
    let j: int = choose|j: int| 0 <= j < 16 && Button::ALL@[j] == button;
    law_buttons_are_listed_in_the_order_of_their_bits(i);
    law_buttons_are_listed_in_the_order_of_their_bits(j);
    let shift: u16 = i as u16;
    let other: u16 = j as u16;
    assert((!(raw_buttons ^ (1u16 << shift)) & (1u16 << other) != 0) == ((!raw_buttons & (1u16
        << other) != 0) != (shift == other))) by (bit_vector)
        requires
            shift < 16,
            other < 16,
    ;
}

/// A response names the held buttons by the bits that are zero in its bytes 3 and 4: the first
/// eight buttons in byte 3, the others in byte 4.
pub proof fn law_a_zero_bit_is_a_held_button(response: Seq<u8>, raw_buttons: u16, i: int)
    requires
        0 <= i < 16,
        raw_buttons == response_buttons(response),
    ensures
        is_held(raw_buttons, Button::ALL@[i]) == !bus::bit(response[3 + i / 8], (i % 8) as u8),
{
    law_buttons_are_listed_in_the_order_of_their_bits(i);
    let high: u8 = response[4];
    let low: u8 = response[3];
    let shift: u16 = i as u16;
    assert(raw_buttons == (high as u16) << 8u16 | (low as u16)) by (bit_vector)
        requires
            raw_buttons == 256 * high + low,
    ;
    let bit_of: u8 = (i % 8) as u8;
    if i < 8 {
        assert((!((high as u16) << 8u16 | (low as u16)) & (1u16 << shift) != 0) == !(low & (1u8
            << bit_of) != 0)) by (bit_vector)
            requires
                shift < 8,
                bit_of as u16 == shift,
        ;
    } else {
        assert((!((high as u16) << 8u16 | (low as u16)) & (1u16 << shift) != 0) == !(high & (1u8
            << bit_of) != 0)) by (bit_vector)
            requires
                8 <= shift < 16,
                bit_of as u16 + 8 == shift,
        ;
    }
}

/// A button is held exactly when its own bit is zero: from select, which is bit 0, to X, which
/// is bit 15.
pub proof fn law_each_button_is_held_by_its_own_bit(raw_buttons: u16)
    ensures
        is_held(raw_buttons, Button::Select) == (raw_buttons % 2 == 0),
        is_held(raw_buttons, Button::L3) == (raw_buttons / 2 % 2 == 0),
        is_held(raw_buttons, Button::R3) == (raw_buttons / 4 % 2 == 0),
        is_held(raw_buttons, Button::Start) == (raw_buttons / 8 % 2 == 0),
        is_held(raw_buttons, Button::Up) == (raw_buttons / 16 % 2 == 0),
        is_held(raw_buttons, Button::Right) == (raw_buttons / 32 % 2 == 0),
        is_held(raw_buttons, Button::Down) == (raw_buttons / 64 % 2 == 0),
        is_held(raw_buttons, Button::Left) == (raw_buttons / 128 % 2 == 0),
        is_held(raw_buttons, Button::L2) == (raw_buttons / 256 % 2 == 0),
        is_held(raw_buttons, Button::R2) == (raw_buttons / 512 % 2 == 0),
        is_held(raw_buttons, Button::L1) == (raw_buttons / 1024 % 2 == 0),
        is_held(raw_buttons, Button::R1) == (raw_buttons / 2048 % 2 == 0),
        is_held(raw_buttons, Button::Y) == (raw_buttons / 4096 % 2 == 0),
        is_held(raw_buttons, Button::B) == (raw_buttons / 8192 % 2 == 0),
        is_held(raw_buttons, Button::A) == (raw_buttons / 16384 % 2 == 0),
        is_held(raw_buttons, Button::X) == (raw_buttons / 32768 % 2 == 0),
{
    assert(((!raw_buttons & 1 != 0) == (raw_buttons % 2 == 0))
        && ((!raw_buttons & 2 != 0) == (raw_buttons / 2 % 2 == 0))
        && ((!raw_buttons & 4 != 0) == (raw_buttons / 4 % 2 == 0))
        && ((!raw_buttons & 8 != 0) == (raw_buttons / 8 % 2 == 0))
        && ((!raw_buttons & 16 != 0) == (raw_buttons / 16 % 2 == 0))
        && ((!raw_buttons & 32 != 0) == (raw_buttons / 32 % 2 == 0))
        && ((!raw_buttons & 64 != 0) == (raw_buttons / 64 % 2 == 0))
        && ((!raw_buttons & 128 != 0) == (raw_buttons / 128 % 2 == 0))
        && ((!raw_buttons & 256 != 0) == (raw_buttons / 256 % 2 == 0))
        && ((!raw_buttons & 512 != 0) == (raw_buttons / 512 % 2 == 0))
        && ((!raw_buttons & 1024 != 0) == (raw_buttons / 1024 % 2 == 0))
        && ((!raw_buttons & 2048 != 0) == (raw_buttons / 2048 % 2 == 0))
        && ((!raw_buttons & 4096 != 0) == (raw_buttons / 4096 % 2 == 0))
        && ((!raw_buttons & 8192 != 0) == (raw_buttons / 8192 % 2 == 0))
        && ((!raw_buttons & 16384 != 0) == (raw_buttons / 16384 % 2 == 0))
        && ((!raw_buttons & 32768 != 0) == (raw_buttons / 32768 % 2 == 0))) by (bit_vector);
}

/// What a response says of the buttons: byte 3 holds the first eight and byte 4 the others, and
/// a binary digit that is zero is a button that is held.
pub proof fn law_a_response_tells_the_buttons(controller: Ps2Controller, response: Seq<u8>)
    requires
        controller.shows(response),
    ensures
        is_held(controller.raw_buttons, Button::Select) == (response[3] % 2 == 0),
        is_held(controller.raw_buttons, Button::L3) == (response[3] / 2 % 2 == 0),
        is_held(controller.raw_buttons, Button::R3) == (response[3] / 4 % 2 == 0),
        is_held(controller.raw_buttons, Button::Start) == (response[3] / 8 % 2 == 0),
        is_held(controller.raw_buttons, Button::Up) == (response[3] / 16 % 2 == 0),
        is_held(controller.raw_buttons, Button::Right) == (response[3] / 32 % 2 == 0),
        is_held(controller.raw_buttons, Button::Down) == (response[3] / 64 % 2 == 0),
        is_held(controller.raw_buttons, Button::Left) == (response[3] / 128 % 2 == 0),
        is_held(controller.raw_buttons, Button::L2) == (response[4] % 2 == 0),
        is_held(controller.raw_buttons, Button::R2) == (response[4] / 2 % 2 == 0),
        is_held(controller.raw_buttons, Button::L1) == (response[4] / 4 % 2 == 0),
        is_held(controller.raw_buttons, Button::R1) == (response[4] / 8 % 2 == 0),
        is_held(controller.raw_buttons, Button::Y) == (response[4] / 16 % 2 == 0),
        is_held(controller.raw_buttons, Button::B) == (response[4] / 32 % 2 == 0),
        is_held(controller.raw_buttons, Button::A) == (response[4] / 64 % 2 == 0),
        is_held(controller.raw_buttons, Button::X) == (response[4] / 128 % 2 == 0),
{
    law_each_button_is_held_by_its_own_bit(controller.raw_buttons);
    let raw_buttons: u16 = controller.raw_buttons;
    let low: u8 = response[3];
    let high: u8 = response[4];
    assert((raw_buttons % 2 == low % 2)
        && (raw_buttons / 2 % 2 == low / 2 % 2)
        && (raw_buttons / 4 % 2 == low / 4 % 2)
        && (raw_buttons / 8 % 2 == low / 8 % 2)
        && (raw_buttons / 16 % 2 == low / 16 % 2)
        && (raw_buttons / 32 % 2 == low / 32 % 2)
        && (raw_buttons / 64 % 2 == low / 64 % 2)
        && (raw_buttons / 128 % 2 == low / 128 % 2)
        && (raw_buttons / 256 % 2 == high % 2)
        && (raw_buttons / 512 % 2 == high / 2 % 2)
        && (raw_buttons / 1024 % 2 == high / 4 % 2)
        && (raw_buttons / 2048 % 2 == high / 8 % 2)
        && (raw_buttons / 4096 % 2 == high / 16 % 2)
        && (raw_buttons / 8192 % 2 == high / 32 % 2)
        && (raw_buttons / 16384 % 2 == high / 64 % 2)
        && (raw_buttons / 32768 % 2 == high / 128 % 2)) by (bit_vector)
        requires
            raw_buttons == 256 * high + low,
    ;
}

/// What a response says of the sticks is kept unchanged, whatever it says: byte 7 is where the
/// left stick points across and byte 8 where it points down, and bytes 5 and 6 say the same of
/// the right stick.
pub proof fn law_a_response_tells_the_sticks(controller: Ps2Controller, response: Seq<u8>)
    requires
        controller.shows(response),
    ensures
        controller.lx() == response[7] && controller.analog_data@[0] == response[7],
        controller.ly() == response[8] && controller.analog_data@[1] == response[8],
        controller.rx() == response[5] && controller.analog_data@[2] == response[5],
        controller.ry() == response[6] && controller.analog_data@[3] == response[6],
{
}

/// Two responses show the same sticks and buttons only where they agree in the bytes 3 to 8.
pub proof fn law_different_responses_are_told_apart(
    controller: Ps2Controller,
    response: Seq<u8>,
    other: Seq<u8>,
)
    requires
        controller.shows(response),
        controller.shows(other),
    ensures
        response[3] == other[3],
        response[4] == other[4],
        response[5] == other[5],
        response[6] == other[6],
        response[7] == other[7],
        response[8] == other[8],
{
}

/// A response comes from a controller in an analog mode exactly when its second byte is one of
/// 0x70 to 0x7F.
pub proof fn law_analog_modes_begin_with_a_seven(response: Seq<u8>)
    ensures
        response_is_analog(response) <==> 0x70 <= response[1] <= 0x7F,
{
}

/// The samples of a read reach the controller: from the first of them, those of the buttons
/// begin at 24, one for each and low for one that is held; those of the right stick at 40 and
/// 48, and those of the left one at 56 and 64. The mode is told by the samples 12 to 15.
pub proof fn law_samples_reach_the_controller(
    controller: Ps2Controller,
    samples: Seq<Level>,
    at: int,
    i: int,
)
    requires
        controller.shows(bus::sampled_bytes(samples, at, 9)),
        0 <= i < 16,
    ensures
        is_held(controller.raw_buttons, Button::ALL@[i]) <==> samples[at + 24 + i] is Low,
        controller.lx() == bus::sampled_byte(samples, at + 56),
        controller.ly() == bus::sampled_byte(samples, at + 64),
        controller.rx() == bus::sampled_byte(samples, at + 40),
        controller.ry() == bus::sampled_byte(samples, at + 48),
        response_is_analog(bus::sampled_bytes(samples, at, 9)) <==> samples[at + 12] is High
            && samples[at + 13] is High && samples[at + 14] is High && samples[at + 15] is Low,
{
    let response = bus::sampled_bytes(samples, at, 9);
    assert(response[1] == bus::sampled_byte(samples, at + 8));
    assert(response[3] == bus::sampled_byte(samples, at + 24));
    assert(response[4] == bus::sampled_byte(samples, at + 32));
    bus::law_samples_are_binary_digits(samples, at + 8);
    bus::law_samples_are_binary_digits(samples, at + 24);
    bus::law_samples_are_binary_digits(samples, at + 32);
    law_a_response_tells_the_buttons(controller, response);
    law_every_button_is_listed_once(Button::ALL@[i]);
    let mode = response[1] as int;
    assert(mode / 16 == mode / 16 % 2 + 2 * (mode / 32 % 2) + 4 * (mode / 64 % 2) + 8 * (mode / 128
        % 2));
}

/// A new controller's samples: a read takes 72 of them, and of the 400 of locking the mode the
/// last 72 count.
pub proof fn law_the_last_read_comes_last()
    ensures
        READ_SAMPLES == 72,
        CONFIG_SAMPLES == 400,
        LAST_READ == CONFIG_SAMPLES - READ_SAMPLES,
{
}

/// The bit of each button, by its value.
pub proof fn law_each_button_has_the_bit_of_its_name()
    ensures
        Button::Select.mask() == 0x0001,
        Button::L3.mask() == 0x0002,
        Button::R3.mask() == 0x0004,
        Button::Start.mask() == 0x0008,
        Button::Up.mask() == 0x0010,
        Button::Right.mask() == 0x0020,
        Button::Down.mask() == 0x0040,
        Button::Left.mask() == 0x0080,
        Button::L2.mask() == 0x0100,
        Button::R2.mask() == 0x0200,
        Button::L1.mask() == 0x0400,
        Button::R1.mask() == 0x0800,
        Button::Y.mask() == 0x1000,
        Button::B.mask() == 0x2000,
        Button::A.mask() == 0x4000,
        Button::X.mask() == 0x8000,
{
}

} // verus!
