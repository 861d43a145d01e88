//! The gamepad that reports over UART: its state, its buttons and its status line.
use vstd::prelude::*;

use crate::gamepad::line::as_str;
use crate::gamepad::line::new_line;
use crate::gamepad::line::pop;
use crate::gamepad::line::put;
use crate::gamepad::line::put_int;
use crate::text::ends_with;

pub mod frame;
pub mod line;

verus! {

pub const DPAD_UP: u8 = 1;

pub const DPAD_DOWN: u8 = 2;

pub const DPAD_RIGHT: u8 = 4;

pub const DPAD_LEFT: u8 = 8;

pub const BUTTON_A: u16 = 1;

pub const BUTTON_B: u16 = 2;

pub const BUTTON_X: u16 = 4;

pub const BUTTON_Y: u16 = 8;

pub const BUTTON_SHOULDER_L: u16 = 16;

pub const BUTTON_SHOULDER_R: u16 = 32;

pub const BUTTON_TRIGGER_L: u16 = 64;

pub const BUTTON_TRIGGER_R: u16 = 128;

pub const BUTTON_THUMB_L: u16 = 256;

pub const BUTTON_THUMB_R: u16 = 512;

/// Anything on the pad that can be pressed.
#[derive(Clone, Copy, Debug, PartialEq, Eq, Structural)]
pub enum Button {
    Dpad(DpadDirection),
    Regular(RegularButton),
}

#[derive(Clone, Copy, Debug, PartialEq, Eq, Structural)]
pub enum DpadDirection {
    Up,
    Down,
    Right,
    Left,
}

#[derive(Clone, Copy, Debug, PartialEq, Eq, Structural)]
pub enum RegularButton {
    A,
    B,
    X,
    Y,
    L1,
    R1,
    L2,
    R2,
    ThumbL,
    ThumbR,
}

/// The state of the pad, field by field as it arrives in a frame.
#[allow(non_camel_case_types)]
#[derive(Clone, Copy, Debug)]
pub struct uni_gamepad_t {
    pub dpad: u8,
    pub axis_x: i32,
    pub axis_y: i32,
    pub axis_rx: i32,
    pub axis_ry: i32,
    pub brake: i32,
    pub throttle: i32,
    pub buttons: u16,
    pub misc_buttons: u8,
    pub gyro: [i32; 3],
    pub accel: [i32; 3],
}

impl Default for uni_gamepad_t {
    /// A pad at rest: nothing is pressed, every axis is centred.
    fn default() -> (pad: Self)
        ensures
            pad.dpad == 0 && pad.buttons == 0 && pad.misc_buttons == 0,
            pad.axis_x == 0 && pad.axis_y == 0 && pad.axis_rx == 0 && pad.axis_ry == 0,
            pad.brake == 0 && pad.throttle == 0,
            pad.gyro@ == seq![0i32, 0, 0],
            pad.accel@ == seq![0i32, 0, 0],
    {
        let pad = uni_gamepad_t {
            dpad: 0,
            axis_x: 0,
            axis_y: 0,
            axis_rx: 0,
            axis_ry: 0,
            brake: 0,
            throttle: 0,
            buttons: 0,
            misc_buttons: 0,
            gyro: [0, 0, 0],
            accel: [0, 0, 0],
        };
        assert(pad.gyro@ =~= seq![0i32, 0, 0]);
        assert(pad.accel@ =~= seq![0i32, 0, 0]);
        pad
    }
}

/// The bit of a direction in `dpad`.
pub open spec fn dpad_mask(direction: DpadDirection) -> u8 {
    match direction {
        DpadDirection::Up => DPAD_UP,
        DpadDirection::Down => DPAD_DOWN,
        DpadDirection::Right => DPAD_RIGHT,
        DpadDirection::Left => DPAD_LEFT,
    }
}

/// The bit of a button in `buttons`.
pub open spec fn button_mask(button: RegularButton) -> u16 {
    match button {
        RegularButton::A => BUTTON_A,
        RegularButton::B => BUTTON_B,
        RegularButton::X => BUTTON_X,
        RegularButton::Y => BUTTON_Y,
        RegularButton::L1 => BUTTON_SHOULDER_L,
        RegularButton::R1 => BUTTON_SHOULDER_R,
        RegularButton::L2 => BUTTON_TRIGGER_L,
        RegularButton::R2 => BUTTON_TRIGGER_R,
        RegularButton::ThumbL => BUTTON_THUMB_L,
        RegularButton::ThumbR => BUTTON_THUMB_R,
    }
}

/// `text` and `piece`, where `on` holds and the piece fits.
#[verifier::opaque]
pub open spec fn with_piece(text: Seq<char>, on: bool, piece: Seq<char>) -> Seq<char> {
    if on {
        line::Writing::start(text).put(piece).text
    } else {
        text
    }
}

/// `text`, `name` and a space, as far as they fit, where `on` holds.
#[verifier::opaque]
pub open spec fn with_name(text: Seq<char>, on: bool, name: Seq<char>) -> Seq<char> {
    if on {
        line::Writing::start(text).put(name).put(" "@).text
    } else {
        text
    }
}

/// `text` and a pair of labelled numbers, as far as they fit, where one of them is not zero.
#[verifier::opaque]
pub open spec fn with_pair(
    text: Seq<char>,
    first_label: Seq<char>,
    first: i32,
    second_label: Seq<char>,
    second: i32,
) -> Seq<char> {
    if first != 0 || second != 0 {
        line::Writing::start(text).put(first_label).put_int(first).put(second_label).put_int(
            second,
        ).put(" "@).text
    } else {
        text
    }
}

impl uni_gamepad_t {
    /// Whether a button is held down.
    pub open spec fn holds(self, button: Button) -> bool {
        match button {
            Button::Dpad(direction) => self.dpad & dpad_mask(direction) != 0,
            Button::Regular(button) => self.buttons & button_mask(button) != 0,
        }
    }

    pub open spec fn holds_dpad(self, direction: DpadDirection) -> bool {
        self.holds(Button::Dpad(direction))
    }

    pub open spec fn holds_button(self, button: RegularButton) -> bool {
        self.holds(Button::Regular(button))
    }

    /// The part of the status line that names the directions held.
    pub open spec fn dpad_text(self) -> Seq<char> {
        let text = with_piece(Seq::empty(), self.holds_dpad(DpadDirection::Up), "UP "@);
        let text = with_piece(text, self.holds_dpad(DpadDirection::Down), "DOWN "@);
        let text = with_piece(text, self.holds_dpad(DpadDirection::Left), "LEFT "@);
        with_piece(text, self.holds_dpad(DpadDirection::Right), "RIGHT "@)
    }

    /// The status line up to and with the names of the buttons held.
    pub open spec fn names_text(self) -> Seq<char> {
        let text = with_name(self.dpad_text(), self.holds_button(RegularButton::A), "A"@);
        let text = with_name(text, self.holds_button(RegularButton::B), "B"@);
        let text = with_name(text, self.holds_button(RegularButton::X), "X"@);
        let text = with_name(text, self.holds_button(RegularButton::Y), "Y"@);
        let text = with_name(text, self.holds_button(RegularButton::L1), "L1"@);
        let text = with_name(text, self.holds_button(RegularButton::R1), "R1"@);
        let text = with_name(text, self.holds_button(RegularButton::L2), "L2"@);
        let text = with_name(text, self.holds_button(RegularButton::R2), "R2"@);
        let text = with_name(text, self.holds_button(RegularButton::ThumbL), "L3"@);
        with_name(text, self.holds_button(RegularButton::ThumbR), "R3"@)
    }

    /// The whole status line, with the space that comes last, where there is one.
    pub open spec fn untrimmed_text(self) -> Seq<char> {
        let text = with_pair(self.names_text(), "| LX:"@, self.axis_x, " LY:"@, self.axis_y);
        let text = with_pair(text, "| RX:"@, self.axis_rx, " RY:"@, self.axis_ry);
        with_pair(text, "| RT:"@, self.throttle, " LT:"@, self.brake)
    }

    /// The status line: a space at its end is trimmed.
    pub open spec fn status_text(self) -> Seq<char> {
        if self.untrimmed_text().len() > 0 && self.untrimmed_text().last() == ' ' {
            self.untrimmed_text().drop_last()
        } else {
            self.untrimmed_text()
        }
    }

    /// Whether a button is held down.
    pub fn pressed(&self, btn: Button) -> (held: bool)
        ensures
            held == self.holds(btn),
    {
        match btn {
            Button::Dpad(dpad_direction) => {
                let id: u8 = match dpad_direction {
                    DpadDirection::Up => DPAD_UP,
                    DpadDirection::Down => DPAD_DOWN,
                    DpadDirection::Right => DPAD_RIGHT,
                    DpadDirection::Left => DPAD_LEFT,
                };
                (self.dpad & id) != 0
            },
            Button::Regular(btn) => {
                let id: u16 = match btn {
                    RegularButton::A => BUTTON_A,
                    RegularButton::B => BUTTON_B,
                    RegularButton::X => BUTTON_X,
                    RegularButton::Y => BUTTON_Y,
                    RegularButton::L1 => BUTTON_SHOULDER_L,
                    RegularButton::R1 => BUTTON_SHOULDER_R,
                    RegularButton::L2 => BUTTON_TRIGGER_L,
                    RegularButton::R2 => BUTTON_TRIGGER_R,
                    RegularButton::ThumbL => BUTTON_THUMB_L,
                    RegularButton::ThumbR => BUTTON_THUMB_R,
                };
                (self.buttons & id) != 0
            },
        }
    }

    /// A line that names what is pressed and gives the axes that are off centre. What does not
    /// fit the line is left out, and a space at its end is trimmed.
    pub fn status(&self) -> (out: heapless::String<128>)
        ensures
            line::text_of(out) == self.status_text(),
    {
        let mut out = new_line();
        self.write_direction(&mut out, DpadDirection::Up, "UP ");
        self.write_direction(&mut out, DpadDirection::Down, "DOWN ");
        self.write_direction(&mut out, DpadDirection::Left, "LEFT ");
        self.write_direction(&mut out, DpadDirection::Right, "RIGHT ");

        self.write_name(&mut out, RegularButton::A, "A");
        self.write_name(&mut out, RegularButton::B, "B");
        self.write_name(&mut out, RegularButton::X, "X");
        self.write_name(&mut out, RegularButton::Y, "Y");
        self.write_name(&mut out, RegularButton::L1, "L1");
        self.write_name(&mut out, RegularButton::R1, "R1");
        self.write_name(&mut out, RegularButton::L2, "L2");
        self.write_name(&mut out, RegularButton::R2, "R2");
        self.write_name(&mut out, RegularButton::ThumbL, "L3");
        self.write_name(&mut out, RegularButton::ThumbR, "R3");

        write_pair(&mut out, "| LX:", self.axis_x, " LY:", self.axis_y);
        write_pair(&mut out, "| RX:", self.axis_rx, " RY:", self.axis_ry);
        write_pair(&mut out, "| RT:", self.throttle, " LT:", self.brake);

        proof {
            reveal_strlit(" ");
            let text = line::text_of(out);
            if text.len() > 0 {
                let last = text.skip(text.len() - 1);
                assert(last[0] == text.last());
                assert(last[0] == ' ' ==> last =~= " "@);
            }
        }
        if ends_with(as_str(&out), " ") {
            let _ = pop(&mut out);
        }
        out
    }

    fn write_direction(
        &self,
        out: &mut heapless::String<128>,
        direction: DpadDirection,
        piece: &str,
    )
        ensures
            line::text_of(*final(out)) == with_piece(
                line::text_of(*old(out)),
                self.holds_dpad(direction),
                piece@,
            ),
    {
        reveal(with_piece);
        if self.pressed(Button::Dpad(direction)) {
            let _ = put(out, true, piece);
        }
    }

    fn write_name(&self, out: &mut heapless::String<128>, button: RegularButton, name: &str)
        ensures
            line::text_of(*final(out)) == with_name(
                line::text_of(*old(out)),
                self.holds_button(button),
                name@,
            ),
    {
        reveal(with_name);
        if self.pressed(Button::Regular(button)) {
            let ok: bool = put(out, true, name);
            let _ = put(out, ok, " ");
        }
    }
}

fn write_pair(
    out: &mut heapless::String<128>,
    first_label: &str,
    first: i32,
    second_label: &str,
    second: i32,
)
    ensures
        line::text_of(*final(out)) == with_pair(
            line::text_of(*old(out)),
            first_label@,
            first,
            second_label@,
            second,
        ),
{
    reveal(with_pair);
    if first != 0 || second != 0 {
        let ok: bool = put(out, true, first_label);
        let ok: bool = put_int(out, ok, first);
        let ok: bool = put(out, ok, second_label);
        let ok: bool = put_int(out, ok, second);
        let _ = put(out, ok, " ");
    }
}

// ---------------------------------------------------------------------------
// Laws
// ---------------------------------------------------------------------------

/// `piece` where `on` holds, nothing otherwise.
#[verifier::opaque]
pub open spec fn word(on: bool, piece: Seq<char>) -> Seq<char> {
    if on {
        piece
    } else {
        Seq::empty()
    }
}

/// A pair of labelled numbers and a space, or nothing where both are zero.
#[verifier::opaque]
pub open spec fn pair_words(
    first_label: Seq<char>,
    first: i32,
    second_label: Seq<char>,
    second: i32,
) -> Seq<char> {
    if first != 0 || second != 0 {
        first_label + line::int_text(first) + second_label + line::int_text(second) + " "@
    } else {
        Seq::empty()
    }
}

impl uni_gamepad_t {
    /// Everything there is to report about the names of what is pressed.
    pub open spec fn all_names(self) -> Seq<char> {
        word(self.holds_dpad(DpadDirection::Up), "UP "@)
            + word(self.holds_dpad(DpadDirection::Down), "DOWN "@)
            + word(self.holds_dpad(DpadDirection::Left), "LEFT "@)
            + word(self.holds_dpad(DpadDirection::Right), "RIGHT "@)
            + word(self.holds_button(RegularButton::A), "A "@)
            + word(self.holds_button(RegularButton::B), "B "@)
            + word(self.holds_button(RegularButton::X), "X "@)
            + word(self.holds_button(RegularButton::Y), "Y "@)
            + word(self.holds_button(RegularButton::L1), "L1 "@)
            + word(self.holds_button(RegularButton::R1), "R1 "@)
            + word(self.holds_button(RegularButton::L2), "L2 "@)
            + word(self.holds_button(RegularButton::R2), "R2 "@)
            + word(self.holds_button(RegularButton::ThumbL), "L3 "@)
            + word(self.holds_button(RegularButton::ThumbR), "R3 "@)
    }

    /// Everything there is to report, each item followed by a space.
    pub open spec fn full_report(self) -> Seq<char> {
        self.all_names()
            + pair_words("| LX:"@, self.axis_x, " LY:"@, self.axis_y)
            + pair_words("| RX:"@, self.axis_rx, " RY:"@, self.axis_ry)
            + pair_words("| RT:"@, self.throttle, " LT:"@, self.brake)
    }
}

proof fn lemma_piece_that_fits(text: Seq<char>, on: bool, piece: Seq<char>)
    requires
        vstd::utf8::is_ascii_chars(text),
        vstd::utf8::is_ascii_chars(piece),
        text.len() + word(on, piece).len() <= line::STATUS_CAPACITY,
    ensures
        with_piece(text, on, piece) == text + word(on, piece),
        vstd::utf8::is_ascii_chars(text + word(on, piece)),
{
    reveal(with_piece);
    reveal(word);
    if on {
        line::lemma_put_that_fits(text, piece);
    } else {
        assert(text + word(on, piece) =~= text);
    }
}

proof fn lemma_name_that_fits(text: Seq<char>, on: bool, name: Seq<char>, spaced: Seq<char>)
    requires
        vstd::utf8::is_ascii_chars(text),
        vstd::utf8::is_ascii_chars(name),
        spaced == name.push(' '),
        text.len() + word(on, spaced).len() <= line::STATUS_CAPACITY,
    ensures
        with_name(text, on, name) == text + word(on, spaced),
        vstd::utf8::is_ascii_chars(text + word(on, spaced)),
{
    reveal(with_name);
    reveal(word);
    reveal_strlit(" ");
    if on {
        line::lemma_put_that_fits(text, name);
        line::lemma_put_that_fits(text + name, " "@);
        assert((text + name) + " "@ =~= text + spaced);
    } else {
        assert(text + word(on, spaced) =~= text);
    }
}

proof fn lemma_pair_that_fits(
    text: Seq<char>,
    first_label: Seq<char>,
    first: i32,
    second_label: Seq<char>,
    second: i32,
)
    requires
        vstd::utf8::is_ascii_chars(text),
        vstd::utf8::is_ascii_chars(first_label),
        vstd::utf8::is_ascii_chars(second_label),
        text.len() + pair_words(first_label, first, second_label, second).len()
            <= line::STATUS_CAPACITY,
    ensures
        with_pair(text, first_label, first, second_label, second) == text + pair_words(
            first_label,
            first,
            second_label,
            second,
        ),
        vstd::utf8::is_ascii_chars(
            text + pair_words(first_label, first, second_label, second),
        ),
{
    reveal(with_pair);
    reveal(pair_words);
    let words = pair_words(first_label, first, second_label, second);
    if first != 0 || second != 0 {
        reveal_strlit(" ");
        let t1 = text + first_label;
        let t2 = t1 + line::int_text(first);
        let t3 = t2 + second_label;
        let t4 = t3 + line::int_text(second);
        line::lemma_put_that_fits(text, first_label);
        line::lemma_put_int_that_fits(t1, first);
        line::lemma_put_that_fits(t2, second_label);
        line::lemma_put_int_that_fits(t3, second);
        line::lemma_put_that_fits(t4, " "@);
        assert(t4 + " "@ =~= text + words);
    } else {
        assert(text + words =~= text);
    }
}

/// The four directions are written whole after an empty line.
proof fn lemma_directions_fit(up: bool, down: bool, left: bool, right: bool)
    ensures
        ({
            let t1 = word(up, "UP "@);
            let t2 = t1 + word(down, "DOWN "@);
            let t3 = t2 + word(left, "LEFT "@);
            let t4 = t3 + word(right, "RIGHT "@);
            &&& with_piece(Seq::empty(), up, "UP "@) == t1
            &&& with_piece(t1, down, "DOWN "@) == t2
            &&& with_piece(t2, left, "LEFT "@) == t3
            &&& with_piece(t3, right, "RIGHT "@) == t4
            &&& t4.len() <= 19
            &&& vstd::utf8::is_ascii_chars(t4)
        }),
{
    reveal(word);
    reveal_strlit("UP ");
    reveal_strlit("DOWN ");
    reveal_strlit("LEFT ");
    reveal_strlit("RIGHT ");
    lemma_piece_that_fits(Seq::empty(), up, "UP "@);
    let t1 = word(up, "UP "@);
    assert(Seq::<char>::empty() + t1 =~= t1);
    lemma_piece_that_fits(t1, down, "DOWN "@);
    let t2 = t1 + word(down, "DOWN "@);
    lemma_piece_that_fits(t2, left, "LEFT "@);
    let t3 = t2 + word(left, "LEFT "@);
    lemma_piece_that_fits(t3, right, "RIGHT "@);
}

/// Four names of one character are written whole after a short text.
proof fn lemma_face_names_fit(text: Seq<char>, a: bool, b: bool, x: bool, y: bool)
    requires
        vstd::utf8::is_ascii_chars(text),
        text.len() <= 19,
    ensures
        ({
            let t1 = text + word(a, "A "@);
            let t2 = t1 + word(b, "B "@);
            let t3 = t2 + word(x, "X "@);
            let t4 = t3 + word(y, "Y "@);
            &&& with_name(text, a, "A"@) == t1
            &&& with_name(t1, b, "B"@) == t2
            &&& with_name(t2, x, "X"@) == t3
            &&& with_name(t3, y, "Y"@) == t4
            &&& t4.len() <= text.len() + 8
            &&& vstd::utf8::is_ascii_chars(t4)
        }),
{
    reveal(word);
    reveal_strlit("A");
    reveal_strlit("A ");
    reveal_strlit("B");
    reveal_strlit("B ");
    reveal_strlit("X");
    reveal_strlit("X ");
    reveal_strlit("Y");
    reveal_strlit("Y ");
    assert("A "@ =~= "A"@.push(' '));
    assert("B "@ =~= "B"@.push(' '));
    assert("X "@ =~= "X"@.push(' '));
    assert("Y "@ =~= "Y"@.push(' '));
    lemma_name_that_fits(text, a, "A"@, "A "@);
    let t1 = text + word(a, "A "@);
    lemma_name_that_fits(t1, b, "B"@, "B "@);
    let t2 = t1 + word(b, "B "@);
    lemma_name_that_fits(t2, x, "X"@, "X "@);
    let t3 = t2 + word(x, "X "@);
    lemma_name_that_fits(t3, y, "Y"@, "Y "@);
}

/// Three names of two characters are written whole after a short text.
proof fn lemma_three_names_fit(
    text: Seq<char>,
    on: Seq<bool>,
    name: Seq<Seq<char>>,
    spaced: Seq<Seq<char>>,
)
    requires
        vstd::utf8::is_ascii_chars(text),
        text.len() <= 36,
        on.len() == name.len() == spaced.len() == 3,
        forall|i: int|
            #![trigger name[i]]
            0 <= i < 3 ==> name[i].len() == 2 && vstd::utf8::is_ascii_chars(name[i]) && spaced[i]
                == name[i].push(' '),
    ensures
        ({
            let t1 = text + word(on[0], spaced[0]);
            let t2 = t1 + word(on[1], spaced[1]);
            let t3 = t2 + word(on[2], spaced[2]);
            &&& with_name(text, on[0], name[0]) == t1
            &&& with_name(t1, on[1], name[1]) == t2
            &&& with_name(t2, on[2], name[2]) == t3
            &&& t3.len() <= text.len() + 9
            &&& vstd::utf8::is_ascii_chars(t3)
        }),
{
    reveal(word);
    lemma_name_that_fits(text, on[0], name[0], spaced[0]);
    let t1 = text + word(on[0], spaced[0]);
    lemma_name_that_fits(t1, on[1], name[1], spaced[1]);
    let t2 = t1 + word(on[1], spaced[1]);
    lemma_name_that_fits(t2, on[2], name[2], spaced[2]);
}

/// The six names of the shoulder and thumb buttons are written whole after a short text.
proof fn lemma_side_names_fit(text: Seq<char>, on: Seq<bool>)
    requires
        vstd::utf8::is_ascii_chars(text),
        text.len() <= 27,
        on.len() == 6,
    ensures
        ({
            let t1 = text + word(on[0], "L1 "@);
            let t2 = t1 + word(on[1], "R1 "@);
            let t3 = t2 + word(on[2], "L2 "@);
            let t4 = t3 + word(on[3], "R2 "@);
            let t5 = t4 + word(on[4], "L3 "@);
            let t6 = t5 + word(on[5], "R3 "@);
            &&& with_name(text, on[0], "L1"@) == t1
            &&& with_name(t1, on[1], "R1"@) == t2
            &&& with_name(t2, on[2], "L2"@) == t3
            &&& with_name(t3, on[3], "R2"@) == t4
            &&& with_name(t4, on[4], "L3"@) == t5
            &&& with_name(t5, on[5], "R3"@) == t6
            &&& t6.len() <= text.len() + 18
            &&& vstd::utf8::is_ascii_chars(t6)
        }),
{
    reveal_strlit("L1");
    reveal_strlit("L1 ");
    reveal_strlit("R1");
    reveal_strlit("R1 ");
    reveal_strlit("L2");
    reveal_strlit("L2 ");
    reveal_strlit("R2");
    reveal_strlit("R2 ");
    reveal_strlit("L3");
    reveal_strlit("L3 ");
    reveal_strlit("R3");
    reveal_strlit("R3 ");
    assert("L1 "@ =~= "L1"@.push(' '));
    assert("R1 "@ =~= "R1"@.push(' '));
    assert("L2 "@ =~= "L2"@.push(' '));
    assert("R2 "@ =~= "R2"@.push(' '));
    assert("L3 "@ =~= "L3"@.push(' '));
    assert("R3 "@ =~= "R3"@.push(' '));
    let t3 = text + word(on[0], "L1 "@) + word(on[1], "R1 "@) + word(on[2], "L2 "@);
    lemma_three_names_fit(
        text,
        seq![on[0], on[1], on[2]],
        seq!["L1"@, "R1"@, "L2"@],
        seq!["L1 "@, "R1 "@, "L2 "@],
    );
    lemma_three_names_fit(
        t3,
        seq![on[3], on[4], on[5]],
        seq!["R2"@, "L3"@, "R3"@],
        seq!["R2 "@, "L3 "@, "R3 "@],
    );
}

/// The names of all that is pressed always fit.
proof fn lemma_names_fit(pad: uni_gamepad_t)
    ensures
        pad.names_text() == pad.all_names(),
        pad.all_names().len() <= 45,
        vstd::utf8::is_ascii_chars(pad.all_names()),
{
    let up = pad.holds_dpad(DpadDirection::Up);
    let down = pad.holds_dpad(DpadDirection::Down);
    let left = pad.holds_dpad(DpadDirection::Left);
    let right = pad.holds_dpad(DpadDirection::Right);
    lemma_directions_fit(up, down, left, right);
    let t4 = word(up, "UP "@) + word(down, "DOWN "@) + word(left, "LEFT "@) + word(
        right,
        "RIGHT "@,
    );
    let a = pad.holds_button(RegularButton::A);
    let b = pad.holds_button(RegularButton::B);
    let x = pad.holds_button(RegularButton::X);
    let y = pad.holds_button(RegularButton::Y);
    lemma_face_names_fit(t4, a, b, x, y);
    let t8 = t4 + word(a, "A "@) + word(b, "B "@) + word(x, "X "@) + word(y, "Y "@);
    lemma_side_names_fit(
        t8,
        seq![
            pad.holds_button(RegularButton::L1),
            pad.holds_button(RegularButton::R1),
            pad.holds_button(RegularButton::L2),
            pad.holds_button(RegularButton::R2),
            pad.holds_button(RegularButton::ThumbL),
            pad.holds_button(RegularButton::ThumbR),
        ],
    );
}

/// A report that fits the line is given in full, without its last space.
pub proof fn law_a_report_that_fits_is_complete(pad: uni_gamepad_t)
    requires
        pad.full_report().len() <= line::STATUS_CAPACITY,
    ensures
        pad.status_text() == (if pad.full_report().len() == 0 {
            Seq::empty()
        } else {
            pad.full_report().drop_last()
        }),
{
    lemma_names_fit(pad);
    reveal_strlit("| LX:");
    reveal_strlit(" LY:");
    reveal_strlit("| RX:");
    reveal_strlit(" RY:");
    reveal_strlit("| RT:");
    reveal_strlit(" LT:");
    let t1 = pad.all_names();
    lemma_pair_that_fits(t1, "| LX:"@, pad.axis_x, " LY:"@, pad.axis_y);
    let t2 = t1 + pair_words("| LX:"@, pad.axis_x, " LY:"@, pad.axis_y);
    lemma_pair_that_fits(t2, "| RX:"@, pad.axis_rx, " RY:"@, pad.axis_ry);
    let t3 = t2 + pair_words("| RX:"@, pad.axis_rx, " RY:"@, pad.axis_ry);
    lemma_pair_that_fits(t3, "| RT:"@, pad.throttle, " LT:"@, pad.brake);
    lemma_a_report_is_spaced(pad);
}

/// Whether a text is empty or ends with a space.
#[verifier::opaque]
spec fn is_spaced(text: Seq<char>) -> bool {
    text.len() == 0 || text.last() == ' '
}

proof fn lemma_both_are_spaced(text: Seq<char>, more: Seq<char>)
    requires
        is_spaced(text),
        more.len() == 0 || more.last() == ' ',
    ensures
        is_spaced(text + more),
{
    reveal(is_spaced);
    if more.len() == 0 {
        assert(text + more =~= text);
    }
}

proof fn lemma_word_is_spaced(text: Seq<char>, on: bool, piece: Seq<char>)
    requires
        is_spaced(text),
        piece.len() > 0,
        piece.last() == ' ',
    ensures
        is_spaced(text + word(on, piece)),
{
    reveal(word);
    lemma_both_are_spaced(text, word(on, piece));
}

proof fn lemma_pair_is_spaced(
    text: Seq<char>,
    first_label: Seq<char>,
    first: i32,
    second_label: Seq<char>,
    second: i32,
)
    requires
        is_spaced(text),
    ensures
        is_spaced(text + pair_words(first_label, first, second_label, second)),
{
    reveal(pair_words);
    reveal_strlit(" ");
    lemma_both_are_spaced(text, pair_words(first_label, first, second_label, second));
}

/// The names of what is pressed, and a space after the last one.
proof fn lemma_names_are_spaced(pad: uni_gamepad_t)
    ensures
        is_spaced(pad.all_names()),
{
    reveal_strlit("UP ");
    reveal_strlit("DOWN ");
    reveal_strlit("LEFT ");
    reveal_strlit("RIGHT ");
    reveal_strlit("A ");
    reveal_strlit("B ");
    reveal_strlit("X ");
    reveal_strlit("Y ");
    reveal_strlit("L1 ");
    reveal_strlit("R1 ");
    reveal_strlit("L2 ");
    reveal_strlit("R2 ");
    reveal_strlit("L3 ");
    reveal_strlit("R3 ");
    assert(is_spaced(Seq::empty())) by {
        reveal(is_spaced);
    }
    let t0 = word(pad.holds_dpad(DpadDirection::Up), "UP "@);
    lemma_word_is_spaced(Seq::empty(), pad.holds_dpad(DpadDirection::Up), "UP "@);
    assert(Seq::<char>::empty() + t0 =~= t0);
    let t1 = t0 + word(pad.holds_dpad(DpadDirection::Down), "DOWN "@);
    lemma_word_is_spaced(t0, pad.holds_dpad(DpadDirection::Down), "DOWN "@);
    let t2 = t1 + word(pad.holds_dpad(DpadDirection::Left), "LEFT "@);
    lemma_word_is_spaced(t1, pad.holds_dpad(DpadDirection::Left), "LEFT "@);
    let t3 = t2 + word(pad.holds_dpad(DpadDirection::Right), "RIGHT "@);
    lemma_word_is_spaced(t2, pad.holds_dpad(DpadDirection::Right), "RIGHT "@);
    let t4 = t3 + word(pad.holds_button(RegularButton::A), "A "@);
    lemma_word_is_spaced(t3, pad.holds_button(RegularButton::A), "A "@);
    let t5 = t4 + word(pad.holds_button(RegularButton::B), "B "@);
    lemma_word_is_spaced(t4, pad.holds_button(RegularButton::B), "B "@);
    let t6 = t5 + word(pad.holds_button(RegularButton::X), "X "@);
    lemma_word_is_spaced(t5, pad.holds_button(RegularButton::X), "X "@);
    let t7 = t6 + word(pad.holds_button(RegularButton::Y), "Y "@);
    lemma_word_is_spaced(t6, pad.holds_button(RegularButton::Y), "Y "@);
    let t8 = t7 + word(pad.holds_button(RegularButton::L1), "L1 "@);
    lemma_word_is_spaced(t7, pad.holds_button(RegularButton::L1), "L1 "@);
    let t9 = t8 + word(pad.holds_button(RegularButton::R1), "R1 "@);
    lemma_word_is_spaced(t8, pad.holds_button(RegularButton::R1), "R1 "@);
    let t10 = t9 + word(pad.holds_button(RegularButton::L2), "L2 "@);
    lemma_word_is_spaced(t9, pad.holds_button(RegularButton::L2), "L2 "@);
    let t11 = t10 + word(pad.holds_button(RegularButton::R2), "R2 "@);
    lemma_word_is_spaced(t10, pad.holds_button(RegularButton::R2), "R2 "@);
    let t12 = t11 + word(pad.holds_button(RegularButton::ThumbL), "L3 "@);
    lemma_word_is_spaced(t11, pad.holds_button(RegularButton::ThumbL), "L3 "@);
    let t13 = t12 + word(pad.holds_button(RegularButton::ThumbR), "R3 "@);
    lemma_word_is_spaced(t12, pad.holds_button(RegularButton::ThumbR), "R3 "@);
}

/// What there is to report is empty or ends with a space.
proof fn lemma_a_report_is_spaced(pad: uni_gamepad_t)
    ensures
        pad.full_report().len() == 0 || pad.full_report().last() == ' ',
{
    lemma_names_are_spaced(pad);
    let t1 = pad.all_names();
    lemma_pair_is_spaced(t1, "| LX:"@, pad.axis_x, " LY:"@, pad.axis_y);
    let t2 = t1 + pair_words("| LX:"@, pad.axis_x, " LY:"@, pad.axis_y);
    lemma_pair_is_spaced(t2, "| RX:"@, pad.axis_rx, " RY:"@, pad.axis_ry);
    let t3 = t2 + pair_words("| RX:"@, pad.axis_rx, " RY:"@, pad.axis_ry);
    lemma_pair_is_spaced(t3, "| RT:"@, pad.throttle, " LT:"@, pad.brake);
    reveal(is_spaced);
}

/// Nothing but a space is ever trimmed: no digit, sign or letter of the line is lost.
pub proof fn law_only_a_space_is_trimmed(pad: uni_gamepad_t)
    ensures
        pad.untrimmed_text() == pad.status_text() || pad.untrimmed_text()
            == pad.status_text().push(' '),
        pad.untrimmed_text().len() > 0 && pad.untrimmed_text().last() == ' '
            ==> pad.untrimmed_text() == pad.status_text().push(' '),
{
    let text = pad.untrimmed_text();
    if text.len() > 0 && text.last() == ' ' {
        assert(text.drop_last().push(' ') =~= text);
    }
}

/// The names and the pairs of both sticks are always given in full: only the pair of the
/// throttle and the brake, which comes last, can be cut short.
pub proof fn law_only_the_last_pair_is_ever_cut(pad: uni_gamepad_t)
    ensures
        pad.untrimmed_text() == with_pair(
            pad.all_names() + pair_words("| LX:"@, pad.axis_x, " LY:"@, pad.axis_y)
                + pair_words("| RX:"@, pad.axis_rx, " RY:"@, pad.axis_ry),
            "| RT:"@,
            pad.throttle,
            " LT:"@,
            pad.brake,
        ),
{
    lemma_sticks_fit(pad);
}

/// The line before its last pair: at most 109 characters, all ASCII.
proof fn lemma_sticks_fit(pad: uni_gamepad_t)
    ensures
        ({
            let t2 = pad.all_names() + pair_words("| LX:"@, pad.axis_x, " LY:"@, pad.axis_y);
            let t3 = t2 + pair_words("| RX:"@, pad.axis_rx, " RY:"@, pad.axis_ry);
            &&& with_pair(pad.names_text(), "| LX:"@, pad.axis_x, " LY:"@, pad.axis_y) == t2
            &&& with_pair(t2, "| RX:"@, pad.axis_rx, " RY:"@, pad.axis_ry) == t3
            &&& t3.len() <= 109
            &&& vstd::utf8::is_ascii_chars(t3)
        }),
{
    lemma_names_fit(pad);
    reveal_strlit("| LX:");
    reveal_strlit(" LY:");
    reveal_strlit("| RX:");
    reveal_strlit(" RY:");
    let t1 = pad.all_names();
    lemma_pair_length("| LX:"@, pad.axis_x, " LY:"@, pad.axis_y);
    lemma_pair_that_fits(t1, "| LX:"@, pad.axis_x, " LY:"@, pad.axis_y);
    let t2 = t1 + pair_words("| LX:"@, pad.axis_x, " LY:"@, pad.axis_y);
    lemma_pair_length("| RX:"@, pad.axis_rx, " RY:"@, pad.axis_ry);
    lemma_pair_that_fits(t2, "| RX:"@, pad.axis_rx, " RY:"@, pad.axis_ry);
}

proof fn lemma_pair_length(
    first_label: Seq<char>,
    first: i32,
    second_label: Seq<char>,
    second: i32,
)
    requires
        first_label.len() == 5,
        second_label.len() == 4,
    ensures
        pair_words(first_label, first, second_label, second).len() <= 32,
{
    reveal(pair_words);
    reveal_strlit(" ");
    line::lemma_int_length(first);
    line::lemma_int_length(second);
}

/// The status line never exceeds its capacity, even before a space at its end is trimmed.
pub proof fn law_the_status_fits_the_line(pad: uni_gamepad_t)
    ensures
        pad.untrimmed_text().len() <= line::STATUS_CAPACITY,
        pad.status_text().len() <= line::STATUS_CAPACITY,
{
    lemma_sticks_fit(pad);
    reveal(with_pair);
    reveal_strlit("| RT:");
    reveal_strlit(" LT:");
    reveal_strlit(" ");
    let text = pad.all_names() + pair_words("| LX:"@, pad.axis_x, " LY:"@, pad.axis_y)
        + pair_words("| RX:"@, pad.axis_rx, " RY:"@, pad.axis_ry);
    let w1 = line::Writing::start(text).put("| RT:"@);
    line::lemma_put_stays_within(line::Writing::start(text), "| RT:"@);
    let w2 = w1.put_int(pad.throttle);
    line::lemma_put_int_stays_within(w1, pad.throttle);
    let w3 = w2.put(" LT:"@);
    line::lemma_put_stays_within(w2, " LT:"@);
    let w4 = w3.put_int(pad.brake);
    line::lemma_put_int_stays_within(w3, pad.brake);
    line::lemma_put_stays_within(w4, " "@);
}

/// A pad at rest has nothing to report.
pub proof fn law_a_pad_at_rest_reports_nothing(pad: uni_gamepad_t)
    requires
        forall|button: Button| !pad.holds(button),
        pad.axis_x == 0 && pad.axis_y == 0,
        pad.axis_rx == 0 && pad.axis_ry == 0,
        pad.throttle == 0 && pad.brake == 0,
    ensures
        pad.status_text() == Seq::<char>::empty(),
{
    reveal(word);
    reveal(pair_words);
    assert(pad.full_report() =~= Seq::empty());
    law_a_report_that_fits_is_complete(pad);
}

/// The position of a button's bit in `buttons`.
spec fn button_index(button: RegularButton) -> u16 {
    match button {
        RegularButton::A => 0,
        RegularButton::B => 1,
        RegularButton::X => 2,
        RegularButton::Y => 3,
        RegularButton::L1 => 4,
        RegularButton::R1 => 5,
        RegularButton::L2 => 6,
        RegularButton::R2 => 7,
        RegularButton::ThumbL => 8,
        RegularButton::ThumbR => 9,
    }
}

/// The position of a direction's bit in `dpad`.
spec fn dpad_index(direction: DpadDirection) -> u8 {
    match direction {
        DpadDirection::Up => 0,
        DpadDirection::Down => 1,
        DpadDirection::Right => 2,
        DpadDirection::Left => 3,
    }
}

/// Every button has a bit of its own: with it set the button is held, and every other button
/// is held or not as before.
pub proof fn law_buttons_are_independent(
    pad: uni_gamepad_t,
    pushed: RegularButton,
    other: RegularButton,
)
    ensures
        ({
            let after = uni_gamepad_t { buttons: pad.buttons | button_mask(pushed), ..pad };
            &&& after.holds_button(pushed)
            &&& other != pushed ==> after.holds_button(other) == pad.holds_button(other)
        }),
{
    let i = button_index(pushed);
    let j = button_index(other);
    assert(1u16 << 0u16 == 1 && 1u16 << 1u16 == 2 && 1u16 << 2u16 == 4 && 1u16 << 3u16 == 8 && 1u16
        << 4u16 == 16 && 1u16 << 5u16 == 32 && 1u16 << 6u16 == 64 && 1u16 << 7u16 == 128 && 1u16
        << 8u16 == 256 && 1u16 << 9u16 == 512) by (bit_vector);
    assert(button_mask(pushed) == 1u16 << i);
    assert(button_mask(other) == 1u16 << j);
    let buttons = pad.buttons;
    assert((buttons | (1u16 << i)) & (1u16 << i) != 0) by (bit_vector)
        requires
            i < 10,
    ;
    assert(i != j ==> (buttons | (1u16 << i)) & (1u16 << j) == buttons & (1u16 << j))
        by (bit_vector)
        requires
            i < 10,
            j < 10,
    ;
}

/// Every direction has a bit of its own, as the buttons have.
pub proof fn law_directions_are_independent(
    pad: uni_gamepad_t,
    pushed: DpadDirection,
    other: DpadDirection,
)
    ensures
        ({
            let after = uni_gamepad_t { dpad: pad.dpad | dpad_mask(pushed), ..pad };
            &&& after.holds_dpad(pushed)
            &&& other != pushed ==> after.holds_dpad(other) == pad.holds_dpad(other)
        }),
{
    let i = dpad_index(pushed);
    let j = dpad_index(other);
    assert(1u8 << 0u8 == 1 && 1u8 << 1u8 == 2 && 1u8 << 2u8 == 4 && 1u8 << 3u8 == 8)
        by (bit_vector);
    assert(dpad_mask(pushed) == 1u8 << i);
    assert(dpad_mask(other) == 1u8 << j);
    let dpad = pad.dpad;
    assert((dpad | (1u8 << i)) & (1u8 << i) != 0) by (bit_vector)
        requires
            i < 4,
    ;
    assert(i != j ==> (dpad | (1u8 << i)) & (1u8 << j) == dpad & (1u8 << j)) by (bit_vector)
        requires
            i < 4,
            j < 4,
    ;
}

/// Each button is held exactly when its own bit is set: A is bit 0 of `buttons`, B bit 1, X
/// bit 2, Y bit 3, L1 bit 4, R1 bit 5, L2 bit 6, R2 bit 7, the left thumb bit 8 and the right
/// thumb bit 9; of `dpad` up is bit 0, down bit 1, right bit 2 and left bit 3.
pub proof fn law_each_button_is_its_own_bit(pad: uni_gamepad_t)
    ensures
        pad.holds(Button::Regular(RegularButton::A)) == (pad.buttons % 2 == 1),
        pad.holds(Button::Regular(RegularButton::B)) == (pad.buttons / 2 % 2 == 1),
        pad.holds(Button::Regular(RegularButton::X)) == (pad.buttons / 4 % 2 == 1),
        pad.holds(Button::Regular(RegularButton::Y)) == (pad.buttons / 8 % 2 == 1),
        pad.holds(Button::Regular(RegularButton::L1)) == (pad.buttons / 16 % 2 == 1),
        pad.holds(Button::Regular(RegularButton::R1)) == (pad.buttons / 32 % 2 == 1),
        pad.holds(Button::Regular(RegularButton::L2)) == (pad.buttons / 64 % 2 == 1),
        pad.holds(Button::Regular(RegularButton::R2)) == (pad.buttons / 128 % 2 == 1),
        pad.holds(Button::Regular(RegularButton::ThumbL)) == (pad.buttons / 256 % 2 == 1),
        pad.holds(Button::Regular(RegularButton::ThumbR)) == (pad.buttons / 512 % 2 == 1),
        pad.holds(Button::Dpad(DpadDirection::Up)) == (pad.dpad % 2 == 1),
        pad.holds(Button::Dpad(DpadDirection::Down)) == (pad.dpad / 2 % 2 == 1),
        pad.holds(Button::Dpad(DpadDirection::Right)) == (pad.dpad / 4 % 2 == 1),
        pad.holds(Button::Dpad(DpadDirection::Left)) == (pad.dpad / 8 % 2 == 1),
{
    let buttons = pad.buttons;
    let dpad = pad.dpad;
    assert(((buttons & 1 != 0) == (buttons % 2 == 1))
        && ((buttons & 2 != 0) == (buttons / 2 % 2 == 1))
        && ((buttons & 4 != 0) == (buttons / 4 % 2 == 1))
        && ((buttons & 8 != 0) == (buttons / 8 % 2 == 1))
        && ((buttons & 16 != 0) == (buttons / 16 % 2 == 1))
        && ((buttons & 32 != 0) == (buttons / 32 % 2 == 1))
        && ((buttons & 64 != 0) == (buttons / 64 % 2 == 1))
        && ((buttons & 128 != 0) == (buttons / 128 % 2 == 1))
        && ((buttons & 256 != 0) == (buttons / 256 % 2 == 1))
        && ((buttons & 512 != 0) == (buttons / 512 % 2 == 1))) by (bit_vector);
    assert(((dpad & 1 != 0) == (dpad % 2 == 1))
        && ((dpad & 2 != 0) == (dpad / 2 % 2 == 1))
        && ((dpad & 4 != 0) == (dpad / 4 % 2 == 1))
        && ((dpad & 8 != 0) == (dpad / 8 % 2 == 1))) by (bit_vector);
}

/// With its sticks at rest, a pad reports the names of what is held, with a space between two
/// of them: the directions up, down, left and right first, and then the buttons by their bits.
pub proof fn law_a_report_names_what_is_held(pad: uni_gamepad_t, report: Seq<char>)
    requires
        pad.axis_x == 0 && pad.axis_y == 0,
        pad.axis_rx == 0 && pad.axis_ry == 0,
        pad.throttle == 0 && pad.brake == 0,
        report == word(pad.dpad % 2 == 1, "UP "@)
            + word(pad.dpad / 2 % 2 == 1, "DOWN "@)
            + word(pad.dpad / 8 % 2 == 1, "LEFT "@)
            + word(pad.dpad / 4 % 2 == 1, "RIGHT "@)
            + word(pad.buttons % 2 == 1, "A "@)
            + word(pad.buttons / 2 % 2 == 1, "B "@)
            + word(pad.buttons / 4 % 2 == 1, "X "@)
            + word(pad.buttons / 8 % 2 == 1, "Y "@)
            + word(pad.buttons / 16 % 2 == 1, "L1 "@)
            + word(pad.buttons / 32 % 2 == 1, "R1 "@)
            + word(pad.buttons / 64 % 2 == 1, "L2 "@)
            + word(pad.buttons / 128 % 2 == 1, "R2 "@)
            + word(pad.buttons / 256 % 2 == 1, "L3 "@)
            + word(pad.buttons / 512 % 2 == 1, "R3 "@),
    ensures
        report.len() == 0 ==> pad.status_text() == report,
        report.len() > 0 ==> pad.status_text().push(' ') == report,
{
    law_each_button_is_its_own_bit(pad);
    assert(pad.all_names() == report);
    lemma_names_alone(pad);
}

/// A word is in its place where it is wanted, and leaves nothing where it is not.
pub proof fn law_a_word_is_there_or_not(piece: Seq<char>)
    ensures
        word(true, piece) == piece,
        word(false, piece) == Seq::<char>::empty(),
{
    reveal(word);
}

/// With the sticks at rest the line holds the names.
proof fn lemma_names_alone(pad: uni_gamepad_t)
    requires
        pad.axis_x == 0 && pad.axis_y == 0,
        pad.axis_rx == 0 && pad.axis_ry == 0,
        pad.throttle == 0 && pad.brake == 0,
    ensures
        pad.all_names().len() == 0 ==> pad.status_text() == pad.all_names(),
        pad.all_names().len() > 0 ==> pad.status_text().push(' ') == pad.all_names(),
{
    lemma_names_fit(pad);
    lemma_no_pairs(pad);
    law_a_report_that_fits_is_complete(pad);
    lemma_a_report_is_spaced(pad);
    let report = pad.all_names();
    if report.len() > 0 {
        assert(report.drop_last().push(' ') =~= report);
    }
}

/// Sticks at rest add nothing to a report.
proof fn lemma_no_pairs(pad: uni_gamepad_t)
    requires
        pad.axis_x == 0 && pad.axis_y == 0,
        pad.axis_rx == 0 && pad.axis_ry == 0,
        pad.throttle == 0 && pad.brake == 0,
    ensures
        pad.full_report() == pad.all_names(),
{
    reveal(pair_words);
    assert(pad.full_report() =~= pad.all_names());
}

/// With nothing held, a pad reports the sticks that are off centre: the left one as LX and LY,
/// the right one as RX and RY, and the throttle and the brake as RT and LT.
pub proof fn law_a_report_gives_both_axes_of_a_stick(
    pad: uni_gamepad_t,
    left: Seq<char>,
    right: Seq<char>,
    triggers: Seq<char>,
)
    requires
        pad.buttons == 0 && pad.dpad == 0,
        left == "| LX:"@ + line::int_text(pad.axis_x) + " LY:"@ + line::int_text(pad.axis_y),
        right == "| RX:"@ + line::int_text(pad.axis_rx) + " RY:"@ + line::int_text(pad.axis_ry),
        triggers == "| RT:"@ + line::int_text(pad.throttle) + " LT:"@ + line::int_text(pad.brake),
    ensures
        pad.status_text().push(' ') == (if pad.axis_x != 0 || pad.axis_y != 0 {
            left + " "@
        } else {
            Seq::empty()
        }) + (if pad.axis_rx != 0 || pad.axis_ry != 0 {
            right + " "@
        } else {
            Seq::empty()
        }) + (if pad.throttle != 0 || pad.brake != 0 {
            triggers + " "@
        } else {
            Seq::empty()
        }) || (pad.status_text().len() == 0 && pad.axis_x == 0 && pad.axis_y == 0 && pad.axis_rx
            == 0 && pad.axis_ry == 0 && pad.throttle == 0 && pad.brake == 0),
{
    lemma_no_names(pad);
    reveal_strlit("| LX:");
    reveal_strlit(" LY:");
    reveal_strlit("| RX:");
    reveal_strlit(" RY:");
    reveal_strlit("| RT:");
    reveal_strlit(" LT:");
    lemma_pair_length("| LX:"@, pad.axis_x, " LY:"@, pad.axis_y);
    lemma_pair_length("| RX:"@, pad.axis_rx, " RY:"@, pad.axis_ry);
    lemma_pair_length("| RT:"@, pad.throttle, " LT:"@, pad.brake);
    law_a_report_that_fits_is_complete(pad);
    lemma_a_report_is_spaced(pad);
    reveal(pair_words);
    let report = pad.full_report();
    let p1 = pair_words("| LX:"@, pad.axis_x, " LY:"@, pad.axis_y);
    let p2 = pair_words("| RX:"@, pad.axis_rx, " RY:"@, pad.axis_ry);
    let p3 = pair_words("| RT:"@, pad.throttle, " LT:"@, pad.brake);
    assert(report =~= p1 + p2 + p3);
    if report.len() > 0 {
        assert(report.drop_last().push(' ') =~= report);
    }
}

/// Nothing held adds nothing to a report.
proof fn lemma_no_names(pad: uni_gamepad_t)
    requires
        pad.buttons == 0 && pad.dpad == 0,
    ensures
        pad.all_names() == Seq::<char>::empty(),
{
    law_each_button_is_its_own_bit(pad);
    reveal(word);
    assert(pad.all_names() =~= Seq::empty());
}

/// A line is the beginning of the report: all of it where it fits, and otherwise as much as
/// fits, up to the piece that does not, which has at most ten characters.
pub proof fn law_a_line_is_the_beginning_of_the_report(pad: uni_gamepad_t)
    ensures
        pad.untrimmed_text().len() <= pad.full_report().len(),
        pad.untrimmed_text() == pad.full_report().take(pad.untrimmed_text().len() as int),
        pad.full_report().len() <= line::STATUS_CAPACITY ==> pad.untrimmed_text()
            == pad.full_report(),
        pad.full_report().len() > line::STATUS_CAPACITY ==> pad.untrimmed_text().len() + 10
            > line::STATUS_CAPACITY,
{
    lemma_sticks_fit(pad);
    let text = pad.all_names() + pair_words("| LX:"@, pad.axis_x, " LY:"@, pad.axis_y)
        + pair_words("| RX:"@, pad.axis_rx, " RY:"@, pad.axis_ry);
    let report = pad.full_report();
    reveal(with_pair);
    reveal(pair_words);
    let whole = text + pair_words("| RT:"@, pad.throttle, " LT:"@, pad.brake);
    assert(report =~= whole);
    if pad.throttle != 0 || pad.brake != 0 {
        reveal_strlit("| RT:");
        reveal_strlit(" LT:");
        reveal_strlit(" ");
        let w0 = line::Writing::start(text);
        assert(text.take(text.len() as int) =~= text);
        line::lemma_put_cuts(w0, text, "| RT:"@);
        let w1 = w0.put("| RT:"@);
        let t1 = text + "| RT:"@;
        line::lemma_put_int_cuts(w1, t1, pad.throttle);
        let w2 = w1.put_int(pad.throttle);
        let t2 = t1 + line::int_text(pad.throttle);
        line::lemma_put_cuts(w2, t2, " LT:"@);
        let w3 = w2.put(" LT:"@);
        let t3 = t2 + " LT:"@;
        line::lemma_put_int_cuts(w3, t3, pad.brake);
        let w4 = w3.put_int(pad.brake);
        let t4 = t3 + line::int_text(pad.brake);
        line::lemma_put_cuts(w4, t4, " "@);
        assert(t4 + " "@ =~= whole);
        let w5 = w4.put(" "@);
        assert(pad.untrimmed_text() == w5.text);
        law_the_status_fits_the_line(pad);
        if w5.ok {
            assert(whole.take(whole.len() as int) =~= whole);
        }
    } else {
        assert(whole =~= text);
        assert(text.take(text.len() as int) =~= text);
    }
}

/// In general a line names what is held, and then gives the sticks that are off centre and the
/// triggers that are pulled, as far as it fits.
pub proof fn law_a_line_names_what_is_held_before_the_sticks(
    pad: uni_gamepad_t,
    names: Seq<char>,
    left: Seq<char>,
    right: Seq<char>,
    triggers: Seq<char>,
)
    requires
        names == word(pad.dpad % 2 == 1, "UP "@)
            + word(pad.dpad / 2 % 2 == 1, "DOWN "@)
            + word(pad.dpad / 8 % 2 == 1, "LEFT "@)
            + word(pad.dpad / 4 % 2 == 1, "RIGHT "@)
            + word(pad.buttons % 2 == 1, "A "@)
            + word(pad.buttons / 2 % 2 == 1, "B "@)
            + word(pad.buttons / 4 % 2 == 1, "X "@)
            + word(pad.buttons / 8 % 2 == 1, "Y "@)
            + word(pad.buttons / 16 % 2 == 1, "L1 "@)
            + word(pad.buttons / 32 % 2 == 1, "R1 "@)
            + word(pad.buttons / 64 % 2 == 1, "L2 "@)
            + word(pad.buttons / 128 % 2 == 1, "R2 "@)
            + word(pad.buttons / 256 % 2 == 1, "L3 "@)
            + word(pad.buttons / 512 % 2 == 1, "R3 "@),
        left == word(
            pad.axis_x != 0 || pad.axis_y != 0,
            "| LX:"@ + line::int_text(pad.axis_x) + " LY:"@ + line::int_text(pad.axis_y) + " "@,
        ),
        right == word(
            pad.axis_rx != 0 || pad.axis_ry != 0,
            "| RX:"@ + line::int_text(pad.axis_rx) + " RY:"@ + line::int_text(pad.axis_ry) + " "@,
        ),
        triggers == word(
            pad.throttle != 0 || pad.brake != 0,
            "| RT:"@ + line::int_text(pad.throttle) + " LT:"@ + line::int_text(pad.brake) + " "@,
        ),
    ensures
        is_line_of(pad.untrimmed_text(), names + left + right + triggers),
{
    law_each_button_is_its_own_bit(pad);
    lemma_pair_is_a_word("| LX:"@, pad.axis_x, " LY:"@, pad.axis_y);
    lemma_pair_is_a_word("| RX:"@, pad.axis_rx, " RY:"@, pad.axis_ry);
    lemma_pair_is_a_word("| RT:"@, pad.throttle, " LT:"@, pad.brake);
    lemma_line_of_the_report(pad);
}

/// Whether a text is the line of a report: all of it where it has up to 128 characters, and
/// otherwise its first 119 characters or more.
#[verifier::opaque]
pub open spec fn is_line_of(text: Seq<char>, report: Seq<char>) -> bool {
    &&& text.len() <= report.len()
    &&& text == report.take(text.len() as int)
    &&& report.len() <= 128 ==> text == report
    &&& report.len() > 128 ==> 119 <= text.len() <= 128
}

proof fn lemma_line_of_the_report(pad: uni_gamepad_t)
    ensures
        is_line_of(pad.untrimmed_text(), pad.full_report()),
{
    reveal(is_line_of);
    law_a_line_is_the_beginning_of_the_report(pad);
    law_the_status_fits_the_line(pad);
}

proof fn lemma_pair_is_a_word(
    first_label: Seq<char>,
    first: i32,
    second_label: Seq<char>,
    second: i32,
)
    ensures
        pair_words(first_label, first, second_label, second) == word(
            first != 0 || second != 0,
            first_label + line::int_text(first) + second_label + line::int_text(second) + " "@,
        ),
{
    reveal(pair_words);
    reveal(word);
}

} // verus!
