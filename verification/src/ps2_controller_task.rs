//! Watching the PS2 controller: what it reports, and the edges of its buttons.
use vstd::prelude::*;

use crate::gpio::Level;
use crate::ps2::bus;
use crate::ps2::held;
use crate::ps2::is_held;
use crate::ps2::law_buttons_are_listed_in_the_order_of_their_bits;
use crate::ps2::law_every_button_is_listed_once;
use crate::ps2::response_is_analog;
use crate::ps2::Button;
use crate::ps2::Ps2Controller;
use crate::web::Status;

verus! {

// ---------------------------------------------------------------------------
// Edges
// ---------------------------------------------------------------------------

/// Turns the level of a button into edges.
#[derive(Clone, Copy, Debug, PartialEq, Eq, Structural)]
pub struct ButtonLogic {
    pub pressed: bool,
}

/// What a change to `is_pressed` is called.
pub open spec fn edge(is_pressed: bool) -> Status {
    if is_pressed {
        Status::Pressed
    } else {
        Status::Released
    }
}

impl ButtonLogic {
    /// A button that is not pressed.
    pub fn new() -> (logic: ButtonLogic)
        ensures
            !logic.pressed,
    {
        ButtonLogic { pressed: false }
    }

    /// What to report after a look at the button: something only if its state changed.
    pub open spec fn report(self, is_pressed: bool) -> Option<Status> {
        if is_pressed != self.pressed {
            Some(edge(is_pressed))
        } else {
            None
        }
    }

    /// Notes whether the button is pressed. Returns something only if that changed.
    pub fn update(&mut self, is_pressed: bool) -> (change: Option<Status>)
        ensures
            final(self).pressed == is_pressed,
            change == old(self).report(is_pressed),
    {
        if is_pressed != self.pressed {
            self.pressed = is_pressed;
            Some(
                if is_pressed {
                    Status::Pressed
                } else {
                    Status::Released
                },
            )
        } else {
            None
        }
    }

    /// Lets the button go. Returns something only if it was pressed.
    pub fn force_release(&mut self) -> (change: Option<Status>)
        ensures
            !final(self).pressed,
            change == (if old(self).pressed {
                Some(Status::Released)
            } else {
                None
            }),
    {
        if self.pressed {
            self.pressed = false;
            Some(Status::Released)
        } else {
            None
        }
    }
}

// ---------------------------------------------------------------------------
// Reports
// ---------------------------------------------------------------------------

/// Where a stick points.
#[derive(Clone, Copy, Debug, PartialEq, Eq, Structural)]
pub struct AnalogStick {
    pub x: u8,
    pub y: u8,
}

/// What the controller reports.
#[derive(Clone, Copy, Debug, PartialEq, Eq, Structural)]
pub struct Ps2GamepadStatus {
    pub left_analog_stick: AnalogStick,
    pub right_analog_stick: AnalogStick,
    pub raw_buttons: u16,
}

impl Default for AnalogStick {
    fn default() -> (stick: AnalogStick)
        ensures
            stick == (AnalogStick { x: 0, y: 0 }),
    {
        AnalogStick { x: 0, y: 0 }
    }
}

impl Default for Ps2GamepadStatus {
    /// Everything is zero. A zero bit is a held button, so every button is held.
    fn default() -> (status: Ps2GamepadStatus)
        ensures
            status == (Ps2GamepadStatus {
                left_analog_stick: AnalogStick { x: 0, y: 0 },
                right_analog_stick: AnalogStick { x: 0, y: 0 },
                raw_buttons: 0,
            }),
    {
        Ps2GamepadStatus {
            left_analog_stick: AnalogStick { x: 0, y: 0 },
            right_analog_stick: AnalogStick { x: 0, y: 0 },
            raw_buttons: 0,
        }
    }
}

/// The buttons that are held, among the given ones and in their order.
pub open spec fn held_among(raw_buttons: u16, buttons: Seq<Button>) -> Seq<Button> {
    buttons.filter(|button: Button| is_held(raw_buttons, button))
}

impl Ps2GamepadStatus {
    /// Whether a button is held.
    pub fn pressed(&self, button: Button) -> (pressed: bool)
        ensures
            pressed == is_held(self.raw_buttons, button),
    {
        held(self.raw_buttons, button)
    }

    /// Whether one of the buttons is held.
    pub fn any<const T: usize>(&self, buttons: [Button; T]) -> (any: bool)
        ensures
            any == exists|i: int|
                0 <= i < T && is_held(self.raw_buttons, #[trigger] buttons@[i]),
    {
        let mut i: usize = 0;
        while i < T
            invariant
                i <= T,
                forall|k: int|
                    0 <= k < i ==> !is_held(self.raw_buttons, #[trigger] buttons@[k]),
            decreases T - i,
        {
            if self.pressed(buttons[i]) {
                return true;
            }
            i += 1;
        }
        false
    }

    /// Whether all the buttons are held.
    pub fn all<const T: usize>(&self, buttons: [Button; T]) -> (all: bool)
        ensures
            all == forall|i: int|
                0 <= i < T ==> is_held(self.raw_buttons, #[trigger] buttons@[i]),
    {
        let mut i: usize = 0;
        while i < T
            invariant
                i <= T,
                forall|k: int|
                    0 <= k < i ==> is_held(self.raw_buttons, #[trigger] buttons@[k]),
            decreases T - i,
        {
            if !self.pressed(buttons[i]) {
                return false;
            }
            i += 1;
        }
        true
    }

    /// The held buttons, in the order of their bits, and nothing in the places behind them.
    pub fn active_buttons(&self) -> (active: [Option<Button>; 16])
        ensures
            held_among(self.raw_buttons, Button::ALL@).len() <= 16,
            forall|i: int|
                0 <= i < 16 ==> #[trigger] active@[i] == (if i < held_among(
                    self.raw_buttons,
                    Button::ALL@,
                ).len() {
                    Some(held_among(self.raw_buttons, Button::ALL@)[i])
                } else {
                    None
                }),
    {
        let buttons: [Button; 16] = Button::ALL;
        let mut active: [Option<Button>; 16] = [None; 16];
        let mut count: usize = 0;
        let mut i: usize = 0;
        assert(held_among(self.raw_buttons, buttons@.take(0)) =~= Seq::empty()) by {
            reveal(Seq::filter);
        }
        while i < 16
            invariant
                i <= 16,
                count <= i,
                count == held_among(self.raw_buttons, buttons@.take(i as int)).len(),
                forall|k: int|
                    0 <= k < 16 ==> #[trigger] active@[k] == (if k < count {
                        Some(held_among(self.raw_buttons, buttons@.take(i as int))[k])
                    } else {
                        None
                    }),
            decreases 16 - i,
        {
            proof {
                reveal(Seq::filter);
                assert(buttons@.take(i + 1).drop_last() =~= buttons@.take(i as int));
            }
            if self.pressed(buttons[i]) {
                active[count] = Some(buttons[i]);
                count += 1;
            }
            i += 1;
        }
        assert(buttons@.take(16) =~= buttons@);
        active
    }
}

// ---------------------------------------------------------------------------
// The task
// ---------------------------------------------------------------------------

/// How long to wait between two reads, in milliseconds.
pub const READ_MILLIS: u64 = 10;

/// What to do after a read, before waiting for the next one.
#[derive(Clone, Copy, Debug, PartialEq, Eq, Structural)]
pub enum TaskAction {
    /// Hand the status on.
    Publish(Ps2GamepadStatus),
    /// The controller is lost: lock it in analog mode again.
    Reconnect,
}

/// The status that a response stands for.
pub open spec fn status_of(response: Seq<u8>) -> Ps2GamepadStatus {
    Ps2GamepadStatus {
        left_analog_stick: AnalogStick { x: response[7], y: response[8] },
        right_analog_stick: AnalogStick { x: response[5], y: response[6] },
        raw_buttons: (256 * response[4] + response[3]) as u16,
    }
}

/// Takes over what was read from the controller, and says what to do with it.
pub fn ps2_controller_task(ps2: &mut Ps2Controller, samples: &Vec<Level>) -> (action: TaskAction)
    requires
        samples.len() == crate::ps2::READ_SAMPLES,
    ensures
        final(ps2).shows(bus::sampled_bytes(samples@, 0, 9)),
        action == (if response_is_analog(bus::sampled_bytes(samples@, 0, 9)) {
            TaskAction::Publish(status_of(bus::sampled_bytes(samples@, 0, 9)))
        } else {
            TaskAction::Reconnect
        }),
{
    if ps2.read_gamepad(samples) {
        let left_analog_stick = AnalogStick { x: ps2.analog_lx(), y: ps2.analog_ly() };
        let right_analog_stick = AnalogStick { x: ps2.analog_rx(), y: ps2.analog_ry() };
        TaskAction::Publish(
            Ps2GamepadStatus {
                left_analog_stick,
                right_analog_stick,
                raw_buttons: ps2.raw_buttons,
            },
        )
    } else {
        TaskAction::Reconnect
    }
}

// ---------------------------------------------------------------------------
// Laws
// ---------------------------------------------------------------------------

/// The button after several looks.
pub open spec fn after_looks(logic: ButtonLogic, looks: Seq<bool>) -> ButtonLogic {
    if looks.len() == 0 {
        logic
    } else {
        ButtonLogic { pressed: looks.last() }
    }
}

/// What is reported over several looks.
pub open spec fn reports(logic: ButtonLogic, looks: Seq<bool>) -> Seq<Status>
    decreases looks.len(),
{
    if looks.len() == 0 {
        Seq::empty()
    } else {
        let before = reports(logic, looks.drop_last());
        match after_looks(logic, looks.drop_last()).report(looks.last()) {
            Some(status) => before.push(status),
            None => before,
        }
    }
}

/// A button that starts released reports `Pressed` first, and `Released` and `Pressed` in turn
/// from there; it is pressed exactly when the last report was `Pressed`.
pub proof fn law_presses_and_releases_alternate(looks: Seq<bool>)
    ensures
        forall|i: int|
            0 <= i < reports(ButtonLogic { pressed: false }, looks).len() ==> #[trigger] reports(
                ButtonLogic { pressed: false },
                looks,
            )[i] == edge(i % 2 == 0),
        after_looks(ButtonLogic { pressed: false }, looks).pressed == (reports(
            ButtonLogic { pressed: false },
            looks,
        ).len() % 2 == 1),
    decreases looks.len(),
{
    if looks.len() > 0 {
        law_presses_and_releases_alternate(looks.drop_last());
    }
}

/// Looking again at a button that has not changed reports nothing.
pub proof fn law_a_second_look_reports_nothing(logic: ButtonLogic, is_pressed: bool)
    ensures
        after_looks(logic, seq![is_pressed]).report(is_pressed) is None,
{
}

proof fn lemma_held_among(raw_buttons: u16, buttons: Seq<Button>)
    requires
        buttons.no_duplicates(),
    ensures
        held_among(raw_buttons, buttons).no_duplicates(),
        forall|button: Button|
            #![trigger held_among(raw_buttons, buttons).contains(button)]
            held_among(raw_buttons, buttons).contains(button) <==> buttons.contains(button)
                && is_held(raw_buttons, button),
    decreases buttons.len(),
{
    reveal(Seq::filter);
    if buttons.len() > 0 {
        let rest = buttons.drop_last();
        lemma_held_among(raw_buttons, rest);
        let before = held_among(raw_buttons, rest);
        let after = held_among(raw_buttons, buttons);
        assert(rest.push(buttons.last()) =~= buttons);
        assert(!rest.contains(buttons.last()));
        assert(!before.contains(buttons.last()));
        assert forall|button: Button| #[trigger] after.contains(button) <==> buttons.contains(
            button,
        ) && is_held(raw_buttons, button) by {
            assert(buttons.contains(button) <==> rest.contains(button) || button
                == buttons.last());
            assert(before.contains(button) <==> rest.contains(button) && is_held(
                raw_buttons,
                button,
            ));
            if is_held(raw_buttons, buttons.last()) {
                assert(after == before.push(buttons.last()));
                assert(after.contains(button) <==> before.contains(button) || button
                    == buttons.last());
            }
        }
    }
}

/// The active buttons are exactly the held ones, each of them once.
pub proof fn law_active_buttons_are_the_held_ones(raw_buttons: u16, button: Button)
    ensures
        held_among(raw_buttons, Button::ALL@).contains(button) == is_held(raw_buttons, button),
        held_among(raw_buttons, Button::ALL@).no_duplicates(),
{
    law_every_button_is_listed_once(button);
    lemma_held_among(raw_buttons, Button::ALL@);
}

/// No button is active exactly when every bit is one.
pub proof fn law_a_controller_at_rest_has_no_active_button(raw_buttons: u16)
    ensures
        raw_buttons == 0xFFFF <==> held_among(raw_buttons, Button::ALL@).len() == 0,
{
    assert forall|button: Button| raw_buttons == 0xFFFF implies !#[trigger] is_held(
        raw_buttons,
        button,
    ) by {
        let mask = button.mask();
        assert(!0xFFFFu16 & mask == 0) by (bit_vector);
    }
    if raw_buttons == 0xFFFF && held_among(raw_buttons, Button::ALL@).len() > 0 {
        let first = held_among(raw_buttons, Button::ALL@)[0];
        law_active_buttons_are_the_held_ones(raw_buttons, first);
        assert(held_among(raw_buttons, Button::ALL@).contains(first));
    }
    if raw_buttons != 0xFFFF {
        assert(!raw_buttons & (1u16 << 0u16) != 0 || !raw_buttons & (1u16 << 1u16) != 0
            || !raw_buttons & (1u16 << 2u16) != 0 || !raw_buttons & (1u16 << 3u16) != 0
            || !raw_buttons & (1u16 << 4u16) != 0 || !raw_buttons & (1u16 << 5u16) != 0
            || !raw_buttons & (1u16 << 6u16) != 0 || !raw_buttons & (1u16 << 7u16) != 0
            || !raw_buttons & (1u16 << 8u16) != 0 || !raw_buttons & (1u16 << 9u16) != 0
            || !raw_buttons & (1u16 << 10u16) != 0 || !raw_buttons & (1u16 << 11u16) != 0
            || !raw_buttons & (1u16 << 12u16) != 0 || !raw_buttons & (1u16 << 13u16) != 0
            || !raw_buttons & (1u16 << 14u16) != 0 || !raw_buttons & (1u16 << 15u16) != 0)
            by (bit_vector)
            requires
                raw_buttons != 0xFFFF,
        ;
        let zero: u16 = choose|zero: u16| zero < 16 && !raw_buttons & (1u16 << zero) != 0;
        let button = Button::ALL@[zero as int];
        law_buttons_are_listed_in_the_order_of_their_bits(zero as int);
        law_active_buttons_are_the_held_ones(raw_buttons, button);
        assert(is_held(raw_buttons, button));
    }
}

/// A button that goes down reports that it was pressed, one that goes up that it was released,
/// and one that stays as it is reports nothing.
pub proof fn law_an_edge_is_named_by_its_direction()
    ensures
        (ButtonLogic { pressed: false }).report(true) == Some(Status::Pressed),
        (ButtonLogic { pressed: true }).report(false) == Some(Status::Released),
        (ButtonLogic { pressed: false }).report(false) is None,
        (ButtonLogic { pressed: true }).report(true) is None,
{
}

/// The status of a response carries its bytes unchanged, whatever they are: the sticks in the
/// bytes 5 to 8, and the buttons in the bytes 3 and 4.
pub proof fn law_a_status_carries_the_response(response: Seq<u8>)
    ensures
        status_of(response).left_analog_stick.x == response[7],
        status_of(response).left_analog_stick.y == response[8],
        status_of(response).right_analog_stick.x == response[5],
        status_of(response).right_analog_stick.y == response[6],
        status_of(response).raw_buttons % 256 == response[3],
        status_of(response).raw_buttons / 256 == response[4],
{
}

/// A status says of the sticks and the buttons what the controller shows.
pub proof fn law_a_status_says_what_the_controller_shows(ps2: Ps2Controller, response: Seq<u8>)
    requires
        ps2.shows(response),
    ensures
        status_of(response).left_analog_stick == (AnalogStick {
            x: ps2.analog_data@[0],
            y: ps2.analog_data@[1],
        }),
        status_of(response).right_analog_stick == (AnalogStick {
            x: ps2.analog_data@[2],
            y: ps2.analog_data@[3],
        }),
        status_of(response).raw_buttons == ps2.raw_buttons,
{
}

/// The active buttons come in the order of their bits.
pub proof fn law_active_buttons_come_in_the_order_of_their_bits(raw_buttons: u16, i: int, j: int)
    requires
        0 <= i < j < held_among(raw_buttons, Button::ALL@).len(),
    ensures
        held_among(raw_buttons, Button::ALL@)[i].mask() < held_among(raw_buttons, Button::ALL@)[j].mask(),
{
    assert forall|a: int, b: int| 0 <= a < b < 16 implies (#[trigger] Button::ALL@[a]).mask() < (
    #[trigger] Button::ALL@[b]).mask() by {}
    lemma_held_among_keeps_order(raw_buttons, Button::ALL@, i, j);
}

proof fn lemma_held_among_keeps_order(raw_buttons: u16, buttons: Seq<Button>, i: int, j: int)
    requires
        forall|a: int, b: int|
            0 <= a < b < buttons.len() ==> (#[trigger] buttons[a]).mask() < (
            #[trigger] buttons[b]).mask(),
        0 <= i < j < held_among(raw_buttons, buttons).len(),
    ensures
        held_among(raw_buttons, buttons)[i].mask() < held_among(raw_buttons, buttons)[j].mask(),
    decreases buttons.len(),
{
    reveal(Seq::filter);
    let rest = buttons.drop_last();
    let before = held_among(raw_buttons, rest);
    if j < before.len() {
        lemma_held_among_keeps_order(raw_buttons, rest, i, j);
    } else {
        assert(buttons.no_duplicates()) by {
            assert forall|a: int, b: int|
                0 <= a < buttons.len() && 0 <= b < buttons.len() && a != b implies buttons[a]
                != buttons[b] by {
                if a < b {
                    assert(buttons[a].mask() < buttons[b].mask());
                } else {
                    assert(buttons[b].mask() < buttons[a].mask());
                }
            }
        }
        lemma_held_among(raw_buttons, rest);
        assert(before.contains(before[i]));
        let at = choose|at: int| 0 <= at < rest.len() && rest[at] == before[i];
        assert(buttons[at].mask() < buttons[buttons.len() - 1].mask());
    }
}

} // verus!
