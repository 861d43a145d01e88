//! The servo loop: homing, and one-degree sweeps from the current angle to the commanded one.
use vstd::prelude::*;

use crate::motor::duty_from_angle;
use crate::motor::ServoCmd;
use crate::motor::Speed;

verus! {

broadcast use vstd::seq_lib::group_seq_properties;

// ---------------------------------------------------------------------------
// The angles of a sweep
// ---------------------------------------------------------------------------

/// `num::iter::RangeStep`, the iterator that yields the angles of a sweep one by one.
#[verifier::external_type_specification]
#[verifier::external_body]
#[verifier::reject_recursive_types(A)]
pub struct ExRangeStep<A>(num::iter::RangeStep<A>);

/// The values that a `RangeStep` has still to yield.
pub uninterp spec fn remaining(range: num::iter::RangeStep<i32>) -> Seq<i32>;

/// How many values lie in `[start, stop)` when walked by `step`.
pub open spec fn steps_between(start: int, stop: int, step: int) -> nat {
    if step > 0 && start < stop {
        ((stop - start + step - 1) / step) as nat
    } else if step < 0 && start > stop {
        ((start - stop - step - 1) / -step) as nat
    } else {
        0
    }
}

/// `num::range_step`: the range `[start, stop)` by `step`, which walks down where `step` is
/// negative. The contract claims that it yields `start`, `start + step` and so on, as long as
/// `stop` is not reached. With a `step` of zero it may never end.
#[verifier::external_body]
fn range_step(start: i32, stop: i32, step: i32) -> (range: num::iter::RangeStep<i32>)
    requires
        step != 0,
    ensures
        remaining(range) == Seq::new(
            steps_between(start as int, stop as int, step as int),
            |i: int| (start + i * step) as i32,
        ),
{
    num::range_step(start, stop, step)
}

/// `Iterator::next` of `num::iter::RangeStep`: the contract claims that it takes the first of
/// the values still to come, and changes nothing when there is none.
#[verifier::external_body]
fn next_angle(range: &mut num::iter::RangeStep<i32>) -> (angle: Option<i32>)
    ensures
        remaining(*old(range)).len() == 0 ==> angle is None && remaining(*final(range))
            == remaining(*old(range)),
        remaining(*old(range)).len() > 0 ==> angle == Some(remaining(*old(range))[0])
            && remaining(*final(range)) == remaining(*old(range)).drop_first(),
{
    range.next()
}

// ---------------------------------------------------------------------------
// The model
// ---------------------------------------------------------------------------

/// How long to wait after a servo was moved.
#[derive(Clone, Copy)]
pub enum Pause {
    Skip,
    Millis(u64),
    For(embassy_time::Duration),
}

/// What happened to a servo since its last action.
pub enum ServoEvent {
    /// The loop starts.
    Start,
    /// The home position was set and the settling time is over.
    Homed,
    /// A command came in.
    Command(ServoCmd),
    /// The last move was made and its pause is over.
    Moved,
}

/// What to do next with a servo.
pub enum ServoAction {
    /// With the motion lock held: set `duty` and wait `settle_millis`.
    Home { duty: u16, settle_millis: u64 },
    /// Set `duty`, then pause.
    Move { duty: u16, pause: Pause },
    /// Wait for the next command.
    Receive,
}

/// The time a servo is given to reach its first position.
pub const SETTLE_MILLIS: u64 = 500;

/// A servo as the laws speak of it.
pub struct ServoModel {
    /// The angle the last finished command led to.
    pub angle: i32,
    /// The angle the last command asked for.
    pub target_angle: i32,
    pub speed: Speed,
    /// The PWM period of the pin when the last command came in.
    pub period: u16,
    /// The angles the running sweep has still to set.
    pub pending: Seq<i32>,
}

/// The angles of a sweep: one degree at a time, from `from` up to but without `to`.
pub open spec fn sweep(from: int, to: int) -> Seq<i32> {
    if from <= to {
        Seq::new((to - from) as nat, |i: int| (from + i) as i32)
    } else {
        Seq::new((from - to) as nat, |i: int| (from - i) as i32)
    }
}

/// `angle`, brought into the range of the servo.
pub open spec fn clamped(angle: i32) -> int {
    if angle < 0 {
        0
    } else if angle > 180 {
        180
    } else {
        angle as int
    }
}

/// The duty for any angle: the angle is clamped to the range of the servo first.
pub open spec fn servo_duty(angle: i32, period: u16) -> u16 {
    crate::motor::duty_at(clamped(angle), period as int) as u16
}

/// The pause that goes with a speed.
pub open spec fn pause_of(speed: Speed) -> Pause {
    match speed {
        Speed::Slow => Pause::Millis(15),
        Speed::Normal => Pause::Millis(10),
        Speed::Fast => Pause::Millis(5),
        Speed::Instant => Pause::Skip,
        Speed::Custom(time) => Pause::For(time),
    }
}

impl ServoModel {
    /// The angle a command asks for.
    pub open spec fn target_after(self, cmd: ServoCmd) -> i32 {
        match cmd {
            ServoCmd::TurnToAngle(angle) => angle,
            ServoCmd::SetSpeed(_) => self.target_angle,
        }
    }

    /// The speed after a command.
    pub open spec fn speed_after(self, cmd: ServoCmd) -> Speed {
        match cmd {
            ServoCmd::TurnToAngle(_) => self.speed,
            ServoCmd::SetSpeed(speed) => speed,
        }
    }

    /// Takes the next angle of the running sweep, or ends the sweep.
    pub open spec fn advanced(self) -> (ServoModel, ServoAction) {
        if self.pending.len() == 0 {
            (ServoModel { angle: self.target_angle, ..self }, ServoAction::Receive)
        } else {
            (
                ServoModel { pending: self.pending.drop_first(), ..self },
                ServoAction::Move {
                    duty: servo_duty(self.pending[0], self.period),
                    pause: pause_of(self.speed),
                },
            )
        }
    }

    /// The servo after an event, and what to do next; `period` is the PWM period of the pin. A
    /// sweep keeps to the period it began with.
    pub open spec fn next(self, event: ServoEvent, period: u16) -> (ServoModel, ServoAction) {
        match event {
            ServoEvent::Start => (
                ServoModel { period, ..self },
                ServoAction::Home {
                    duty: servo_duty(self.angle, period),
                    settle_millis: SETTLE_MILLIS,
                },
            ),
            ServoEvent::Homed => (self, ServoAction::Receive),
            ServoEvent::Command(cmd) => {
                let target_angle = self.target_after(cmd);
                ServoModel {
                    angle: self.angle,
                    target_angle,
                    speed: self.speed_after(cmd),
                    period,
                    pending: sweep(self.angle as int, target_angle as int),
                }.advanced()
            },
            ServoEvent::Moved => self.advanced(),
        }
    }

    /// The servo after `count` moves of the running sweep were made.
    pub open spec fn after_moves(self, count: nat) -> ServoModel
        decreases count,
    {
        if count == 0 {
            self
        } else {
            self.after_moves((count - 1) as nat).next(ServoEvent::Moved, self.period).0
        }
    }
}

// ---------------------------------------------------------------------------
// The executable loop
// ---------------------------------------------------------------------------

/// The state of a servo loop.
pub struct ServoState {
    initial_angle: i32,
    target_angle: i32,
    speed: Speed,
    period: u16,
    range: num::iter::RangeStep<i32>,
}

impl View for ServoState {
    type V = ServoModel;

    closed spec fn view(&self) -> ServoModel {
        ServoModel {
            angle: self.initial_angle,
            target_angle: self.target_angle,
            speed: self.speed,
            period: self.period,
            pending: remaining(self.range),
        }
    }
}

impl Speed {
    /// The pause between two neighbouring angles of a sweep.
    pub fn pause(self) -> (pause: Pause)
        ensures
            pause == pause_of(self),
    {
        match self {
            Speed::Slow => Pause::Millis(15),
            Speed::Normal => Pause::Millis(10),
            Speed::Fast => Pause::Millis(5),
            Speed::Instant => Pause::Skip,
            Speed::Custom(time) => Pause::For(time),
        }
    }
}

/// The duty that turns a servo to `angle`, clamped to 0 to 180 degrees.
pub fn angle_duty(angle: i32, period: u16) -> (duty: u16)
    ensures
        duty == servo_duty(angle, period),
{
    let deg: u32 = if angle < 0 {
        0
    } else if angle > 180 {
        180
    } else {
        angle as u32
    };
    proof {
        let gap = crate::motor::max_duty(period as int) - crate::motor::min_duty(period as int);
        assert(deg * gap <= 180 * gap) by (nonlinear_arith)
            requires
                0 <= deg <= 180,
                0 <= gap,
        ;
        crate::motor::law_duty_is_within_the_pulse_range(deg as int, period as int);
    }
    duty_from_angle(deg, period as u32)
}

impl ServoState {
    /// A servo that starts at `initial_angle`, with no command yet.
    pub fn new(initial_angle: i32, speed: Speed) -> (state: Self)
        ensures
            state@ == (ServoModel {
                angle: initial_angle,
                target_angle: initial_angle,
                speed,
                period: 0,
                pending: Seq::empty(),
            }),
    {
        let range = range_step(initial_angle, initial_angle, 1);
        assert(remaining(range) =~= Seq::empty());
        ServoState { initial_angle, target_angle: initial_angle, speed, period: 0, range }
    }

    /// The angle the last finished command led to.
    pub fn angle(&self) -> (angle: i32)
        ensures
            angle == self@.angle,
    {
        self.initial_angle
    }

    /// The angle that `cmd` asks for.
    pub fn target_of(&self, cmd: &ServoCmd) -> (target: i32)
        ensures
            target == self@.target_after(*cmd),
    {
        match cmd {
            ServoCmd::TurnToAngle(angle) => *angle,
            ServoCmd::SetSpeed(_) => self.target_angle,
        }
    }

    /// Takes the next angle of the running sweep, or ends the sweep.
    fn advance(&mut self) -> (action: ServoAction)
        ensures
            (final(self)@, action) == old(self)@.advanced(),
    {
        match next_angle(&mut self.range) {
            Some(angle) => {
                ServoAction::Move {
                    duty: angle_duty(angle, self.period),
                    pause: self.speed.pause(),
                }
            },
            None => {
                self.initial_angle = self.target_angle;
                ServoAction::Receive
            },
        }
    }
}

/// One round of the servo loop: takes in an event and the PWM period of the pin, and says what
/// to do next. A command whose target is the current angle moves nothing; any other starts a
/// sweep towards it. The distance to the target must fit an `i32`.
pub fn servo_motor_loop(
    state: &mut ServoState,
    event: ServoEvent,
    period: u16,
) -> (action: ServoAction)
    requires
        event matches ServoEvent::Command(cmd) ==> i32::MIN <= old(state)@.target_after(cmd)
            - old(state)@.angle <= i32::MAX,
    ensures
        (final(state)@, action) == old(state)@.next(event, period),
{
    match event {
        ServoEvent::Start => {
            state.period = period;
            ServoAction::Home {
                duty: angle_duty(state.initial_angle, period),
                settle_millis: SETTLE_MILLIS,
            }
        },
        ServoEvent::Homed => ServoAction::Receive,
        ServoEvent::Command(cmd) => {
            match cmd {
                ServoCmd::TurnToAngle(new_angle) => {
                    state.target_angle = new_angle;
                },
                ServoCmd::SetSpeed(new_speed) => {
                    state.speed = new_speed;
                },
            }
            state.period = period;
            let diff: i32 = state.target_angle - state.initial_angle;
            let step: i32 = if diff < 0 {
                -1
            } else {
                1
            };
            state.range = range_step(state.initial_angle, state.target_angle, step);
            assert(remaining(state.range) =~= sweep(
                state.initial_angle as int,
                state.target_angle as int,
            ));
            state.advance()
        },
        ServoEvent::Moved => state.advance(),
    }
}

// ---------------------------------------------------------------------------
// Laws
// ---------------------------------------------------------------------------

/// The moves of a running sweep take its angles in order, one each, and change nothing else
/// until the sweep has ended.
pub proof fn law_moves_follow_the_sweep(servo: ServoModel, count: nat, period: u16)
    requires
        count <= servo.pending.len(),
    ensures
        servo.after_moves(count) == (ServoModel { pending: servo.pending.skip(count as int), ..servo }),
        count < servo.pending.len() ==> servo.after_moves(count).next(ServoEvent::Moved, period).1
            == (ServoAction::Move {
            duty: servo_duty(servo.pending[count as int], servo.period),
            pause: pause_of(servo.speed),
        }),
        count == servo.pending.len() ==> servo.after_moves(count).next(ServoEvent::Moved, period).1
            == ServoAction::Receive,
    decreases count,
{
    if count == 0 {
        assert(servo.pending.skip(0) =~= servo.pending);
    } else {
        law_moves_follow_the_sweep(servo, (count - 1) as nat, servo.period);
        assert(servo.pending.skip(count - 1).drop_first() =~= servo.pending.skip(count as int));
    }
}

/// A command to turn takes as many moves as there are degrees between the two angles. The move
/// number `i` sets the angle `i` degrees from the start, so neighbouring moves are one degree
/// apart and the last one sets the angle one degree short of the target. Then the servo counts
/// as standing at the target and asks for the next command.
pub proof fn law_turning_ends_at_the_target(servo: ServoModel, target: i32, period: u16)
    requires
        target != servo.angle,
    ensures
        ({
            let (moving, first) = servo.next(
                ServoEvent::Command(ServoCmd::TurnToAngle(target)),
                period,
            );
            let angles = sweep(servo.angle as int, target as int);
            let (done, last) = moving.after_moves((angles.len() - 1) as nat).next(
                ServoEvent::Moved,
                period,
            );
            &&& first == (ServoAction::Move {
                duty: servo_duty(servo.angle, period),
                pause: pause_of(servo.speed),
            })
            &&& forall|i: nat|
                #![trigger moving.after_moves(i)]
                i + 1 < angles.len() ==> moving.after_moves(i).next(ServoEvent::Moved, period).1 == (
                ServoAction::Move {
                    duty: servo_duty(angles[i as int + 1], period),
                    pause: pause_of(servo.speed),
                })
            &&& last == ServoAction::Receive
            &&& done.angle == target
            &&& done.target_angle == target
            &&& done.speed == servo.speed
            &&& done.pending.len() == 0
        }),
        forall|i: int|
            0 <= i < sweep(servo.angle as int, target as int).len() - 1 ==> {
                let here = #[trigger] sweep(servo.angle as int, target as int)[i];
                let next = sweep(servo.angle as int, target as int)[i + 1];
                next - here == 1 || here - next == 1
            },
{
    let (moving, first) = servo.next(
        ServoEvent::Command(ServoCmd::TurnToAngle(target)),
        period,
    );
    let angles = sweep(servo.angle as int, target as int);
    assert(moving.pending =~= angles.drop_first());
    law_moves_follow_the_sweep(moving, (angles.len() - 1) as nat, period);
    assert forall|i: nat| #![trigger moving.after_moves(i)] i + 1 < angles.len() implies {
        moving.after_moves(i).next(ServoEvent::Moved, period).1 == (ServoAction::Move {
            duty: servo_duty(angles[i as int + 1], period),
            pause: pause_of(servo.speed),
        })
    } by {
        law_moves_follow_the_sweep(moving, i, period);
    }
}

/// A command to the angle the servo already stands at moves nothing.
pub proof fn law_turning_to_the_current_angle_moves_nothing(servo: ServoModel, period: u16)
    ensures
        servo.next(ServoEvent::Command(ServoCmd::TurnToAngle(servo.angle)), period) == (
            ServoModel {
                target_angle: servo.angle,
                period,
                pending: Seq::empty(),
                ..servo
            },
            ServoAction::Receive,
        ),
{
    assert(sweep(servo.angle as int, servo.angle as int) =~= Seq::empty());
}

/// Between commands a change of speed moves nothing: only later sweeps use it.
pub proof fn law_a_change_of_speed_moves_nothing(servo: ServoModel, speed: Speed, period: u16)
    requires
        servo.angle == servo.target_angle,
    ensures
        servo.next(ServoEvent::Command(ServoCmd::SetSpeed(speed)), period) == (
            ServoModel { speed, period, pending: Seq::empty(), ..servo },
            ServoAction::Receive,
        ),
{
    assert(sweep(servo.angle as int, servo.angle as int) =~= Seq::empty());
}

/// Whatever the angle, the duty stays between 2.5% and 12.5% of the period.
pub proof fn law_servo_duty_is_a_valid_pulse(angle: i32, period: u16)
    ensures
        crate::motor::min_duty(period as int) <= servo_duty(angle, period)
            <= crate::motor::max_duty(period as int),
{
    crate::motor::law_duty_is_within_the_pulse_range(clamped(angle), period as int);
}

/// The degrees between two angles.
pub open spec fn degrees(from: i32, to: i32) -> int {
    if from < to {
        to - from
    } else {
        from - to
    }
}

/// A turn from one angle to another takes one move for every degree between them, and no more.
/// The first move sets the angle the servo leaves, each move after it goes one degree towards
/// the target, and the last one ends one degree short of it. Then the servo counts as standing
/// at the target and asks for the next command. It does so whatever periods are told on the way.
pub proof fn law_a_turn_makes_a_move_for_every_degree(
    servo: ServoModel,
    target: i32,
    period: u16,
    states: Seq<ServoModel>,
    actions: Seq<ServoAction>,
    periods: Seq<u16>,
)
    requires
        actions.len() == degrees(servo.angle, target) + 1,
        states.len() == actions.len(),
        periods.len() == actions.len(),
        (states[0], actions[0]) == servo.next(
            ServoEvent::Command(ServoCmd::TurnToAngle(target)),
            period,
        ),
        forall|i: int|
            0 < i < actions.len() ==> (states[i], #[trigger] actions[i]) == states[i - 1].next(
                ServoEvent::Moved,
                periods[i],
            ),
    ensures
        target > servo.angle ==> actions.len() == target - servo.angle + 1,
        target < servo.angle ==> actions.len() == servo.angle - target + 1,
        target > servo.angle ==> forall|i: int|
            0 <= i < target - servo.angle ==> #[trigger] actions[i] == (ServoAction::Move {
                duty: servo_duty((servo.angle + i) as i32, period),
                pause: pause_of(servo.speed),
            }),
        target < servo.angle ==> forall|i: int|
            0 <= i < servo.angle - target ==> #[trigger] actions[i] == (ServoAction::Move {
                duty: servo_duty((servo.angle - i) as i32, period),
                pause: pause_of(servo.speed),
            }),
        target > servo.angle ==> actions[target - servo.angle - 1] == (ServoAction::Move {
            duty: servo_duty((target - 1) as i32, period),
            pause: pause_of(servo.speed),
        }),
        target < servo.angle ==> actions[servo.angle - target - 1] == (ServoAction::Move {
            duty: servo_duty((target + 1) as i32, period),
            pause: pause_of(servo.speed),
        }),
        actions.last() is Receive,
        states.last().angle == target,
        states.last().target_angle == target,
        states.last().speed == servo.speed,
        forall|i: int| 0 <= i < states.len() - 1 ==> (#[trigger] states[i]).angle == servo.angle,
{
    let count = degrees(servo.angle, target);
    assert forall|i: int| 0 <= i < count implies #[trigger] actions[i] == (ServoAction::Move {
        duty: servo_duty(
            (if servo.angle < target {
                servo.angle + i
            } else {
                servo.angle - i
            }) as i32,
            period,
        ),
        pause: pause_of(servo.speed),
    }) by {
        lemma_turning(servo, target, period, states, actions, periods, i);
    }
    assert forall|i: int| 0 <= i < count implies (#[trigger] states[i]).angle == servo.angle by {
        lemma_turning(servo, target, period, states, actions, periods, i);
    }
    if count > 0 {
        lemma_turning(servo, target, period, states, actions, periods, count - 1);
        assert((states[count], actions[count]) == states[count - 1].next(
            ServoEvent::Moved,
            periods[count],
        ));
    } else {
        assert(sweep(servo.angle as int, target as int) =~= Seq::empty());
    }
}

/// The servo in the middle of a turn.
proof fn lemma_turning(
    servo: ServoModel,
    target: i32,
    period: u16,
    states: Seq<ServoModel>,
    actions: Seq<ServoAction>,
    periods: Seq<u16>,
    i: int,
)
    requires
        actions.len() == degrees(servo.angle, target) + 1,
        states.len() == actions.len(),
        periods.len() == actions.len(),
        (states[0], actions[0]) == servo.next(
            ServoEvent::Command(ServoCmd::TurnToAngle(target)),
            period,
        ),
        forall|i: int|
            0 < i < actions.len() ==> (states[i], #[trigger] actions[i]) == states[i - 1].next(
                ServoEvent::Moved,
                periods[i],
            ),
        0 <= i < degrees(servo.angle, target),
    ensures
        states[i] == (ServoModel {
            angle: servo.angle,
            target_angle: target,
            speed: servo.speed,
            period,
            pending: sweep(servo.angle as int, target as int).skip(i + 1),
        }),
        actions[i] == (ServoAction::Move {
            duty: servo_duty(
                (if servo.angle < target {
                    servo.angle + i
                } else {
                    servo.angle - i
                }) as i32,
                period,
            ),
            pause: pause_of(servo.speed),
        }),
    decreases i,
{
    let angles = sweep(servo.angle as int, target as int);
    if i == 0 {
        assert(angles.drop_first() =~= angles.skip(1));
    } else {
        lemma_turning(servo, target, period, states, actions, periods, i - 1);
        assert((states[i], actions[i]) == states[i - 1].next(ServoEvent::Moved, periods[i]));
        assert(angles.skip(i).drop_first() =~= angles.skip(i + 1));
        assert(angles.skip(i)[0] == angles[i]);
    }
}

/// The duty of an angle within the range of a servo lies on the line between a fortieth and an
/// eighth of the period; outside of the range it is that of the nearer end.
pub proof fn law_servo_duty_follows_the_angle(
    angle: i32,
    period: u16,
    shortest: int,
    longest: int,
)
    requires
        40 * shortest <= period < 40 * (shortest + 1),
        8 * longest <= period < 8 * (longest + 1),
    ensures
        angle <= 0 ==> servo_duty(angle, period) == shortest,
        angle >= 180 ==> servo_duty(angle, period) == longest,
        0 <= angle <= 180 ==> 180 * (servo_duty(angle, period) - shortest) <= angle * (longest
            - shortest) < 180 * (servo_duty(angle, period) - shortest + 1),
{
    crate::motor::law_duty_lies_on_the_line_between_the_ends(
        clamped(angle),
        period as int,
        shortest,
        longest,
    );
    crate::motor::law_duty_is_within_the_pulse_range(clamped(angle), period as int);
}

/// A slow servo waits 15 ms after each move, a normal one 10 ms and a fast one 5 ms; an instant
/// one does not wait, and any other waits for as long as it was told.
pub proof fn law_a_speed_is_a_pause(time: embassy_time::Duration)
    ensures
        pause_of(Speed::Slow) == Pause::Millis(15),
        pause_of(Speed::Normal) == Pause::Millis(10),
        pause_of(Speed::Fast) == Pause::Millis(5),
        pause_of(Speed::Instant) is Skip,
        pause_of(Speed::Custom(time)) == Pause::For(time),
{
}

/// A servo sets the duty of its initial angle first, and waits for half a second; it then takes
/// commands. Neither changes where it stands or is to go, or how fast.
pub proof fn law_a_servo_goes_home_first(servo: ServoModel, period: u16)
    ensures
        servo.next(ServoEvent::Start, period).1 == (ServoAction::Home {
            duty: servo_duty(servo.angle, period),
            settle_millis: 500,
        }),
        servo.next(ServoEvent::Start, period).0 == (ServoModel { period, ..servo }),
        servo.next(ServoEvent::Homed, period) == (servo, ServoAction::Receive),
{
}

/// A change of speed counts for every move after it: a turn pauses as the last speed says.
pub proof fn law_the_last_speed_counts(servo: ServoModel, speed: Speed, target: i32, period: u16)
    requires
        servo.angle == servo.target_angle,
        target != servo.angle,
    ensures
        ({
            let (faster, _) = servo.next(ServoEvent::Command(ServoCmd::SetSpeed(speed)), period);
            let (_, first) = faster.next(
                ServoEvent::Command(ServoCmd::TurnToAngle(target)),
                period,
            );
            first == (ServoAction::Move {
                duty: servo_duty(servo.angle, period),
                pause: pause_of(speed),
            })
        }),
{
    assert(sweep(servo.angle as int, servo.angle as int) =~= Seq::empty());
}

/// A command to turn asks for its angle, whatever it is, and keeps the speed; a command to set
/// the speed asks for the speed and keeps the target.
pub proof fn law_a_command_asks_for_what_it_names(servo: ServoModel, angle: i32, speed: Speed)
    ensures
        servo.target_after(ServoCmd::TurnToAngle(angle)) == angle,
        servo.speed_after(ServoCmd::TurnToAngle(angle)) == servo.speed,
        servo.target_after(ServoCmd::SetSpeed(speed)) == servo.target_angle,
        servo.speed_after(ServoCmd::SetSpeed(speed)) == speed,
{
}

/// Setting the speed of a servo is turning it, at that speed, to the target it already has.
pub proof fn law_setting_the_speed_is_turning_to_the_same_target(
    servo: ServoModel,
    speed: Speed,
    period: u16,
)
    ensures
        servo.next(ServoEvent::Command(ServoCmd::SetSpeed(speed)), period) == (ServoModel {
            speed,
            ..servo
        }).next(ServoEvent::Command(ServoCmd::TurnToAngle(servo.target_angle)), period),
{
}

/// A turn and the turn back set the same angles but for the two ends: the way there starts at
/// the angle it leaves, and the way back at the target.
pub proof fn law_a_turn_back_sets_the_same_angles(from: i32, to: i32, i: int)
    requires
        from < to,
        0 < i < to - from,
    ensures
        sweep(from as int, to as int).len() == to - from,
        sweep(to as int, from as int).len() == to - from,
        sweep(from as int, to as int)[0] == from,
        sweep(to as int, from as int)[0] == to,
        sweep(from as int, to as int)[i] == sweep(to as int, from as int)[to - from - i],
{
}

} // verus!
