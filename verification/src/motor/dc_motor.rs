//! DC motors on the LED control peripheral. Motors with the same timer configuration share a
//! timer.
use vstd::prelude::*;

use crate::gpio::Level;
use crate::motor::ledc::idx_to_timer;
use crate::motor::ledc::Channel;
use crate::motor::ledc::Config;
use crate::motor::ledc::MotorList;
use crate::motor::ledc::MotorRoom;
use crate::motor::ledc::Number;
use crate::motor::share;

verus! {

// ---------------------------------------------------------------------------
// The motor
// ---------------------------------------------------------------------------

/// A DC motor behind an H-bridge: the PWM channel sets how hard it pulls, the pins which way.
#[derive(Clone, Copy, Debug, PartialEq, Eq, Structural)]
pub struct DCMotor {
    pub pina: Level,
    pub pinb: Level,
    pub pwm: Channel,
}

impl DCMotor {
    /// A motor at rest.
    pub fn new(pwm: Channel) -> (motor: Self)
        ensures
            motor == (DCMotor { pina: Level::Low, pinb: Level::Low, pwm }),
    {
        DCMotor { pina: Level::Low, pinb: Level::Low, pwm }
    }

    /// Whether the two sides of the bridge are never driven against each other.
    pub open spec fn is_safe(&self) -> bool {
        !(self.pina is High && self.pinb is High)
    }

    /// Sets how hard the motor pulls, in percent.
    pub fn set_duty_percent(&mut self, duty_percentage: u8)
        requires
            duty_percentage <= 100,
        ensures
            *final(self) == (DCMotor {
                pwm: Channel {
                    duty: (old(self).pwm.resolution.full() * duty_percentage / 100) as u32,
                    ..old(self).pwm
                },
                ..*old(self)
            }),
            final(self).pwm.duty == share(duty_percentage as int, old(self).pwm.resolution.full()),
    {
        self.pwm.set_duty(duty_percentage);
    }

    pub fn go_front(&mut self)
        ensures
            *final(self) == (DCMotor { pina: Level::High, pinb: Level::Low, ..*old(self) }),
            final(self).is_safe(),
    {
        self.pina = Level::High;
        self.pinb = Level::Low;
    }

    pub fn go_back(&mut self)
        ensures
            *final(self) == (DCMotor { pina: Level::Low, pinb: Level::High, ..*old(self) }),
            final(self).is_safe(),
    {
        self.pina = Level::Low;
        self.pinb = Level::High;
    }

    pub fn stop(&mut self)
        ensures
            *final(self) == (DCMotor { pina: Level::Low, pinb: Level::Low, ..*old(self) }),
            final(self).is_safe(),
    {
        self.pina = Level::Low;
        self.pinb = Level::Low;
    }
}

// ---------------------------------------------------------------------------
// Sharing timers
// ---------------------------------------------------------------------------

/// A timer slot: the configuration it was given, and the timer.
pub type Slot = Option<(Config, Number)>;

/// Whether two configurations can share a timer.
pub open spec fn can_share(x: Config, y: Config) -> bool {
    x.duty == y.duty && x.frequency == y.frequency
}

/// The configuration in a slot that is taken.
pub open spec fn config_of(slot: Slot) -> Config {
    let (config, _) = slot->0;
    config
}

/// The timer in a slot that is taken.
pub open spec fn timer_of(slot: Slot) -> Number {
    let (_, timer) = slot->0;
    timer
}

/// Whether the timer in `slot` serves `config`.
pub open spec fn serves(slot: Slot, config: Config) -> bool {
    slot is Some && can_share(config_of(slot), config)
}

/// Whether `at` is the first slot whose timer serves `config`.
pub open spec fn is_first_match(slots: Seq<Slot>, config: Config, at: int) -> bool {
    &&& 0 <= at < slots.len()
    &&& serves(slots[at], config)
    &&& forall|i: int| 0 <= i < at ==> !serves(#[trigger] slots[i], config)
}

/// Whether `at` is the first empty slot.
pub open spec fn is_first_free(slots: Seq<Slot>, at: int) -> bool {
    &&& 0 <= at < slots.len()
    &&& slots[at] is None
    &&& forall|i: int| 0 <= i < at ==> #[trigger] slots[i] is Some
}

/// Whether some timer serves `config`.
pub open spec fn has_match(slots: Seq<Slot>, config: Config) -> bool {
    exists|i: int| 0 <= i < slots.len() && serves(#[trigger] slots[i], config)
}

/// Whether some slot is empty.
pub open spec fn has_free(slots: Seq<Slot>) -> bool {
    exists|i: int| 0 <= i < slots.len() && #[trigger] slots[i] is None
}

/// Whether `config` gets `timer`, which leads from `slots` to `next`: the first timer that
/// serves it, or else the timer of the first empty slot, which is then taken.
pub open spec fn assigns(
    slots: Seq<Slot>,
    config: Config,
    timer: Number,
    next: Seq<Slot>,
) -> bool {
    if has_match(slots, config) {
        &&& next == slots
        &&& exists|at: int|
            #[trigger] is_first_match(slots, config, at) && timer == timer_of(slots[at])
    } else {
        exists|at: int|
            #[trigger] is_first_free(slots, at) && timer.index() == at && next == slots.update(
                at,
                Some((config, timer)),
            )
    }
}

/// The timer in a slot is the one at that position, and no two slots could share a timer.
pub open spec fn slots_wf(slots: Seq<Slot>) -> bool {
    &&& slots.len() == 4
    &&& forall|i: int|
        0 <= i < 4 && slots[i] is Some ==> timer_of(#[trigger] slots[i]).index() == i
    &&& forall|i: int, j: int|
        0 <= i < j < 4 && slots[i] is Some ==> !serves(
            #[trigger] slots[j],
            config_of(#[trigger] slots[i]),
        )
}

/// Builds DC motors, each on a channel of its own.
pub struct MotorSpawner<State> {
    timer_configs: [Slot; 4],
    motors: State,
}

impl<State> MotorSpawner<State> {
    /// The four timer slots.
    pub closed spec fn slots(&self) -> Seq<Slot> {
        self.timer_configs@
    }

    /// The motors built so far.
    pub closed spec fn built(&self) -> State {
        self.motors
    }

    /// The position of the first timer that serves `config`.
    fn find_timer(configs: &[Slot; 4], config: Config) -> (found: Option<usize>)
        ensures
            found is Some <==> has_match(configs@, config),
            found matches Some(at) ==> is_first_match(configs@, config, at as int),
    {
        let mut i: usize = 0;
        while i < 4
            invariant
                i <= 4,
                forall|j: int| 0 <= j < i ==> !serves(#[trigger] configs@[j], config),
            decreases 4 - i,
        {
            if let Some((held, _)) = configs[i] {
                if held.duty == config.duty && held.frequency == config.frequency {
                    assert(serves(configs@[i as int], config));
                    return Some(i);
                }
            }
            i += 1;
        }
        None
    }

    /// The position of the first empty slot.
    fn find_free(configs: &[Slot; 4]) -> (found: Option<usize>)
        ensures
            found is Some <==> has_free(configs@),
            found matches Some(at) ==> is_first_free(configs@, at as int),
    {
        let mut i: usize = 0;
        while i < 4
            invariant
                i <= 4,
                forall|j: int| 0 <= j < i ==> #[trigger] configs@[j] is Some,
            decreases 4 - i,
        {
            if configs[i].is_none() {
                assert(configs@[i as int] is None);
                return Some(i);
            }
            i += 1;
        }
        None
    }

    fn get_or_assign_timer(configs: [Slot; 4], new_config: Config) -> (assigned: (
        Number,
        [Slot; 4],
    ))
        requires
            has_match(configs@, new_config) || has_free(configs@),
        ensures
            assigns(configs@, new_config, assigned.0, assigned.1@),
    {
        if let Some(at) = Self::find_timer(&configs, new_config) {
            return (configs[at].unwrap().1, configs);
        }
        let mut configs = configs;
        let i: usize = Self::find_free(&configs).unwrap();
        let timer = idx_to_timer(i);
        configs[i] = Some((new_config, timer));
        (timer, configs)
    }

    /// Whether a motor with this configuration can get a timer.
    pub fn has_timer_for(&self, config: Config) -> (can: bool)
        ensures
            can == (has_match(self.slots(), config) || has_free(self.slots())),
    {
        Self::find_timer(&self.timer_configs, config).is_some() || Self::find_free(
            &self.timer_configs,
        ).is_some()
    }

    /// The motors built.
    pub fn finish(self) -> (motors: State)
        ensures
            motors == self.built(),
    {
        self.motors
    }
}

impl MotorSpawner<[DCMotor; 0]> {
    /// No timer in use, no motor built.
    pub fn new() -> (spawner: Self)
        ensures
            slots_wf(spawner.slots()),
            forall|i: int| 0 <= i < 4 ==> #[trigger] spawner.slots()[i] is None,
            spawner.built()@ == Seq::<DCMotor>::empty(),
    {
        let spawner = MotorSpawner { timer_configs: [None, None, None, None], motors: [] };
        assert(spawner.built()@ =~= Seq::empty());
        spawner
    }
}

impl<const N: usize> MotorSpawner<[DCMotor; N]> where [DCMotor; N]: MotorRoom<DCMotor> {
    /// Builds a motor on the next channel, with a timer that serves `config`. There is no room
    /// for a configuration that none of four timers in use serves.
    pub fn spawn(self, config: Config) -> (next: MotorSpawner<
        <[DCMotor; N] as MotorRoom<DCMotor>>::Next,
    >)
        requires
            slots_wf(self.slots()),
            has_match(self.slots(), config) || has_free(self.slots()),
        ensures
            slots_wf(next.slots()),
            next.built().list().len() == N + 1,
            next.built().list().drop_last() == self.built()@,
            ({
                let motor = next.built().list().last();
                &&& assigns(self.slots(), config, motor.pwm.timer, next.slots())
                &&& motor.pina is Low && motor.pinb is Low
                &&& motor.pwm.number.index() == N
                &&& motor.pwm.resolution == config.duty
                &&& motor.pwm.duty == 0
                &&& next.slots()[motor.pwm.timer.index()] matches Some((held, timer))
                &&& timer == motor.pwm.timer
                &&& held.duty == config.duty
                &&& held.frequency == config.frequency
            }),
    {
        let (shared_timer, next_configs) = Self::get_or_assign_timer(self.timer_configs, config);
        proof {
            lemma_assigning_keeps_slots_wf(self.slots(), config, shared_timer, next_configs@);
            law_a_timer_runs_as_its_motor_asked(
                self.slots(),
                config,
                shared_timer,
                next_configs@,
                0,
            );
        }
        let pwm = Channel::configured(
            <[DCMotor; N] as MotorRoom<DCMotor>>::channel(),
            shared_timer,
            config.duty,
        );
        assert(self.motors.list().len() == pwm.number.index());
        let new_motor = DCMotor::new(pwm);
        let motors = self.motors.append(new_motor);
        assert(motors.list().drop_last() =~= self.motors.list());
        MotorSpawner { timer_configs: next_configs, motors }
    }
}

/// Handing out a timer keeps the slots in order.
proof fn lemma_assigning_keeps_slots_wf(
    slots: Seq<Slot>,
    config: Config,
    timer: Number,
    next: Seq<Slot>,
)
    requires
        slots_wf(slots),
        assigns(slots, config, timer, next),
    ensures
        slots_wf(next),
{
}

// ---------------------------------------------------------------------------
// Laws
// ---------------------------------------------------------------------------

/// Whether `config` is served by `timer`.
pub open spec fn is_served_by(slots: Seq<Slot>, config: Config, timer: Number) -> bool {
    exists|i: int|
        0 <= i < slots.len() && serves(#[trigger] slots[i], config) && timer_of(slots[i]) == timer
}

/// Once a configuration has a timer it keeps it, and a later motor gets that timer exactly
/// where its configuration can share it: motors with the same frequency and resolution share a
/// timer, others never do.
pub proof fn law_timers_are_shared_exactly_by_equal_configurations(
    slots: Seq<Slot>,
    config: Config,
    timer: Number,
    later: Config,
    later_timer: Number,
    next: Seq<Slot>,
)
    requires
        slots_wf(slots),
        is_served_by(slots, config, timer),
        assigns(slots, later, later_timer, next),
    ensures
        slots_wf(next),
        is_served_by(next, config, timer),
        is_served_by(next, later, later_timer),
        can_share(config, later) <==> later_timer == timer,
{
    lemma_assigning_keeps_slots_wf(slots, later, later_timer, next);
    let at = choose|i: int|
        0 <= i < slots.len() && serves(#[trigger] slots[i], config) && timer_of(slots[i]) == timer;
    if has_match(slots, later) {
        let found = choose|i: int| #[trigger]
            is_first_match(slots, later, i) && later_timer == timer_of(slots[i]);
        assert(serves(next[found], later));
        assert(serves(next[at], config));
        if can_share(config, later) && found != at {
            assert(serves(slots[found], config_of(slots[at])));
            assert(serves(slots[at], config_of(slots[found])));
        }
    } else {
        let free = choose|i: int| #[trigger]
            is_first_free(slots, i) && later_timer.index() == i && next == slots.update(
                i,
                Some((later, later_timer)),
            );
        assert(serves(next[free], later));
        assert(next[at] == slots[at]);
        assert(serves(next[at], config));
        if can_share(config, later) {
            assert(serves(slots[at], later));
        }
    }
}

/// Only a motor whose configuration none of four timers in use serves finds no timer.
pub proof fn law_a_timer_is_found_unless_all_four_are_taken(slots: Seq<Slot>, config: Config)
    requires
        slots_wf(slots),
    ensures
        (exists|timer: Number, next: Seq<Slot>| assigns(slots, config, timer, next)) <==> !(
        forall|i: int|
            0 <= i < 4 ==> (#[trigger] slots[i]) is Some && !serves(slots[i], config)),
{
    if has_match(slots, config) {
        let at = lemma_first_match_exists(slots, config);
        assert(assigns(slots, config, timer_of(slots[at]), slots));
    } else if has_free(slots) {
        let at = lemma_first_free_exists(slots);
        let timer = if at == 0 {
            Number::Timer0
        } else if at == 1 {
            Number::Timer1
        } else if at == 2 {
            Number::Timer2
        } else {
            Number::Timer3
        };
        assert(assigns(slots, config, timer, slots.update(at, Some((config, timer)))));
    }
}

proof fn lemma_first_match_exists(slots: Seq<Slot>, config: Config) -> (at: int)
    requires
        slots.len() == 4,
        has_match(slots, config),
    ensures
        is_first_match(slots, config, at),
{
    if serves(slots[0], config) {
        0
    } else if serves(slots[1], config) {
        1
    } else if serves(slots[2], config) {
        2
    } else {
        3
    }
}

proof fn lemma_first_free_exists(slots: Seq<Slot>) -> (at: int)
    requires
        slots.len() == 4,
        has_free(slots),
    ensures
        is_first_free(slots, at),
{
    if slots[0] is None {
        0
    } else if slots[1] is None {
        1
    } else if slots[2] is None {
        2
    } else {
        3
    }
}

/// A motor gets a timer that runs as it asked: the slot of the timer holds the resolution and
/// the frequency of the motor. All other slots stay as they were, and so does this one unless
/// it was empty; then it was the first empty one.
pub proof fn law_a_timer_runs_as_its_motor_asked(
    slots: Seq<Slot>,
    config: Config,
    timer: Number,
    next: Seq<Slot>,
    other: int,
)
    requires
        slots_wf(slots),
        assigns(slots, config, timer, next),
        0 <= other < 4,
    ensures
        next[timer.index()] matches Some((held, at)) && at == timer && held.duty == config.duty
            && held.frequency == config.frequency,
        slots[other] is Some ==> next[other] == slots[other],
        other != timer.index() ==> next[other] == slots[other],
        slots[timer.index()] is None && other < timer.index() ==> slots[other] is Some,
        slots[timer.index()] is None ==> next[timer.index()] == Some((config, timer)),
{
    if has_match(slots, config) {
        let at = choose|at: int| #[trigger]
            is_first_match(slots, config, at) && timer == timer_of(slots[at]);
        assert(timer_of(slots[at]).index() == at);
        assert(slots[at] == Some((config_of(slots[at]), timer_of(slots[at]))));
    } else {
        let at = choose|at: int| #[trigger]
            is_first_free(slots, at) && timer.index() == at && next == slots.update(
                at,
                Some((config, timer)),
            );
        assert(next[at] == Some((config, timer)));
    }
}

/// Two motors run on the same timer exactly where they asked for the same resolution and the
/// same frequency.
pub proof fn law_two_motors_share_a_timer_exactly_where_they_asked_for_the_same(
    slots: Seq<Slot>,
    first: Config,
    first_timer: Number,
    between: Seq<Slot>,
    second: Config,
    second_timer: Number,
    after: Seq<Slot>,
)
    requires
        slots_wf(slots),
        assigns(slots, first, first_timer, between),
        assigns(between, second, second_timer, after),
    ensures
        first_timer == second_timer <==> first.duty == second.duty && first.frequency
            == second.frequency,
{
    lemma_assigning_keeps_slots_wf(slots, first, first_timer, between);
    law_a_timer_runs_as_its_motor_asked(slots, first, first_timer, between, first_timer.index());
    law_a_timer_runs_as_its_motor_asked(
        between,
        second,
        second_timer,
        after,
        first_timer.index(),
    );
    let at = first_timer.index();
    if first.duty == second.duty && first.frequency == second.frequency {
        assert(serves(between[at], second));
        let found = choose|found: int| #[trigger]
            is_first_match(between, second, found) && second_timer == timer_of(between[found]);
        if found != at {
            assert(serves(between[found], config_of(between[at])));
            assert(serves(between[at], config_of(between[found])));
        }
    }
}

/// No timer is left for a motor exactly where all four run, each with another resolution or
/// another frequency.
pub proof fn law_no_timer_is_left_only_where_all_four_run_otherwise(
    slots: Seq<Slot>,
    config: Config,
)
    requires
        slots_wf(slots),
    ensures
        has_match(slots, config) || has_free(slots) <==> exists|i: int|
            0 <= i < 4 && match #[trigger] slots[i] {
                None => true,
                Some((held, _)) => held.duty == config.duty && held.frequency == config.frequency,
            },
{
    assert forall|i: int| 0 <= i < 4 && slots[i] is Some implies serves(#[trigger] slots[i], config)
        == (match slots[i] {
        None => true,
        Some((held, _)) => held.duty == config.duty && held.frequency == config.frequency,
    }) by {}
}

/// A timer that runs is given to a later motor exactly where that motor asks for the resolution
/// and the frequency at which it runs, however many motors came in between; and it goes on
/// running as it did.
pub proof fn law_a_running_timer_is_shared_only_by_motors_that_ask_for_it(
    slots: Seq<Slot>,
    at: int,
    held: Config,
    timer: Number,
    later: Config,
    later_timer: Number,
    next: Seq<Slot>,
)
    requires
        slots_wf(slots),
        0 <= at < 4,
        slots[at] == Some((held, timer)),
        assigns(slots, later, later_timer, next),
    ensures
        later_timer == timer <==> held.duty == later.duty && held.frequency == later.frequency,
        next[at] == Some((held, timer)),
        slots_wf(next),
{
    lemma_assigning_keeps_slots_wf(slots, later, later_timer, next);
    law_a_timer_runs_as_its_motor_asked(slots, later, later_timer, next, at);
    assert(timer_of(slots[at]).index() == at);
    if held.duty == later.duty && held.frequency == later.frequency {
        assert(serves(slots[at], later));
        let found = choose|found: int| #[trigger]
            is_first_match(slots, later, found) && later_timer == timer_of(slots[found]);
        if found != at {
            assert(serves(slots[found], config_of(slots[at])));
            assert(serves(slots[at], config_of(slots[found])));
        }
    }
}

} // verus!
