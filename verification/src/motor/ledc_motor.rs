//! Motors on the LED control peripheral, with the use of its timers settled by types: a list of
//! configurations in the type of the spawner says which timers are in use.
use core::marker::PhantomData;

use vstd::prelude::*;

use crate::gpio::Level;
use crate::motor::dc_motor::DCMotor;
use crate::motor::ledc::idx_to_timer;
use crate::motor::ledc::Channel;
use crate::motor::ledc::ChannelNumber;
use crate::motor::ledc::Config;
use crate::motor::ledc::Duty;
use crate::motor::ledc::LSClockSource;
use crate::motor::ledc::MotorList;
use crate::motor::ledc::MotorRoom;
use crate::motor::ledc::Timer;
use crate::motor::servo::servo_motor_loop;
use crate::motor::servo::ServoAction;
use crate::motor::servo::ServoEvent;
use crate::motor::servo::ServoModel;
use crate::motor::servo::ServoState;
use crate::motor::Speed;

verus! {

// ---------------------------------------------------------------------------
// Configurations
// ---------------------------------------------------------------------------

/// A timer configuration as a type.
pub trait TimerConfigTrait {
    const FREQUENCY: u32;

    const DUTY_RESOLUTION: Duty;

    /// The configuration.
    spec fn config() -> Config;

    /// The configuration has the frequency and resolution of the constants.
    proof fn lemma_config()
        ensures
            Self::config() == (Config {
                duty: Self::DUTY_RESOLUTION,
                clock_source: LSClockSource::APBClk,
                frequency: Self::FREQUENCY,
            }),
    ;

    /// The configuration as a value.
    fn as_config() -> (config: Config)
        ensures
            config == Self::config(),
    {
        proof {
            Self::lemma_config();
        }
        Config {
            duty: Self::DUTY_RESOLUTION,
            clock_source: LSClockSource::APBClk,
            frequency: Self::FREQUENCY,
        }
    }
}

/// The timer of servos: 50 Hz at 12 bits.
pub struct Servo;

impl TimerConfigTrait for Servo {
    const FREQUENCY: u32 = 50;

    const DUTY_RESOLUTION: Duty = Duty::Duty12Bit;

    open spec fn config() -> Config {
        Config {
            duty: Duty::Duty12Bit,
            clock_source: LSClockSource::APBClk,
            frequency: 50,
        }
    }

    proof fn lemma_config() {
        assert(Self::FREQUENCY == 50);
        assert(Self::DUTY_RESOLUTION == Duty::Duty12Bit);
    }
}

/// The timer of DC motors: 20 kHz at 8 bits.
pub struct Dc;

impl TimerConfigTrait for Dc {
    const FREQUENCY: u32 = 20000;

    const DUTY_RESOLUTION: Duty = Duty::Duty8Bit;

    open spec fn config() -> Config {
        Config {
            duty: Duty::Duty8Bit,
            clock_source: LSClockSource::APBClk,
            frequency: 20000,
        }
    }

    proof fn lemma_config() {
        assert(Self::FREQUENCY == 20000);
        assert(Self::DUTY_RESOLUTION == Duty::Duty8Bit);
    }
}

// ---------------------------------------------------------------------------
// The list of timers in use
// ---------------------------------------------------------------------------

/// The empty list of timers; also the index of the head of a list.
pub struct End;

/// The index of an element of the tail of a list.
pub struct Cons<Head, Tail>(PhantomData<Head>, Tail);

/// A list of timers: the timer of `C`, and the rest.
pub struct TimerEntry<C, Tail> {
    timer: Timer,
    tail: Tail,
    _config: PhantomData<C>,
}

/// The list has an entry for `T`, at `Index`.
pub trait Contains<T, Index> {

}

impl<T, Tail> Contains<T, End> for TimerEntry<T, Tail> {

}

impl<T, Index, Head, Tail> Contains<T, Cons<Index, ()>> for TimerEntry<Head, Tail> where
    Tail: Contains<T, Index>,
 {

}

/// A list of timers, and how long it is.
pub trait TimerCount {
    const COUNT: usize;

    /// The length of the list.
    spec fn count() -> nat;

    /// The timers of the list.
    spec fn timers(&self) -> Seq<Timer>;

    /// Every timer of the list has the configuration that its entry is for.
    spec fn is_configured(&self) -> bool;

    /// The list is as long as its type says.
    proof fn lemma_count(&self)
        ensures
            self.timers().len() == Self::count(),
    ;

    /// The constant says the same, where it can.
    proof fn lemma_count_constant()
        requires
            Self::count() <= usize::MAX,
        ensures
            Self::COUNT == Self::count(),
    ;
}

impl TimerCount for End {
    const COUNT: usize = 0;

    open spec fn count() -> nat {
        0
    }

    open spec fn timers(&self) -> Seq<Timer> {
        Seq::empty()
    }

    open spec fn is_configured(&self) -> bool {
        true
    }

    proof fn lemma_count(&self) {
    }

    proof fn lemma_count_constant() {
    }
}

impl<H: TimerConfigTrait, T: TimerCount> TimerCount for TimerEntry<H, T> {
    const COUNT: usize = 1 + T::COUNT;

    open spec fn count() -> nat {
        1 + T::count()
    }

    closed spec fn timers(&self) -> Seq<Timer> {
        seq![self.timer] + self.tail.timers()
    }

    closed spec fn is_configured(&self) -> bool {
        self.timer.config == H::config() && self.tail.is_configured()
    }

    proof fn lemma_count(&self) {
        self.tail.lemma_count();
    }

    proof fn lemma_count_constant() {
        T::lemma_count_constant();
    }
}

impl<H, T> TimerEntry<H, T> {
    /// The timer of the first entry.
    pub closed spec fn first(&self) -> Timer {
        self.timer
    }

    /// The other entries.
    pub closed spec fn rest(&self) -> T {
        self.tail
    }
}

/// The list has an entry for `C`, at `Index`, whose timer can be found.
pub trait FindTimer<C: TimerConfigTrait, Index>: TimerCount {
    /// The position of the entry in the list.
    spec fn position() -> int;

    /// The position lies in the list.
    proof fn lemma_position()
        ensures
            0 <= Self::position() < Self::count(),
    ;

    /// The timer of `C`.
    fn get_timer(&self) -> (timer: Timer)
        ensures
            timer == self.timers()[Self::position()],
            self.is_configured() ==> timer.config == C::config(),
    ;
}

impl<C: TimerConfigTrait, Tail: TimerCount> FindTimer<C, End> for TimerEntry<C, Tail> {
    open spec fn position() -> int {
        0
    }

    proof fn lemma_position() {
    }

    fn get_timer(&self) -> (timer: Timer) {
        self.timer
    }
}

impl<C: TimerConfigTrait, Head: TimerConfigTrait, Tail, Index> FindTimer<
    C,
    Cons<Index, ()>,
> for TimerEntry<Head, Tail> where Tail: FindTimer<C, Index> {
    open spec fn position() -> int {
        1 + Tail::position()
    }

    proof fn lemma_position() {
        Tail::lemma_position();
    }

    fn get_timer(&self) -> (timer: Timer) {
        proof {
            Tail::lemma_position();
            self.tail.lemma_count();
        }
        self.tail.get_timer()
    }
}

/// The list has a timer that can be used again for `C`.
pub trait ReuseTimer<C, Index> {
    /// The timer of `C`.
    spec fn reusable(&self) -> Timer;

    /// The timer of `C`.
    fn get_timer(&self) -> (timer: Timer)
        ensures
            timer == self.reusable(),
    ;
}

impl<C: TimerConfigTrait, Index, List> ReuseTimer<C, Index> for List where
    List: FindTimer<C, Index>,
 {
    open spec fn reusable(&self) -> Timer {
        self.timers()[<Self as FindTimer<C, Index>>::position()]
    }

    fn get_timer(&self) -> (timer: Timer) {
        FindTimer::<C, Index>::get_timer(self)
    }
}

/// A list that can grow by an entry for `C`.
pub trait AllocTimer<C: TimerConfigTrait>: TimerCount + Sized {
    type Output: TimerCount;

    /// Configures the timer at position `slot` and adds an entry for it at the end.
    fn alloc_timer(self, slot: usize) -> (allocated: (Timer, Self::Output))
        requires
            slot < 4,
        ensures
            allocated.0.number.index() == slot,
            allocated.0.config == C::config(),
            allocated.1.timers() == self.timers().push(allocated.0),
            self.is_configured() ==> allocated.1.is_configured(),
    ;

    /// The new list is longer by one.
    proof fn lemma_output_count()
        ensures
            Self::Output::count() == Self::count() + 1,
    ;
}

impl<C: TimerConfigTrait> AllocTimer<C> for End {
    type Output = TimerEntry<C, End>;

    fn alloc_timer(self, slot: usize) -> (allocated: (Timer, TimerEntry<C, End>)) {
        let timer = Timer { number: idx_to_timer(slot), config: C::as_config() };
        let entry = TimerEntry { timer, tail: End, _config: PhantomData };
        assert(entry.timers() =~= self.timers().push(timer));
        (timer, entry)
    }

    proof fn lemma_output_count() {
    }
}

impl<C: TimerConfigTrait, Head: TimerConfigTrait, Tail> AllocTimer<C> for TimerEntry<
    Head,
    Tail,
> where Tail: AllocTimer<C> {
    type Output = TimerEntry<Head, <Tail as AllocTimer<C>>::Output>;

    fn alloc_timer(self, slot: usize) -> (allocated: (
        Timer,
        TimerEntry<Head, <Tail as AllocTimer<C>>::Output>,
    )) {
        let (timer, new_tail) = self.tail.alloc_timer(slot);
        let entry = TimerEntry { timer: self.timer, tail: new_tail, _config: PhantomData };
        assert(entry.timers() =~= self.timers().push(timer));
        (timer, entry)
    }

    proof fn lemma_output_count() {
        <Tail as AllocTimer<C>>::lemma_output_count();
    }
}

/// A list with room for one more timer.
pub trait HasRoom: TimerCount {
    proof fn lemma_room()
        ensures
            Self::count() < 4,
    ;
}

impl HasRoom for End {
    proof fn lemma_room() {
    }
}

impl<H: TimerConfigTrait, T> HasRoom for TimerEntry<H, T> where T: HasRoom2 {
    proof fn lemma_room() {
        T::lemma_room();
    }
}

/// A list with room for two more timers.
pub trait HasRoom2: TimerCount {
    proof fn lemma_room()
        ensures
            Self::count() < 3,
    ;
}

impl HasRoom2 for End {
    proof fn lemma_room() {
    }
}

impl<H: TimerConfigTrait, T> HasRoom2 for TimerEntry<H, T> where T: HasRoom3 {
    proof fn lemma_room() {
        T::lemma_room();
    }
}

/// A list with room for three more timers.
pub trait HasRoom3: TimerCount {
    proof fn lemma_room()
        ensures
            Self::count() < 2,
    ;
}

impl HasRoom3 for End {
    proof fn lemma_room() {
    }
}

impl<H: TimerConfigTrait, T> HasRoom3 for TimerEntry<H, T> where T: HasRoom4 {
    proof fn lemma_room() {
        T::lemma_room();
    }
}

/// A list with room for four more timers: the empty one.
pub trait HasRoom4: TimerCount {
    proof fn lemma_room()
        ensures
            Self::count() < 1,
    ;
}

impl HasRoom4 for End {
    proof fn lemma_room() {
    }
}

// ---------------------------------------------------------------------------
// Servos
// ---------------------------------------------------------------------------

/// A servo on a channel, and the angle it starts at.
#[derive(Clone, Copy, Debug, PartialEq, Eq, Structural)]
pub struct PwmMotor {
    pub pwm: Channel,
    pub initial_angle: i32,
}

/// The running servo loop of a motor.
pub struct ServoTask {
    state: ServoState,
    pwm: Channel,
}

impl PwmMotor {
    /// A servo on a channel.
    pub fn new(pwm: Channel, initial_angle: i32) -> (motor: Self)
        ensures
            motor == (PwmMotor { pwm, initial_angle }),
    {
        PwmMotor { pwm, initial_angle }
    }

    /// The loop that drives the servo: a fast one.
    pub fn task(&self) -> (task: ServoTask)
        ensures
            task.channel() == self.pwm,
            task.servo() == (ServoModel {
                angle: self.initial_angle,
                target_angle: self.initial_angle,
                speed: Speed::Fast,
                period: 0,
                pending: Seq::empty(),
            }),
    {
        ServoTask { state: ServoState::new(self.initial_angle, Speed::Fast), pwm: self.pwm }
    }
}

impl ServoTask {
    /// The servo loop.
    pub closed spec fn servo(&self) -> ServoModel {
        self.state@
    }

    /// The channel as it was last set.
    pub closed spec fn channel(&self) -> Channel {
        self.pwm
    }

    /// The channel as it was last set.
    pub fn pwm(&self) -> (pwm: Channel)
        ensures
            pwm == self.channel(),
    {
        self.pwm
    }

    /// The angle the last finished command led to.
    pub fn angle(&self) -> (angle: i32)
        ensures
            angle == self.servo().angle,
    {
        self.state.angle()
    }

    /// One round of the servo loop on the channel: a duty to set is set on the channel.
    pub fn drive(&mut self, event: ServoEvent) -> (action: ServoAction)
        requires
            event matches ServoEvent::Command(cmd) ==> i32::MIN <= old(self).servo().target_after(
                cmd,
            ) - old(self).servo().angle <= i32::MAX,
        ensures
            (final(self).servo(), action) == old(self).servo().next(
                event,
                old(self).channel().resolution.full() as u16,
            ),
            final(self).channel() == (Channel {
                duty: match action {
                    ServoAction::Home { duty, .. } => duty as u32,
                    ServoAction::Move { duty, .. } => duty as u32,
                    ServoAction::Receive => old(self).channel().duty,
                },
                ..old(self).channel()
            }),
    {
        let max_duty: u16 = self.pwm.max_duty_cycle();
        let action = servo_motor_loop(&mut self.state, event, max_duty);
        match &action {
            ServoAction::Home { duty, .. } => self.pwm.set_duty_hw(*duty as u32),
            ServoAction::Move { duty, .. } => self.pwm.set_duty_hw(*duty as u32),
            ServoAction::Receive => {},
        }
        action
    }
}

// ---------------------------------------------------------------------------
// The spawner
// ---------------------------------------------------------------------------

/// Builds motors, each on a channel of its own. The type says how many there are and which
/// timers are in use, so that a ninth motor or a fifth timer is a type error.
pub struct MotorSpawner<Motors, Timers> {
    motors: Motors,
    timers: Timers,
}

impl MotorSpawner<[DCMotor; 0], End> {
    /// No DC motor built, no timer in use.
    pub fn new_dc() -> (spawner: Self)
        ensures
            spawner.wf(),
            spawner.built()@ == Seq::<DCMotor>::empty(),
    {
        let spawner = MotorSpawner { motors: [], timers: End };
        assert(spawner.built()@ =~= Seq::empty());
        spawner
    }
}

impl MotorSpawner<[PwmMotor; 0], End> {
    /// No servo built, no timer in use.
    pub fn new_pwm() -> (spawner: Self)
        ensures
            spawner.wf(),
            spawner.built()@ == Seq::<PwmMotor>::empty(),
    {
        let spawner = MotorSpawner { motors: [], timers: End };
        assert(spawner.built()@ =~= Seq::empty());
        spawner
    }
}

impl<Motors, Timers: TimerCount> MotorSpawner<Motors, Timers> {
    /// The motors built so far.
    pub closed spec fn built(&self) -> Motors {
        self.motors
    }

    /// The timers in use.
    pub closed spec fn timer_list(&self) -> Timers {
        self.timers
    }

    /// The timers in use are the first ones, in order, each configured for its entry.
    pub open spec fn wf(&self) -> bool {
        &&& self.timer_list().is_configured()
        &&& forall|i: int|
            0 <= i < self.timer_list().timers().len() ==> (
            #[trigger] self.timer_list().timers()[i]).number.index() == i
    }

    /// The motors built.
    pub fn finish(self) -> (motors: Motors)
        ensures
            motors == self.built(),
    {
        self.motors
    }
}

/// A channel that runs on `timer`, with its output low.
pub open spec fn fresh_channel(number: ChannelNumber, timer: Timer) -> Channel {
    Channel { number, timer: timer.number, resolution: timer.config.duty, duty: 0 }
}

/// The channel of the motor that comes next in a list.
fn next_channel<M, Motors: MotorRoom<M>>(timer: Timer) -> (pwm: Channel)
    ensures
        forall|motors: Motors| #[trigger] motors.list().len() == pwm.number.index(),
        pwm == fresh_channel(pwm.number, timer),
{
    Channel::configured(Motors::channel(), timer.number, timer.config.duty)
}

impl<const N: usize, Timers: TimerCount> MotorSpawner<[DCMotor; N], Timers> where
    [DCMotor; N]: MotorRoom<DCMotor>,
 {
    /// Builds a DC motor on the next channel, with the timer that is in use for `C`.
    pub fn spawn_reuse<C: TimerConfigTrait, Index>(self, _config: C) -> (next: MotorSpawner<
        <[DCMotor; N] as MotorRoom<DCMotor>>::Next,
        Timers,
    >) where Timers: FindTimer<C, Index>
        requires
            self.wf(),
        ensures
            next.wf(),
            next.timer_list() == self.timer_list(),
            next.built().list().len() == N + 1,
            next.built().list().drop_last() == self.built()@,
            ({
                let motor = next.built().list().last();
                let timer = self.timer_list().timers()[<Timers as FindTimer<
                    C,
                    Index,
                >>::position()];
                &&& timer.config == C::config()
                &&& motor.pwm.number.index() == N
                &&& motor.pwm == fresh_channel(motor.pwm.number, timer)
                &&& motor == (DCMotor { pina: Level::Low, pinb: Level::Low, pwm: motor.pwm })
            }),
    {
        let shared_timer = FindTimer::<C, Index>::get_timer(&self.timers);
        let pwm = next_channel::<DCMotor, [DCMotor; N]>(shared_timer);
        assert(self.motors.list().len() == pwm.number.index());
        let motors = self.motors.append(DCMotor::new(pwm));
        assert(motors.list().drop_last() =~= self.motors.list());
        MotorSpawner { motors, timers: self.timers }
    }

    /// Builds a DC motor on the next channel, with a timer that was not in use, configured
    /// as `C` says.
    pub fn spawn_new<C: TimerConfigTrait>(self, _config: C) -> (next: MotorSpawner<
        <[DCMotor; N] as MotorRoom<DCMotor>>::Next,
        <Timers as AllocTimer<C>>::Output,
    >) where Timers: AllocTimer<C> + HasRoom
        requires
            self.wf(),
        ensures
            next.wf(),
            next.timer_list().timers().len() == self.timer_list().timers().len() + 1,
            next.timer_list().timers().drop_last() == self.timer_list().timers(),
            next.built().list().len() == N + 1,
            next.built().list().drop_last() == self.built()@,
            ({
                let motor = next.built().list().last();
                let timer = next.timer_list().timers().last();
                &&& timer.config == C::config()
                &&& timer.number.index() == Timers::count()
                &&& motor.pwm.number.index() == N
                &&& motor.pwm == fresh_channel(motor.pwm.number, timer)
                &&& motor == (DCMotor { pina: Level::Low, pinb: Level::Low, pwm: motor.pwm })
            }),
    {
        proof {
            Timers::lemma_room();
            Timers::lemma_count_constant();
            self.timers.lemma_count();
        }
        let slot: usize = Timers::COUNT;
        let (shared_timer, new_timers) = self.timers.alloc_timer(slot);
        let pwm = next_channel::<DCMotor, [DCMotor; N]>(shared_timer);
        assert(self.motors.list().len() == pwm.number.index());
        let motors = self.motors.append(DCMotor::new(pwm));
        assert(motors.list().drop_last() =~= self.motors.list());
        assert(new_timers.timers().drop_last() =~= self.timers.timers());
        MotorSpawner { motors, timers: new_timers }
    }
}

impl<const N: usize, Timers: TimerCount> MotorSpawner<[PwmMotor; N], Timers> where
    [PwmMotor; N]: MotorRoom<PwmMotor>,
 {
    /// Builds a servo on the next channel, with the timer that is in use for `C`.
    pub fn spawn_reuse<C: TimerConfigTrait, Index>(self, initial_angle: i32, _config: C) -> (next: MotorSpawner<
        <[PwmMotor; N] as MotorRoom<PwmMotor>>::Next,
        Timers,
    >) where Timers: FindTimer<C, Index>
        requires
            self.wf(),
        ensures
            next.wf(),
            next.timer_list() == self.timer_list(),
            next.built().list().len() == N + 1,
            next.built().list().drop_last() == self.built()@,
            ({
                let motor = next.built().list().last();
                let timer = self.timer_list().timers()[<Timers as FindTimer<
                    C,
                    Index,
                >>::position()];
                &&& timer.config == C::config()
                &&& motor.pwm.number.index() == N
                &&& motor.pwm == fresh_channel(motor.pwm.number, timer)
                &&& motor == (PwmMotor { pwm: motor.pwm, initial_angle })
            }),
    {
        let shared_timer = FindTimer::<C, Index>::get_timer(&self.timers);
        let pwm = next_channel::<PwmMotor, [PwmMotor; N]>(shared_timer);
        assert(self.motors.list().len() == pwm.number.index());
        let motors = self.motors.append(PwmMotor::new(pwm, initial_angle));
        assert(motors.list().drop_last() =~= self.motors.list());
        MotorSpawner { motors, timers: self.timers }
    }

    /// Builds a servo on the next channel, with a timer that was not in use, configured
    /// as `C` says.
    pub fn spawn_new<C: TimerConfigTrait>(self, initial_angle: i32, _config: C) -> (next: MotorSpawner<
        <[PwmMotor; N] as MotorRoom<PwmMotor>>::Next,
        <Timers as AllocTimer<C>>::Output,
    >) where Timers: AllocTimer<C> + HasRoom
        requires
            self.wf(),
        ensures
            next.wf(),
            next.timer_list().timers().len() == self.timer_list().timers().len() + 1,
            next.timer_list().timers().drop_last() == self.timer_list().timers(),
            next.built().list().len() == N + 1,
            next.built().list().drop_last() == self.built()@,
            ({
                let motor = next.built().list().last();
                let timer = next.timer_list().timers().last();
                &&& timer.config == C::config()
                &&& timer.number.index() == Timers::count()
                &&& motor.pwm.number.index() == N
                &&& motor.pwm == fresh_channel(motor.pwm.number, timer)
                &&& motor == (PwmMotor { pwm: motor.pwm, initial_angle })
            }),
    {
        proof {
            Timers::lemma_room();
            Timers::lemma_count_constant();
            self.timers.lemma_count();
        }
        let slot: usize = Timers::COUNT;
        let (shared_timer, new_timers) = self.timers.alloc_timer(slot);
        let pwm = next_channel::<PwmMotor, [PwmMotor; N]>(shared_timer);
        assert(self.motors.list().len() == pwm.number.index());
        let motors = self.motors.append(PwmMotor::new(pwm, initial_angle));
        assert(motors.list().drop_last() =~= self.motors.list());
        assert(new_timers.timers().drop_last() =~= self.timers.timers());
        MotorSpawner { motors, timers: new_timers }
    }
}

// ---------------------------------------------------------------------------
// Laws
// ---------------------------------------------------------------------------

/// The types keep count of the timers: a spawner uses as many timers as its type lists, no
/// timer for two entries, and never more than there are.
pub proof fn law_no_timer_is_configured_twice<Motors, Timers: TimerCount>(
    spawner: MotorSpawner<Motors, Timers>,
    i: int,
    j: int,
)
    requires
        spawner.wf(),
        0 <= i < j < Timers::count(),
    ensures
        spawner.timer_list().timers().len() == Timers::count(),
        spawner.timer_list().timers()[i].number != spawner.timer_list().timers()[j].number,
        Timers::count() <= 4,
{
    spawner.timer_list().lemma_count();
    assert(spawner.timer_list().timers()[i].number.index() == i);
    assert(spawner.timer_list().timers()[j].number.index() == j);
    let last = Timers::count() - 1;
    assert(spawner.timer_list().timers()[last].number.index() == last);
}

/// The servo timer runs at 50 Hz with 12 bits, the timer of DC motors at 20 kHz with 8 bits.
pub proof fn law_the_timers_run_as_their_names_say()
    ensures
        Servo::config().frequency == 50,
        Servo::config().duty is Duty12Bit,
        Servo::config().clock_source is APBClk,
        Dc::config().frequency == 20_000,
        Dc::config().duty is Duty8Bit,
        Dc::config().clock_source is APBClk,
{
}

/// A list has the timer of its first entry first, and those of the others behind it. Where it
/// is configured, every timer runs at the frequency and the resolution that its entry names.
pub proof fn law_a_configured_list_runs_as_its_types_say<H: TimerConfigTrait, T: TimerCount>(
    list: TimerEntry<H, T>,
)
    ensures
        list.timers() == seq![list.first()] + list.rest().timers(),
        list.is_configured() ==> list.first().config.frequency == H::FREQUENCY
            && list.first().config.duty == H::DUTY_RESOLUTION,
        list.is_configured() ==> list.rest().is_configured(),
        TimerEntry::<H, T>::count() == T::count() + 1,
        End::count() == 0,
{
    H::lemma_config();
}

/// The first entry of a list stands at its head, and an entry of its tail one further.
pub proof fn law_entries_are_found_at_their_place<
    C: TimerConfigTrait,
    H: TimerConfigTrait,
    T: FindTimer<C, Index>,
    Index,
>()
    ensures
        <TimerEntry<C, T> as FindTimer<C, End>>::position() == 0,
        <TimerEntry<H, T> as FindTimer<C, Cons<Index, ()>>>::position() == 1 + <T as FindTimer<
            C,
            Index,
        >>::position(),
{
}

/// A channel runs on the timer it is given, at the resolution of that timer, and starts low.
pub proof fn law_a_fresh_channel_is_low(number: ChannelNumber, timer: Timer)
    ensures
        fresh_channel(number, timer).number == number,
        fresh_channel(number, timer).timer == timer.number,
        fresh_channel(number, timer).resolution == timer.config.duty,
        fresh_channel(number, timer).duty == 0,
{
}

} // verus!
