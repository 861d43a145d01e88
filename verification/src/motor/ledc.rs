//! The LED control peripheral as a PWM source: four timers and eight channels.
use vstd::prelude::*;

use crate::motor::share;

verus! {

/// One of the four timers.
#[derive(Clone, Copy, Debug, PartialEq, Eq, Structural)]
pub enum Number {
    Timer0,
    Timer1,
    Timer2,
    Timer3,
}

impl Number {
    /// The position of the timer among the four.
    pub open spec fn index(self) -> int {
        match self {
            Number::Timer0 => 0,
            Number::Timer1 => 1,
            Number::Timer2 => 2,
            Number::Timer3 => 3,
        }
    }
}

/// The timer at a position.
pub fn idx_to_timer(s: usize) -> (number: Number)
    requires
        s < 4,
    ensures
        number.index() == s,
{
    match s {
        0 => Number::Timer0,
        1 => Number::Timer1,
        2 => Number::Timer2,
        _ => Number::Timer3,
    }
}

/// One of the eight channels.
#[derive(Clone, Copy, Debug, PartialEq, Eq, Structural)]
pub enum ChannelNumber {
    Channel0,
    Channel1,
    Channel2,
    Channel3,
    Channel4,
    Channel5,
    Channel6,
    Channel7,
}

impl ChannelNumber {
    /// The position of the channel among the eight.
    pub open spec fn index(self) -> int {
        match self {
            ChannelNumber::Channel0 => 0,
            ChannelNumber::Channel1 => 1,
            ChannelNumber::Channel2 => 2,
            ChannelNumber::Channel3 => 3,
            ChannelNumber::Channel4 => 4,
            ChannelNumber::Channel5 => 5,
            ChannelNumber::Channel6 => 6,
            ChannelNumber::Channel7 => 7,
        }
    }
}

/// The resolution of a timer: how many bits its duty has.
#[derive(Clone, Copy, Debug, PartialEq, Eq, Structural)]
pub enum Duty {
    Duty1Bit,
    Duty2Bit,
    Duty3Bit,
    Duty4Bit,
    Duty5Bit,
    Duty6Bit,
    Duty7Bit,
    Duty8Bit,
    Duty9Bit,
    Duty10Bit,
    Duty11Bit,
    Duty12Bit,
    Duty13Bit,
    Duty14Bit,
}

impl Duty {
    /// The duty of an output that is always high: two to the power of the number of bits.
    pub open spec fn full(self) -> int {
        match self {
            Duty::Duty1Bit => 2,
            Duty::Duty2Bit => 4,
            Duty::Duty3Bit => 8,
            Duty::Duty4Bit => 16,
            Duty::Duty5Bit => 32,
            Duty::Duty6Bit => 64,
            Duty::Duty7Bit => 128,
            Duty::Duty8Bit => 256,
            Duty::Duty9Bit => 512,
            Duty::Duty10Bit => 1024,
            Duty::Duty11Bit => 2048,
            Duty::Duty12Bit => 4096,
            Duty::Duty13Bit => 8192,
            Duty::Duty14Bit => 16384,
        }
    }

    /// The duty of an output that is always high.
    pub fn range(self) -> (range: u16)
        ensures
            range == self.full(),
            2 <= range <= 0x4000,
    {
        match self {
            Duty::Duty1Bit => 2,
            Duty::Duty2Bit => 4,
            Duty::Duty3Bit => 8,
            Duty::Duty4Bit => 16,
            Duty::Duty5Bit => 32,
            Duty::Duty6Bit => 64,
            Duty::Duty7Bit => 128,
            Duty::Duty8Bit => 256,
            Duty::Duty9Bit => 512,
            Duty::Duty10Bit => 1024,
            Duty::Duty11Bit => 2048,
            Duty::Duty12Bit => 4096,
            Duty::Duty13Bit => 8192,
            Duty::Duty14Bit => 16384,
        }
    }
}

/// Where a timer takes its clock from.
#[derive(Clone, Copy, Debug, PartialEq, Eq, Structural)]
pub enum LSClockSource {
    APBClk,
}

/// The configuration of a timer; `frequency` is in hertz.
#[derive(Clone, Copy, Debug, PartialEq, Eq, Structural)]
pub struct Config {
    pub duty: Duty,
    pub clock_source: LSClockSource,
    pub frequency: u32,
}

/// A timer in use, with its configuration.
#[derive(Clone, Copy, Debug, PartialEq, Eq, Structural)]
pub struct Timer {
    pub number: Number,
    pub config: Config,
}

/// A channel, the timer it runs on and the resolution of that timer. The output is high for
/// `duty` parts of the full duty.
#[derive(Clone, Copy, Debug, PartialEq, Eq, Structural)]
pub struct Channel {
    pub number: ChannelNumber,
    pub timer: Number,
    pub resolution: Duty,
    pub duty: u32,
}

impl Channel {
    /// A channel on a timer, with its output low.
    pub fn configured(number: ChannelNumber, timer: Number, resolution: Duty) -> (channel: Self)
        ensures
            channel == (Channel { number, timer, resolution, duty: 0 }),
    {
        Channel { number, timer, resolution, duty: 0 }
    }

    /// Sets how much of the time the output is high, in percent, rounded down.
    pub fn set_duty(&mut self, duty_pct: u8)
        requires
            duty_pct <= 100,
        ensures
            *final(self) == (Channel {
                duty: (old(self).resolution.full() * duty_pct / 100) as u32,
                ..*old(self)
            }),
            final(self).duty == share(duty_pct as int, old(self).resolution.full()),
    {
        let range: u32 = self.resolution.range() as u32;
        assert(range * duty_pct <= 0x4000 * 100) by (nonlinear_arith)
            requires
                range <= 0x4000,
                duty_pct <= 100,
        ;
        self.duty = range * duty_pct as u32 / 100;
        assert(duty_pct * range == range * duty_pct) by (nonlinear_arith);
    }

    /// Sets the duty as it is.
    pub fn set_duty_hw(&mut self, duty: u32)
        ensures
            *final(self) == (Channel { duty, ..*old(self) }),
    {
        self.duty = duty;
    }

    /// The duty of an output that is always high.
    pub fn max_duty_cycle(&self) -> (max: u16)
        ensures
            max == self.resolution.full(),
    {
        self.resolution.range()
    }
}

/// A list of motors.
pub trait MotorList<M>: Sized {
    /// The motors, the first one first.
    spec fn list(self) -> Seq<M>;
}

impl<M, const N: usize> MotorList<M> for [M; N] {
    open spec fn list(self) -> Seq<M> {
        self@
    }
}

/// A list of motors with a channel left for one more.
pub trait MotorRoom<M>: MotorList<M> {
    /// The list with one more motor.
    type Next: MotorList<M>;

    /// The channel of the motor that comes next.
    fn channel() -> (number: ChannelNumber)
        ensures
            forall|motors: Self| #[trigger] motors.list().len() == number.index(),
    ;

    /// Adds a motor at the end.
    fn append(self, motor: M) -> (next: Self::Next)
        ensures
            next.list() == self.list().push(motor),
    ;
}

impl<M: Copy> MotorRoom<M> for [M; 0] {
    type Next = [M; 1];

    fn channel() -> (number: ChannelNumber) {
        ChannelNumber::Channel0
    }

    fn append(self, motor: M) -> (next: [M; 1]) {
        let next = [motor];
        assert(next@ =~= self@.push(motor));
        next
    }
}

impl<M: Copy> MotorRoom<M> for [M; 1] {
    type Next = [M; 2];

    fn channel() -> (number: ChannelNumber) {
        ChannelNumber::Channel1
    }

    fn append(self, motor: M) -> (next: [M; 2]) {
        let next = [self[0], motor];
        assert(next@ =~= self@.push(motor));
        next
    }
}

impl<M: Copy> MotorRoom<M> for [M; 2] {
    type Next = [M; 3];

    fn channel() -> (number: ChannelNumber) {
        ChannelNumber::Channel2
    }

    fn append(self, motor: M) -> (next: [M; 3]) {
        let next = [self[0], self[1], motor];
        assert(next@ =~= self@.push(motor));
        next
    }
}

impl<M: Copy> MotorRoom<M> for [M; 3] {
    type Next = [M; 4];

    fn channel() -> (number: ChannelNumber) {
        ChannelNumber::Channel3
    }

    fn append(self, motor: M) -> (next: [M; 4]) {
        let next = [self[0], self[1], self[2], motor];
        assert(next@ =~= self@.push(motor));
        next
    }
}

impl<M: Copy> MotorRoom<M> for [M; 4] {
    type Next = [M; 5];

    fn channel() -> (number: ChannelNumber) {
        ChannelNumber::Channel4
    }

    fn append(self, motor: M) -> (next: [M; 5]) {
        let next = [self[0], self[1], self[2], self[3], motor];
        assert(next@ =~= self@.push(motor));
        next
    }
}

impl<M: Copy> MotorRoom<M> for [M; 5] {
    type Next = [M; 6];

    fn channel() -> (number: ChannelNumber) {
        ChannelNumber::Channel5
    }

    fn append(self, motor: M) -> (next: [M; 6]) {
        let next = [self[0], self[1], self[2], self[3], self[4], motor];
        assert(next@ =~= self@.push(motor));
        next
    }
}

impl<M: Copy> MotorRoom<M> for [M; 6] {
    type Next = [M; 7];

    fn channel() -> (number: ChannelNumber) {
        ChannelNumber::Channel6
    }

    fn append(self, motor: M) -> (next: [M; 7]) {
        let next = [self[0], self[1], self[2], self[3], self[4], self[5], motor];
        assert(next@ =~= self@.push(motor));
        next
    }
}

impl<M: Copy> MotorRoom<M> for [M; 7] {
    type Next = [M; 8];

    fn channel() -> (number: ChannelNumber) {
        ChannelNumber::Channel7
    }

    fn append(self, motor: M) -> (next: [M; 8]) {
        let next = [self[0], self[1], self[2], self[3], self[4], self[5], self[6], motor];
        assert(next@ =~= self@.push(motor));
        next
    }
}

// ---------------------------------------------------------------------------
// Laws
// ---------------------------------------------------------------------------

/// One bit tells two duties apart, and every further bit doubles their number.
pub proof fn law_every_bit_doubles_the_duty()
    ensures
        Duty::Duty1Bit.full() == 2,
        Duty::Duty2Bit.full() == 2 * Duty::Duty1Bit.full(),
        Duty::Duty3Bit.full() == 2 * Duty::Duty2Bit.full(),
        Duty::Duty4Bit.full() == 2 * Duty::Duty3Bit.full(),
        Duty::Duty5Bit.full() == 2 * Duty::Duty4Bit.full(),
        Duty::Duty6Bit.full() == 2 * Duty::Duty5Bit.full(),
        Duty::Duty7Bit.full() == 2 * Duty::Duty6Bit.full(),
        Duty::Duty8Bit.full() == 2 * Duty::Duty7Bit.full(),
        Duty::Duty9Bit.full() == 2 * Duty::Duty8Bit.full(),
        Duty::Duty10Bit.full() == 2 * Duty::Duty9Bit.full(),
        Duty::Duty11Bit.full() == 2 * Duty::Duty10Bit.full(),
        Duty::Duty12Bit.full() == 2 * Duty::Duty11Bit.full(),
        Duty::Duty13Bit.full() == 2 * Duty::Duty12Bit.full(),
        Duty::Duty14Bit.full() == 2 * Duty::Duty13Bit.full(),
{
}

/// Timers and channels count from zero, in the order of their names.
pub proof fn law_timers_and_channels_are_numbered_by_their_names()
    ensures
        Number::Timer0.index() == 0,
        Number::Timer1.index() == 1,
        Number::Timer2.index() == 2,
        Number::Timer3.index() == 3,
        ChannelNumber::Channel0.index() == 0,
        ChannelNumber::Channel1.index() == 1,
        ChannelNumber::Channel2.index() == 2,
        ChannelNumber::Channel3.index() == 3,
        ChannelNumber::Channel4.index() == 4,
        ChannelNumber::Channel5.index() == 5,
        ChannelNumber::Channel6.index() == 6,
        ChannelNumber::Channel7.index() == 7,
{
}

/// A list of motors holds its motors in order.
pub proof fn law_a_list_holds_its_motors_in_order<M, const N: usize>(motors: [M; N], i: int)
    requires
        0 <= i < N,
    ensures
        motors.list().len() == N,
        motors.list()[i] == motors@[i],
{
}

} // verus!
