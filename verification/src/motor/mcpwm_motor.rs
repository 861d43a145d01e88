//! Motors on the MCPWM peripheral: three operators, each with a timer of its own, handed out
//! one after the other.
use vstd::prelude::*;

use crate::gpio::Level;
use crate::motor::servo::servo_motor_loop;
use crate::motor::servo::ServoAction;
use crate::motor::servo::ServoEvent;
use crate::motor::servo::ServoModel;
use crate::motor::servo::ServoState;
use crate::motor::share;
use crate::motor::Speed;

verus! {

// ---------------------------------------------------------------------------
// Pins
// ---------------------------------------------------------------------------

/// A PWM output: it is high for `timestamp` ticks of every `period`.
#[derive(Clone, Copy, Debug, PartialEq, Eq, Structural)]
pub struct PwmPin {
    pub period: u16,
    pub timestamp: u16,
}

/// A PWM output of any of the three operators.
#[derive(Clone, Copy, Debug, PartialEq, Eq, Structural)]
pub enum ErasedPwmPin {
    Op0(PwmPin),
    Op1(PwmPin),
    Op2(PwmPin),
}

impl ErasedPwmPin {
    /// The output, whatever its operator.
    pub open spec fn output(self) -> PwmPin {
        match self {
            ErasedPwmPin::Op0(pin) => pin,
            ErasedPwmPin::Op1(pin) => pin,
            ErasedPwmPin::Op2(pin) => pin,
        }
    }

    /// The operator that drives the output.
    pub open spec fn operator(self) -> int {
        match self {
            ErasedPwmPin::Op0(_) => 0,
            ErasedPwmPin::Op1(_) => 1,
            ErasedPwmPin::Op2(_) => 2,
        }
    }

    /// Sets how many ticks of a period the output is high.
    pub fn set_timestamp(&mut self, timestamp: u16)
        ensures
            final(self).operator() == old(self).operator(),
            final(self).output() == (PwmPin { timestamp, ..old(self).output() }),
    {
        let output = PwmPin { period: self.period(), timestamp };
        *self = match self {
            ErasedPwmPin::Op0(_) => ErasedPwmPin::Op0(output),
            ErasedPwmPin::Op1(_) => ErasedPwmPin::Op1(output),
            ErasedPwmPin::Op2(_) => ErasedPwmPin::Op2(output),
        };
    }

    /// Sets how much of a period the output is high, in percent, rounded down to a tick.
    pub fn set_duty_cycle_percent(&mut self, percent: u8)
        requires
            percent <= 100,
        ensures
            final(self).operator() == old(self).operator(),
            final(self).output() == (PwmPin {
                timestamp: (percent * old(self).output().period / 100) as u16,
                ..old(self).output()
            }),
            final(self).output().timestamp == share(
                percent as int,
                old(self).output().period as int,
            ),
    {
        let period: u32 = self.period() as u32;
        assert(percent * period <= 100 * period) by (nonlinear_arith)
            requires
                percent <= 100,
        ;
        let timestamp: u32 = percent as u32 * period / 100;
        self.set_timestamp(timestamp as u16);
    }

    /// The length of a period in ticks.
    pub fn period(&self) -> (period: u16)
        ensures
            period == self.output().period,
    {
        match self {
            ErasedPwmPin::Op0(pin) => pin.period,
            ErasedPwmPin::Op1(pin) => pin.period,
            ErasedPwmPin::Op2(pin) => pin.period,
        }
    }

    /// The operator that drives the output.
    pub fn operator_index(&self) -> (index: usize)
        ensures
            index == self.operator(),
            index < 3,
    {
        match self {
            ErasedPwmPin::Op0(_) => 0,
            ErasedPwmPin::Op1(_) => 1,
            ErasedPwmPin::Op2(_) => 2,
        }
    }
}

// ---------------------------------------------------------------------------
// Kinds of motors
// ---------------------------------------------------------------------------

/// Associates a kind of motor with the configuration of the timer of each operator.
/// `MAPPINGS[i]` is the period in ticks and the frequency in hertz for operator `i`.
pub trait PwmController: Sized {
    const MAPPINGS: [(u16, u32); 3];

    /// The period in ticks and the frequency in hertz for an operator.
    spec fn mapping(operator: int) -> (u16, u32);

    /// `MAPPINGS` holds what `mapping` says, and no period is empty.
    proof fn lemma_mappings()
        ensures
            forall|operator: int|
                #![trigger Self::MAPPINGS@[operator]]
                #![trigger Self::mapping(operator)]
                0 <= operator < 3 ==> Self::MAPPINGS@[operator] == Self::mapping(operator)
                    && Self::mapping(operator).0 > 0,
    ;

    /// Whether `self` is what is made of a pin.
    spec fn is_made_of(&self, pin: ErasedPwmPin, initial_angle: i32) -> bool;

    /// The timer period of an operator, in ticks.
    fn timer_period(operator: usize) -> (period: u16)
        requires
            operator < 3,
        ensures
            period == Self::mapping(operator as int).0,
            period > 0,
    {
        proof {
            Self::lemma_mappings();
        }
        Self::MAPPINGS[operator].0
    }

    /// The timer frequency of an operator, in hertz.
    fn timer_frequency(operator: usize) -> (frequency: u32)
        requires
            operator < 3,
        ensures
            frequency == Self::mapping(operator as int).1,
    {
        proof {
            Self::lemma_mappings();
        }
        Self::MAPPINGS[operator].1
    }

    /// Makes a motor of a pin.
    fn new(pin: ErasedPwmPin, initial_angle: i32) -> (motor: Self)
        ensures
            motor.is_made_of(pin, initial_angle),
    ;
}

// ---------------------------------------------------------------------------
// Servo motor
// ---------------------------------------------------------------------------

/// A servo and the pin it hangs on.
pub struct ServoMotor {
    state: ServoState,
    pin: ErasedPwmPin,
}

impl ServoMotor {
    /// The servo loop behind the motor.
    pub closed spec fn servo(&self) -> ServoModel {
        self.state@
    }

    /// The pin as it was last set.
    pub closed spec fn output_pin(&self) -> ErasedPwmPin {
        self.pin
    }

    /// The pin as it was last set.
    pub fn pin(&self) -> (pin: ErasedPwmPin)
        ensures
            pin == self.output_pin(),
    {
        self.pin
    }

    /// The angle the last finished command led to.
    pub fn angle(&self) -> (angle: i32)
        ensures
            angle == self.servo().angle,
    {
        self.state.angle()
    }

    /// One round of the servo loop on the pin: a duty to set is set on the pin.
    pub fn drive(&mut self, event: ServoEvent) -> (action: ServoAction)
        requires
            event matches ServoEvent::Command(cmd) ==> i32::MIN <= old(self).servo().target_after(
                cmd,
            ) - old(self).servo().angle <= i32::MAX,
        ensures
            (final(self).servo(), action) == old(self).servo().next(
                event,
                old(self).output_pin().output().period,
            ),
            final(self).output_pin().operator() == old(self).output_pin().operator(),
            final(self).output_pin().output() == (PwmPin {
                period: old(self).output_pin().output().period,
                timestamp: match action {
                    ServoAction::Home { duty, .. } => duty,
                    ServoAction::Move { duty, .. } => duty,
                    ServoAction::Receive => old(self).output_pin().output().timestamp,
                },
            }),
    {
        let period: u16 = self.pin.period();
        let action = servo_motor_loop(&mut self.state, event, period);
        match &action {
            ServoAction::Home { duty, .. } => self.pin.set_timestamp(*duty),
            ServoAction::Move { duty, .. } => self.pin.set_timestamp(*duty),
            ServoAction::Receive => {},
        }
        action
    }
}

impl PwmController for ServoMotor {
    const MAPPINGS: [(u16, u32); 3] = [(20_000, 50), (20_000, 50), (20_000, 50)];

    open spec fn mapping(operator: int) -> (u16, u32) {
        (20_000, 50)
    }

    proof fn lemma_mappings() {
        let entry = (20_000u16, 50u32);
        assert(Self::MAPPINGS@ =~= seq![entry, entry, entry]);
    }

    /// A fast servo that starts at `initial_angle`.
    open spec fn is_made_of(&self, pin: ErasedPwmPin, initial_angle: i32) -> bool {
        &&& self.output_pin() == pin
        &&& self.servo() == (ServoModel {
            angle: initial_angle,
            target_angle: initial_angle,
            speed: Speed::Fast,
            period: 0,
            pending: Seq::empty(),
        })
    }

    fn new(pin: ErasedPwmPin, initial_angle: i32) -> (motor: Self) {
        ServoMotor { state: ServoState::new(initial_angle, Speed::Fast), pin }
    }
}

// ---------------------------------------------------------------------------
// Stepper motor
// ---------------------------------------------------------------------------

/// A command to a motor behind an H-bridge.
#[derive(Clone, Copy, Debug, PartialEq, Eq, Structural)]
pub enum StepCmd {
    Forward { duty: u8 },
    Backward { duty: u8 },
    Stop,
}

/// A motor that still lacks its two direction pins.
pub struct StepMotorBuilder {
    pwm_pin: ErasedPwmPin,
}

/// A motor behind an H-bridge: the PWM pin sets how hard it pulls, the other two which way.
pub struct StepMotor {
    pub pwm_pin: ErasedPwmPin,
    pub pina: Level,
    pub pinb: Level,
}

impl StepMotorBuilder {
    /// The pin the motor is made of.
    pub closed spec fn pin(&self) -> ErasedPwmPin {
        self.pwm_pin
    }

    /// Adds the direction pins, both low.
    pub fn into_motor(self) -> (motor: StepMotor)
        ensures
            motor.pwm_pin == self.pin(),
            motor.pina is Low && motor.pinb is Low,
    {
        StepMotor { pwm_pin: self.pwm_pin, pina: Level::Low, pinb: Level::Low }
    }
}

impl PwmController for StepMotorBuilder {
    const MAPPINGS: [(u16, u32); 3] = [(100, 1_000), (100, 1_000), (100, 1_000)];

    open spec fn mapping(operator: int) -> (u16, u32) {
        (100, 1_000)
    }

    proof fn lemma_mappings() {
        let entry = (100u16, 1_000u32);
        assert(Self::MAPPINGS@ =~= seq![entry, entry, entry]);
    }

    open spec fn is_made_of(&self, pin: ErasedPwmPin, initial_angle: i32) -> bool {
        self.pin() == pin
    }

    fn new(pin: ErasedPwmPin, _initial_angle: i32) -> (motor: Self) {
        StepMotorBuilder { pwm_pin: pin }
    }
}

impl StepMotor {
    /// Whether the two sides of the bridge are never driven against each other.
    pub open spec fn is_safe(&self) -> bool {
        !(self.pina is High && self.pinb is High)
    }

    /// Sets how hard the motor pulls, in percent.
    pub fn set_duty_cycle_percent(&mut self, duty_percentage: u8)
        requires
            duty_percentage <= 100,
        ensures
            final(self).pwm_pin.operator() == old(self).pwm_pin.operator(),
            final(self).pwm_pin.output() == (PwmPin {
                timestamp: (duty_percentage * old(self).pwm_pin.output().period / 100) as u16,
                ..old(self).pwm_pin.output()
            }),
            final(self).pwm_pin.output().timestamp == share(
                duty_percentage as int,
                old(self).pwm_pin.output().period as int,
            ),
            final(self).pina == old(self).pina,
            final(self).pinb == old(self).pinb,
    {
        self.pwm_pin.set_duty_cycle_percent(duty_percentage);
    }

    pub fn go_forward(&mut self)
        ensures
            *final(self) == (StepMotor { pina: Level::High, pinb: Level::Low, ..*old(self) }),
    {
        self.pina = Level::High;
        self.pinb = Level::Low;
    }

    pub fn go_backward(&mut self)
        ensures
            *final(self) == (StepMotor { pina: Level::Low, pinb: Level::High, ..*old(self) }),
    {
        self.pina = Level::Low;
        self.pinb = Level::High;
    }

    pub fn stop(&mut self)
        ensures
            *final(self) == (StepMotor { pina: Level::Low, pinb: Level::Low, ..*old(self) }),
    {
        self.pina = Level::Low;
        self.pinb = Level::Low;
    }
}

/// One round of the motor loop: carries out a command. Stopping leaves the duty as it is.
pub fn step_motor_loop(motor: &mut StepMotor, cmd: StepCmd)
    requires
        cmd matches StepCmd::Forward { duty } ==> duty <= 100,
        cmd matches StepCmd::Backward { duty } ==> duty <= 100,
    ensures
        final(motor).pwm_pin.operator() == old(motor).pwm_pin.operator(),
        final(motor).pwm_pin.output() == (PwmPin {
            period: old(motor).pwm_pin.output().period,
            timestamp: match cmd {
                StepCmd::Forward { duty } => (duty * old(motor).pwm_pin.output().period
                    / 100) as u16,
                StepCmd::Backward { duty } => (duty * old(motor).pwm_pin.output().period
                    / 100) as u16,
                StepCmd::Stop => old(motor).pwm_pin.output().timestamp,
            },
        }),
        cmd matches StepCmd::Forward { duty } ==> final(motor).pwm_pin.output().timestamp == share(
            duty as int,
            old(motor).pwm_pin.output().period as int,
        ),
        cmd matches StepCmd::Backward { duty } ==> final(motor).pwm_pin.output().timestamp == share(
            duty as int,
            old(motor).pwm_pin.output().period as int,
        ),
        final(motor).pina is High <==> cmd is Forward,
        final(motor).pinb is High <==> cmd is Backward,
        final(motor).is_safe(),
{
    match cmd {
        StepCmd::Forward { duty } => {
            motor.set_duty_cycle_percent(duty);
            motor.go_forward();
        },
        StepCmd::Backward { duty } => {
            motor.set_duty_cycle_percent(duty);
            motor.go_backward();
        },
        StepCmd::Stop => {
            motor.stop();
        },
    }
}

// ---------------------------------------------------------------------------
// Handing out the operators
// ---------------------------------------------------------------------------

/// How a timer is clocked: it counts from 0 to `period`, `frequency` times a second.
#[derive(Clone, Copy, Debug, PartialEq, Eq, Structural)]
pub struct TimerClock {
    pub period: u16,
    pub frequency: u32,
}

/// A timer of the peripheral.
pub struct Timer {
    clock: Option<TimerClock>,
}

/// An operator of the peripheral.
pub struct Operator {
    period: u16,
}

/// Hands out the three operators of an MCPWM peripheral, the first one first. `SLOTS` of them
/// are still free, so that one too many is a type error.
///
/// Three calls of `spawn` use all of them up, and `finish` gives the motors in that order.
pub struct MotorSpawner<const SLOTS: u8, Motor> {
    op0: Option<Operator>,
    op1: Option<Operator>,
    op2: Option<Operator>,
    timer0: Option<Timer>,
    timer1: Option<Timer>,
    timer2: Option<Timer>,
    /// The clock that the timer of each operator was started with.
    started: [Option<TimerClock>; 3],
    collected: [Option<Motor>; 3],
}

/// The clock that a kind of motor asks for on an operator.
pub open spec fn clock_of<M: PwmController>(operator: int) -> TimerClock {
    TimerClock {
        period: (M::mapping(operator).0 - 1) as u16,
        frequency: M::mapping(operator).1,
    }
}

/// The pin of an operator that was just started for a kind of motor.
pub open spec fn fresh_pin<M: PwmController>(operator: int) -> ErasedPwmPin {
    let output = PwmPin { period: clock_of::<M>(operator).period, timestamp: 0 };
    if operator == 0 {
        ErasedPwmPin::Op0(output)
    } else if operator == 1 {
        ErasedPwmPin::Op1(output)
    } else {
        ErasedPwmPin::Op2(output)
    }
}

/// The clock that a kind of motor asks for on an operator.
pub fn operator_clock<M: PwmController>(operator: usize) -> (clock: TimerClock)
    requires
        operator < 3,
    ensures
        clock == clock_of::<M>(operator as int),
{
    TimerClock {
        period: M::timer_period(operator) - 1,
        frequency: M::timer_frequency(operator),
    }
}

impl MotorSpawner<3, ServoMotor> {
    /// All operators free, for servos.
    pub fn new_servo() -> (spawner: Self)
        ensures
            spawner.wf(),
    {
        new_spawner()
    }
}

impl MotorSpawner<3, StepMotorBuilder> {
    /// All operators free, for stepper motors.
    pub fn new_step() -> (spawner: Self)
        ensures
            spawner.wf(),
    {
        new_spawner()
    }
}

fn new_spawner<M>() -> (spawner: MotorSpawner<3, M>)
    ensures
        spawner.wf(),
{
    MotorSpawner {
        op0: Some(Operator { period: 0 }),
        op1: Some(Operator { period: 0 }),
        op2: Some(Operator { period: 0 }),
        timer0: Some(Timer { clock: None }),
        timer1: Some(Timer { clock: None }),
        timer2: Some(Timer { clock: None }),
        started: [None, None, None],
        collected: [None, None, None],
    }
}

impl<const SLOTS: u8, M> MotorSpawner<SLOTS, M> {
    /// The motor made on each operator so far.
    pub closed spec fn motors(&self) -> Seq<Option<M>> {
        self.collected@
    }

    /// The operators that are still free.
    pub closed spec fn operators(&self) -> Seq<Option<Operator>> {
        seq![self.op0, self.op1, self.op2]
    }

    /// The timers that are still free.
    pub closed spec fn timers(&self) -> Seq<Option<Timer>> {
        seq![self.timer0, self.timer1, self.timer2]
    }

    /// The clock that the timer of each operator was started with.
    pub closed spec fn started(&self) -> Seq<Option<TimerClock>> {
        self.started@
    }

    /// The last `SLOTS` operators are free, with timers that do not run; the others have a
    /// motor and a running timer.
    pub open spec fn wf(&self) -> bool {
        &&& SLOTS <= 3
        &&& self.operators().len() == 3
        &&& self.timers().len() == 3
        &&& self.started().len() == 3
        &&& self.motors().len() == 3
        &&& forall|operator: int|
            0 <= operator < 3 ==> (#[trigger] self.operators()[operator] is Some <==> operator >= 3
                - SLOTS)
        &&& forall|operator: int|
            0 <= operator < 3 ==> (#[trigger] self.timers()[operator] is Some <==> operator >= 3
                - SLOTS)
        &&& forall|operator: int|
            0 <= operator < 3 && operator >= 3 - SLOTS ==> (
            #[trigger] self.timers()[operator])->0.clock() is None
        &&& forall|operator: int|
            0 <= operator < 3 ==> (#[trigger] self.started()[operator] is Some <==> operator < 3
                - SLOTS)
        &&& forall|operator: int|
            0 <= operator < 3 ==> (#[trigger] self.motors()[operator] is Some <==> operator < 3
                - SLOTS)
    }

    /// Whether `self` is what `before` becomes when a motor is made on an operator: the
    /// operator and its timer are taken, the timer was started with `clock`, and there is a
    /// motor. Everything else is as it was.
    pub open spec fn has_taken<const BEFORE: u8>(
        &self,
        before: MotorSpawner<BEFORE, M>,
        operator: int,
        clock: TimerClock,
    ) -> bool {
        &&& self.operators() == before.operators().update(operator, None)
        &&& self.timers() == before.timers().update(operator, None)
        &&& self.started() == before.started().update(operator, Some(clock))
        &&& self.motors() == before.motors().update(operator, self.motors()[operator])
        &&& self.motors()[operator] is Some
    }
}

impl Timer {
    /// The clock that the timer runs on, where it runs.
    pub closed spec fn clock(&self) -> Option<TimerClock> {
        self.clock
    }
}

impl Timer {
    fn start(&mut self, clock: TimerClock)
        ensures
            final(self).clock == Some(clock),
    {
        self.clock = Some(clock);
    }
}

impl Operator {
    /// Takes over the period of a timer.
    fn set_timer(&mut self, timer: &Timer)
        requires
            timer.clock is Some,
        ensures
            final(self).period == timer.clock->0.period,
    {
        if let Some(clock) = timer.clock {
            self.period = clock.period;
        }
    }

    /// Gives up the operator for a pin that it drives.
    fn with_pin_a(self) -> (pin: PwmPin)
        ensures
            pin == (PwmPin { period: self.period, timestamp: 0 }),
    {
        PwmPin { period: self.period, timestamp: 0 }
    }
}

impl<const SLOTS: u8, M: PwmController> MotorSpawner<SLOTS, M> {
    fn start_timer_for_operator(operator_index: usize, timer: &mut Timer)
        requires
            operator_index < 3,
        ensures
            final(timer).clock == Some(clock_of::<M>(operator_index as int)),
    {
        timer.start(operator_clock::<M>(operator_index));
    }

    /// Makes a motor on a free operator.
    fn spawn_op(self, operator_index: usize, initial_angle: i32) -> (next: Self)
        requires
            operator_index < 3,
            self.operators()[operator_index as int] is Some,
            self.timers()[operator_index as int] is Some,
        ensures
            next.operators() == self.operators().update(operator_index as int, None),
            next.timers() == self.timers().update(operator_index as int, None),
            next.started() == self.started().update(
                operator_index as int,
                Some(clock_of::<M>(operator_index as int)),
            ),
            next.has_taken(self, operator_index as int, clock_of::<M>(operator_index as int)),
            next.motors()[operator_index as int] matches Some(motor) && motor.is_made_of(
                fresh_pin::<M>(operator_index as int),
                initial_angle,
            ),
    {
        let mut next = self;
        let pwm_pin = if operator_index == 0 {
            let mut op = next.op0.take().unwrap();
            let mut timer = next.timer0.take().unwrap();
            Self::start_timer_for_operator(0, &mut timer);
            next.started[0] = timer.clock;
            op.set_timer(&timer);
            ErasedPwmPin::Op0(op.with_pin_a())
        } else if operator_index == 1 {
            let mut op = next.op1.take().unwrap();
            let mut timer = next.timer1.take().unwrap();
            Self::start_timer_for_operator(1, &mut timer);
            next.started[1] = timer.clock;
            op.set_timer(&timer);
            ErasedPwmPin::Op1(op.with_pin_a())
        } else {
            let mut op = next.op2.take().unwrap();
            let mut timer = next.timer2.take().unwrap();
            Self::start_timer_for_operator(2, &mut timer);
            next.started[2] = timer.clock;
            op.set_timer(&timer);
            ErasedPwmPin::Op2(op.with_pin_a())
        };
        next.collected[operator_index] = Some(M::new(pwm_pin, initial_angle));
        assert(next.operators() =~= self.operators().update(operator_index as int, None));
        assert(next.timers() =~= self.timers().update(operator_index as int, None));
        next
    }

    /// The same operators and motors, counted as `NEW_SLOT` free ones.
    fn update_slot<const NEW_SLOT: u8>(self) -> (next: MotorSpawner<NEW_SLOT, M>)
        ensures
            next.operators() == self.operators(),
            next.timers() == self.timers(),
            next.started() == self.started(),
            next.motors() == self.motors(),
    {
        MotorSpawner {
            op0: self.op0,
            op1: self.op1,
            op2: self.op2,
            timer0: self.timer0,
            timer1: self.timer1,
            timer2: self.timer2,
            started: self.started,
            collected: self.collected,
        }
    }
}

impl<M: PwmController> MotorSpawner<3, M> {
    /// Makes a motor on the first operator; without an angle it starts at 0.
    pub fn spawn(self, initial_angle: Option<i32>) -> (next: MotorSpawner<2, M>)
        requires
            self.wf(),
        ensures
            next.wf(),
            next.has_taken(self, 0, clock_of::<M>(0)),
            next.motors()[0] matches Some(motor) && motor.is_made_of(
                fresh_pin::<M>(0),
                angle_or_zero(initial_angle),
            ),
    {
        let initial_angle: i32 = initial_angle.unwrap_or(0);
        let next = self.spawn_op(0, initial_angle);
        next.update_slot()
    }
}

/// `angle`, or 0 where there is none.
pub open spec fn angle_or_zero(angle: Option<i32>) -> i32 {
    match angle {
        Some(angle) => angle,
        None => 0,
    }
}

impl<M: PwmController> MotorSpawner<2, M> {
    /// Makes a motor on the second operator; without an angle it starts at 0.
    pub fn spawn(self, initial_angle: Option<i32>) -> (next: MotorSpawner<1, M>)
        requires
            self.wf(),
        ensures
            next.wf(),
            next.has_taken(self, 1, clock_of::<M>(1)),
            next.motors()[0] == self.motors()[0],
            next.motors()[1] matches Some(motor) && motor.is_made_of(
                fresh_pin::<M>(1),
                angle_or_zero(initial_angle),
            ),
    {
        let initial_angle: i32 = initial_angle.unwrap_or(0);
        let next = self.spawn_op(1, initial_angle);
        next.update_slot()
    }

    /// The motor made so far.
    pub fn finish(self) -> (motor: M)
        requires
            self.wf(),
        ensures
            Some(motor) == self.motors()[0],
    {
        let mut collected = self.collected;
        collected[0].take().unwrap()
    }
}

impl<M: PwmController> MotorSpawner<1, M> {
    /// Makes a motor on the third operator; without an angle it starts at 0.
    pub fn spawn(self, initial_angle: Option<i32>) -> (next: MotorSpawner<0, M>)
        requires
            self.wf(),
        ensures
            next.wf(),
            next.has_taken(self, 2, clock_of::<M>(2)),
            next.motors()[0] == self.motors()[0],
            next.motors()[1] == self.motors()[1],
            next.motors()[2] matches Some(motor) && motor.is_made_of(
                fresh_pin::<M>(2),
                angle_or_zero(initial_angle),
            ),
    {
        let initial_angle: i32 = initial_angle.unwrap_or(0);
        let next = self.spawn_op(2, initial_angle);
        next.update_slot()
    }

    /// The motors made so far, the first one first.
    pub fn finish(self) -> (motors: (M, M))
        requires
            self.wf(),
        ensures
            Some(motors.0) == self.motors()[0],
            Some(motors.1) == self.motors()[1],
    {
        let mut collected = self.collected;
        (collected[0].take().unwrap(), collected[1].take().unwrap())
    }
}

impl<M: PwmController> MotorSpawner<0, M> {
    /// All three motors, the first one first.
    pub fn finish(self) -> (motors: (M, M, M))
        requires
            self.wf(),
        ensures
            Some(motors.0) == self.motors()[0],
            Some(motors.1) == self.motors()[1],
            Some(motors.2) == self.motors()[2],
    {
        let mut collected = self.collected;
        (
            collected[0].take().unwrap(),
            collected[1].take().unwrap(),
            collected[2].take().unwrap(),
        )
    }
}

// ---------------------------------------------------------------------------
// Laws
// ---------------------------------------------------------------------------

/// A pin belongs to the operator of its name, and keeps its output.
pub proof fn law_a_pin_belongs_to_the_operator_of_its_name(output: PwmPin)
    ensures
        ErasedPwmPin::Op0(output).operator() == 0,
        ErasedPwmPin::Op1(output).operator() == 1,
        ErasedPwmPin::Op2(output).operator() == 2,
        ErasedPwmPin::Op0(output).output() == output,
        ErasedPwmPin::Op1(output).output() == output,
        ErasedPwmPin::Op2(output).output() == output,
{
}

/// Every operator runs at 50 Hz with 20000 ticks to a period for servos, and at 1 kHz with 100
/// ticks for steppers; counting from zero, the last tick is one less.
pub proof fn law_operators_run_as_their_motors_need(operator: int)
    requires
        0 <= operator < 3,
    ensures
        clock_of::<ServoMotor>(operator).frequency == 50,
        clock_of::<ServoMotor>(operator).period + 1 == 20_000,
        clock_of::<StepMotorBuilder>(operator).frequency == 1_000,
        clock_of::<StepMotorBuilder>(operator).period + 1 == 100,
{
}

/// The pin of an operator that was just started belongs to that operator, has the period of its
/// timer, and is low.
pub proof fn law_a_fresh_pin_is_low<M: PwmController>(operator: int)
    requires
        0 <= operator < 3,
    ensures
        fresh_pin::<M>(operator).operator() == operator,
        fresh_pin::<M>(operator).output().period == M::mapping(operator).0 - 1,
        fresh_pin::<M>(operator).output().timestamp == 0,
{
    M::lemma_mappings();
    assert(M::mapping(operator).0 > 0);
}

/// A motor is made of the pin it is given. A servo stands at its initial angle, has nowhere to
/// go and is fast.
pub proof fn law_a_new_motor_is_at_rest(
    servo: ServoMotor,
    stepper: StepMotorBuilder,
    pin: ErasedPwmPin,
    initial_angle: i32,
)
    ensures
        servo.is_made_of(pin, initial_angle) ==> servo.output_pin() == pin && servo.servo().angle
            == initial_angle && servo.servo().target_angle == initial_angle
            && servo.servo().pending.len() == 0 && servo.servo().speed is Fast,
        stepper.is_made_of(pin, initial_angle) ==> stepper.pin() == pin,
{
}

/// A motor that is given an angle starts there, whatever the angle; another starts at zero.
pub proof fn law_a_motor_starts_where_it_is_told(angle: i32)
    ensures
        angle_or_zero(Some(angle)) == angle,
        angle_or_zero(None) == 0,
{
}

/// Making a motor on one operator leaves the others alone.
pub proof fn law_operators_do_not_disturb_each_other<const BEFORE: u8, const AFTER: u8, M>(
    before: MotorSpawner<BEFORE, M>,
    after: MotorSpawner<AFTER, M>,
    operator: int,
    other: int,
    clock: TimerClock,
)
    requires
        before.wf(),
        after.has_taken(before, operator, clock),
        0 <= operator < 3,
        0 <= other < 3,
    ensures
        after.operators()[operator] is None,
        after.timers()[operator] is None,
        after.started()[operator] == Some(clock),
        after.motors()[operator] is Some,
        other != operator ==> after.operators()[other] == before.operators()[other],
        other != operator ==> after.timers()[other] == before.timers()[other],
        other != operator ==> after.started()[other] == before.started()[other],
        other != operator ==> after.motors()[other] == before.motors()[other],
{
}

} // verus!
