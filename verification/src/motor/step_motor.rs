//! The pulses of a stepper motor with a step pin and a direction pin.
use vstd::prelude::*;

use crate::gpio::Level;

verus! {

/// Full steps in one turn of the shaft, at 1.8 degrees each.
pub const STEPS_PER_REV: u32 = 200;

/// What speed a motor heads for.
#[derive(Clone, Copy, Debug, PartialEq, Eq, Structural)]
pub enum Target {
    /// The lowest speed in the direction in which it turns.
    Brake,
    /// The speed that was asked for.
    Requested,
}

/// What speed a motor heads for, given the direction that was asked for and the one in which it
/// turns; `true` is forward, and a speed that is not a number has no direction. A motor that
/// has to turn round brakes first.
pub fn retarget(requested: Option<bool>, current: Option<bool>) -> (target: Target)
    ensures
        target == (if requested is Some && requested == current {
            Target::Requested
        } else {
            Target::Brake
        }),
{
    match (requested, current) {
        (Some(requested), Some(current)) => {
            if requested == current {
                Target::Requested
            } else {
                Target::Brake
            }
        },
        _ => Target::Brake,
    }
}

/// One step: the level of the direction pin, and how long the step pin is high, and low again
/// after that, in microseconds.
#[derive(Clone, Copy, Debug, PartialEq, Eq, Structural)]
pub struct StepPulse {
    pub dir: Level,
    pub half_delay: u64,
}

/// One step in the given direction.
pub open spec fn pulse_of(forward: bool, step_micros: u128) -> StepPulse {
    StepPulse {
        dir: if forward {
            Level::High
        } else {
            Level::Low
        },
        half_delay: (step_micros % 0x1_0000_0000_0000_0000 / 2) as u64,
    }
}

/// One step in the given direction. The pin is high for half of the time between two steps;
/// of that time the lower 64 bits count.
pub fn step_pulse(forward: bool, step_micros: u128) -> (pulse: StepPulse)
    ensures
        pulse.dir == (if forward {
            Level::High
        } else {
            Level::Low
        }),
        pulse.half_delay == (step_micros % 0x1_0000_0000_0000_0000) / 2,
        pulse == pulse_of(forward, step_micros),
{
    assert(step_micros as u64 == step_micros % 0x1_0000_0000_0000_0000) by (bit_vector);
    let dir = if forward {
        Level::High
    } else {
        Level::Low
    };
    StepPulse { dir, half_delay: #[verifier::truncate] (step_micros as u64) / 2 }
}

/// The two halves of a step take as long as the whole step, up to a microsecond that is lost
/// where it cannot be halved.
pub proof fn law_the_halves_make_up_the_step(step_micros: u128, half_delay: u64)
    requires
        step_micros <= u64::MAX,
        half_delay == (step_micros % 0x1_0000_0000_0000_0000) / 2,
    ensures
        step_micros - 1 <= 2 * half_delay <= step_micros,
{
}

/// A step takes twice its half delay, up to a microsecond that is lost where it cannot be
/// halved. Its time is told in 64 bits: a longer one is short of a multiple of two to the power
/// of 64. The direction pin is high for a step forward, whatever its time.
pub proof fn law_a_pulse_takes_half_of_its_step(forward: bool, step_micros: u128, rounds: int)
    requires
        0 <= rounds,
        rounds * 0x1_0000_0000_0000_0000 <= step_micros < (rounds + 1) * 0x1_0000_0000_0000_0000,
    ensures
        pulse_of(forward, step_micros).dir is High <==> forward,
        2 * pulse_of(forward, step_micros).half_delay <= step_micros - rounds
            * 0x1_0000_0000_0000_0000 < 2 * pulse_of(forward, step_micros).half_delay + 2,
{
}

} // verus!
