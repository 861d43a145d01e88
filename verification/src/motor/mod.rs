//! Motors: what the servo and DC drivers share.
use vstd::prelude::*;

pub mod dc_motor;
pub mod ledc;
pub mod ledc_motor;
pub mod mcpwm_motor;
pub mod servo;
pub mod step_motor;

verus! {

/// `embassy_time::Duration` is carried from a command to the pause it asks for, and never
/// looked into.
#[verifier::external_type_specification]
#[verifier::external_body]
pub struct ExDuration(embassy_time::Duration);

/// How fast a servo sweeps: the pause between two neighbouring angles.
#[derive(Clone, Copy)]
pub enum Speed {
    Slow,
    Normal,
    Fast,
    Instant,
    Custom(embassy_time::Duration),
}

/// A command to a servo.
pub enum ServoCmd {
    TurnToAngle(i32),
    SetSpeed(Speed),
}

/// The shortest pulse, 2.5% of the period: the servo at 0 degrees.
pub open spec fn min_duty(max_duty_cycle: int) -> int {
    25 * max_duty_cycle / 1000
}

/// The longest pulse, 12.5% of the period: the servo at 180 degrees.
pub open spec fn max_duty(max_duty_cycle: int) -> int {
    125 * max_duty_cycle / 1000
}

/// The pulse for `deg` degrees: linear between the two ends, rounded down.
pub open spec fn duty_at(deg: int, max_duty_cycle: int) -> int {
    min_duty(max_duty_cycle) + deg * (max_duty(max_duty_cycle) - min_duty(max_duty_cycle)) / 180
}

/// The duty that turns a servo to `deg` degrees, where `max_duty_cycle` is a whole period.
/// Only the low sixteen bits of the duty are kept.
pub fn duty_from_angle(deg: u32, max_duty_cycle: u32) -> (duty: u16)
    requires
        125 * max_duty_cycle <= u32::MAX,
        deg * (max_duty(max_duty_cycle as int) - min_duty(max_duty_cycle as int)) <= u32::MAX,
        duty_at(deg as int, max_duty_cycle as int) <= u32::MAX,
    ensures
        duty == duty_at(deg as int, max_duty_cycle as int) % 0x1_0000,
        deg <= 180 && max_duty_cycle <= u16::MAX ==> duty == duty_at(
            deg as int,
            max_duty_cycle as int,
        ),
{
    let min_duty: u32 = (25 * max_duty_cycle) / 1000;
    let max_duty: u32 = (125 * max_duty_cycle) / 1000;
    let duty_gap: u32 = max_duty - min_duty;
    assert(0 <= deg * duty_gap) by (nonlinear_arith);
    let duty: u32 = min_duty + (deg * duty_gap) / 180;
    proof {
        if deg <= 180 && max_duty_cycle <= u16::MAX {
            law_duty_is_within_the_pulse_range(deg as int, max_duty_cycle as int);
        }
    }
    assert(#[verifier::truncate] (duty as u16) == duty % 0x1_0000u32) by (bit_vector);
    #[verifier::truncate] (duty as u16)
}

/// A pulse for an angle from 0 to 180 degrees lies between the shortest and the longest pulse,
/// and meets them at the two ends.
pub proof fn law_duty_is_within_the_pulse_range(deg: int, max_duty_cycle: int)
    requires
        0 <= deg <= 180,
        0 <= max_duty_cycle,
    ensures
        min_duty(max_duty_cycle) <= duty_at(deg, max_duty_cycle) <= max_duty(max_duty_cycle),
        duty_at(0, max_duty_cycle) == min_duty(max_duty_cycle),
        duty_at(180, max_duty_cycle) == max_duty(max_duty_cycle),
{
    let gap = max_duty(max_duty_cycle) - min_duty(max_duty_cycle);
    assert(0 <= deg * gap <= 180 * gap) by (nonlinear_arith)
        requires
            0 <= deg <= 180,
            0 <= gap,
    ;
    assert(0 * gap == 0) by (nonlinear_arith);
}

/// A larger angle never gets a shorter pulse.
pub proof fn law_duty_grows_with_the_angle(low: int, high: int, max_duty_cycle: int)
    requires
        low <= high,
        0 <= max_duty_cycle,
    ensures
        duty_at(low, max_duty_cycle) <= duty_at(high, max_duty_cycle),
{
    let gap = max_duty(max_duty_cycle) - min_duty(max_duty_cycle);
    assert(low * gap <= high * gap) by (nonlinear_arith)
        requires
            low <= high,
            0 <= gap,
    ;
}

/// A longer period never gets a shorter pulse for the same angle.
pub proof fn law_duty_grows_with_the_period(deg: int, low: int, high: int)
    requires
        0 <= deg,
        0 <= low <= high,
    ensures
        duty_at(deg, low) <= duty_at(deg, high),
{
    let low_gap = max_duty(low) - min_duty(low);
    let high_gap = max_duty(high) - min_duty(high);
    assert(low_gap == low / 8 - low / 8 / 5);
    assert(high_gap == high / 8 - high / 8 / 5);
    assert(deg * low_gap <= deg * high_gap) by (nonlinear_arith)
        requires
            0 <= deg,
            low_gap <= high_gap,
    ;
}

/// The pulse for an angle lies on the line between the shortest and the longest pulse, which
/// are a fortieth and an eighth of the period: all three are rounded down to a whole tick.
pub proof fn law_duty_lies_on_the_line_between_the_ends(
    deg: int,
    max_duty_cycle: int,
    shortest: int,
    longest: int,
)
    requires
        0 <= deg,
        0 <= max_duty_cycle,
        40 * shortest <= max_duty_cycle < 40 * (shortest + 1),
        8 * longest <= max_duty_cycle < 8 * (longest + 1),
    ensures
        180 * (duty_at(deg, max_duty_cycle) - shortest) <= deg * (longest - shortest),
        deg * (longest - shortest) < 180 * (duty_at(deg, max_duty_cycle) - shortest + 1),
        duty_at(0, max_duty_cycle) == shortest,
        duty_at(180, max_duty_cycle) == longest,
{
    assert(min_duty(max_duty_cycle) == shortest);
    assert(max_duty(max_duty_cycle) == longest);
    let gap = longest - shortest;
    assert(0 * gap == 0) by (nonlinear_arith);
    assert(0 <= deg * gap) by (nonlinear_arith)
        requires
            0 <= deg,
            0 <= gap,
    ;
}

/// `percent` hundredths of a whole, rounded down.
pub open spec fn share(percent: int, whole: int) -> int {
    percent * whole / 100
}

/// A share in percent is the largest whole number that does not exceed it: nothing at 0 percent
/// and everything at 100.
pub proof fn law_a_share_is_in_hundredths(percent: int, whole: int)
    requires
        0 <= percent <= 100,
        0 <= whole,
    ensures
        100 * share(percent, whole) <= percent * whole < 100 * (share(percent, whole) + 1),
        0 <= share(percent, whole) <= whole,
        share(0, whole) == 0,
        share(100, whole) == whole,
{
    assert(0 <= percent * whole <= 100 * whole) by (nonlinear_arith)
        requires
            0 <= percent <= 100,
            0 <= whole,
    ;
    assert(0 * whole == 0) by (nonlinear_arith);
}

} // verus!
