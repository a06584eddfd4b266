//! The one computation of the buzzer driver: the timer period that
//! makes the PWM counter wrap at the requested tone frequency, given
//! the system clock and the driver's fixed divider of sixteen.

use vstd::prelude::*;

verus! {

/// The divider the buzzer PWM runs with.
pub const PWM_DIVIDER: u32 = 16;

/// The period the PWM counter must wrap at so that, divided down by
/// [`PWM_DIVIDER`], the system clock completes one cycle per period at
/// the requested frequency: the divided ticks per cycle, less the one
/// tick the wrap itself takes.
pub open spec fn spec_pwm_period(clk_sys_freq: u32, frequency: u16) -> int {
    clk_sys_freq as int / (frequency as int * PWM_DIVIDER as int) - 1
}

/// Computes the PWM period of a tone; see [`spec_pwm_period`].  The
/// frequency must be audible on the given clock: at least one divided
/// tick per cycle, and a period that fits the counter.
pub fn pwm_period(clk_sys_freq: u32, frequency: u16) -> (r: u16)
    requires
        frequency >= 1,
        spec_pwm_period(clk_sys_freq, frequency) >= 0,
        spec_pwm_period(clk_sys_freq, frequency) < u16::MAX as int,
    ensures
        r as int == spec_pwm_period(clk_sys_freq, frequency),
{
    (clk_sys_freq / (frequency as u32 * PWM_DIVIDER)) as u16 - 1
}

} // verus!
