//! Periodic-timer configuration and the sample-to-reload transform.
//!
//! At startup the tick timer is programmed from the ratio of the bus clock
//! to the desired tick frequency: a 16-bit prescaler chosen so the
//! remaining ratio fits the 16-bit reload register.  Afterwards every tick
//! recomputes the reload value from the latest analog sample through an
//! affine map, saturated into the register's range.

use vstd::prelude::*;
use vstd::arithmetic::div_mod::lemma_fundamental_div_mod;

verus! {

/// Prescaler and auto-reload values for a 16-bit periodic timer.  The tick
/// period is `(prescaler + 1) * reload` bus-clock cycles, to within the
/// rounding of the startup division.
#[derive(Clone, Copy, PartialEq, Eq, Structural, Debug)]
pub struct TimerConfig {
    pub prescaler: u16,
    pub reload: u16,
}

/// Whether the clock ratio `bus_freq / tick_freq` admits a 16-bit
/// prescaler at all: the ratio must be at least 1, and spreading it over
/// 16-bit reload steps must not need more than 65536 of them.
pub open spec fn ratio_fits(ratio: int) -> bool {
    1 <= ratio && (ratio - 1) / 0xffff <= 0xffff
}

/// The configuration computed from a clock ratio: the smallest prescaler
/// that brings the reload under 17 bits, then the rounded reload.
pub open spec fn config_of_ratio(ratio: int) -> TimerConfig {
    let p = (ratio - 1) / 0xffff;
    TimerConfig { prescaler: p as u16, reload: (ratio / (p + 1)) as u16 }
}

/// Derives the timer configuration for one tick per `tick_freq`-th of a
/// second on a `bus_freq` clock, or `None` when the ratio is out of the
/// registers' range.
pub fn compute_timer_config(bus_freq: u32, tick_freq: u32) -> (r: Option<TimerConfig>)
    requires
        tick_freq > 0,
    ensures
        r is Some <==> ratio_fits(bus_freq as int / tick_freq as int),
        r is Some ==> r->Some_0 == config_of_ratio(bus_freq as int / tick_freq as int),
{
    let ratio: u32 = bus_freq / tick_freq;
    if ratio == 0 {
        return None;
    }
    let p: u32 = (ratio - 1) / 0xffff;
    if p > 0xffff {
        return None;
    }
    let reload: u32 = ratio / (p + 1);
    proof {
        lemma_fundamental_div_mod((ratio - 1) as int, 0xffff);
        assert(reload <= 0xffff) by (nonlinear_arith)
            requires
                ratio - 1 == 0xffff * p + (ratio - 1) % 0xffff,
                0 <= (ratio - 1) % 0xffff < 0xffff,
                reload == ratio as int / (p + 1) as int,
                0 <= p,
                ratio >= 1;
    }
    Some(TimerConfig { prescaler: p as u16, reload: reload as u16 })
}

/// The affine sample-to-reload map before saturation, as a plain integer.
pub open spec fn affine_reload(coeff: int, intercept: int, sample: int) -> int {
    coeff * sample - intercept
}

/// `affine_reload` saturated into the 16-bit reload register's range.
pub open spec fn saturated_reload(coeff: int, intercept: int, sample: int) -> int {
    let v = affine_reload(coeff, intercept, sample);
    if v < 0 {
        0
    } else if v > 0xffff {
        0xffff
    } else {
        v
    }
}

/// Maps one analog sample to the next timer reload value:
/// `coeff * sample - intercept`, saturating at the register bounds rather
/// than wrapping (an out-of-range product or a sample below the intercept
/// pins the reload at an end of the range).
pub fn compute_reload(coeff: u16, intercept: u16, sample: u16) -> (reload: u16)
    ensures
        reload == saturated_reload(coeff as int, intercept as int, sample as int),
{
    assert(coeff * sample <= 0xffff * 0xffff) by (nonlinear_arith)
        requires
            coeff <= 0xffff,
            sample <= 0xffff;
    let product: u32 = coeff as u32 * sample as u32;
    if product < intercept as u32 {
        0
    } else if product - intercept as u32 > 0xffff {
        0xffff
    } else {
        (product - intercept as u32) as u16
    }
}

} // verus!
