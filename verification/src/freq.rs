//! Frequency-to-prescale conversion.
//!
//! The prescale register value for a target PWM frequency is the
//! round-half-up quotient of the oscillator frequency by `8192 * freq`,
//! minus one, clamped to the register's valid range.  The driver clamps a
//! computed prescale rather than rejecting it; only a zero target frequency
//! is a caller contract violation.

use vstd::prelude::*;

use crate::regs::{PRESCALE_MAX, PRESCALE_MIN};

verus! {

/// Round-half-up quotient of `clock_speed` by `8192 * freq`.
pub open spec fn spec_prescale_ratio(clock_speed: u32, freq: u16) -> int {
    (2 * clock_speed + 8192 * freq) / (16384 * freq)
}

/// The prescale a target frequency asks for, before any range clamping.
pub open spec fn spec_prescale_raw(clock_speed: u32, freq: u16) -> int {
    spec_prescale_ratio(clock_speed, freq) - 1
}

/// The raw prescale saturated into a byte, as [`prescale_from_freq`]
/// returns it.
pub open spec fn spec_prescale_saturated(clock_speed: u32, freq: u16) -> u8 {
    let raw = spec_prescale_raw(clock_speed, freq);
    if raw < 0 {
        0
    } else if raw > 255 {
        255
    } else {
        raw as u8
    }
}

/// The prescale the driver writes for a target frequency: the raw value
/// clamped to `[PRESCALE_MIN, PRESCALE_MAX]`.
pub open spec fn spec_clamped_prescale(clock_speed: u32, freq: u16) -> u8 {
    let raw = spec_prescale_raw(clock_speed, freq);
    if raw < PRESCALE_MIN {
        PRESCALE_MIN
    } else if raw > PRESCALE_MAX {
        PRESCALE_MAX
    } else {
        raw as u8
    }
}

/// Computes the prescale value for a target frequency, given the frequency
/// of the clock source driving the chip, saturating to a byte.
pub fn prescale_from_freq(clock_speed: u32, freq: u16) -> (r: u8)
    requires
        freq >= 1,
    ensures
        r == spec_prescale_saturated(clock_speed, freq),
{
    let num: u64 = 2 * (clock_speed as u64) + 8192 * (freq as u64);
    let den: u64 = 16384 * (freq as u64);
    let q: u64 = num / den;
    if q == 0 {
        0
    } else if q > 256 {
        255
    } else {
        (q - 1) as u8
    }
}

/// Lifts a prescale value to the register's minimum.  A byte can never
/// exceed `PRESCALE_MAX`, so only the lower bound needs enforcing.
pub fn clamp_prescale(prescale: u8) -> (r: u8)
    ensures
        r == if prescale < PRESCALE_MIN {
            PRESCALE_MIN
        } else {
            prescale
        },
{
    if prescale < PRESCALE_MIN {
        PRESCALE_MIN
    } else {
        prescale
    }
}

/// Saturating then clamping a computed prescale gives exactly the clamped
/// prescale of the target frequency.
pub proof fn lemma_saturate_then_clamp(clock_speed: u32, freq: u16)
    requires
        freq >= 1,
    ensures
        ({
            let s = spec_prescale_saturated(clock_speed, freq);
            (if s < PRESCALE_MIN {
                PRESCALE_MIN
            } else {
                s
            }) == spec_clamped_prescale(clock_speed, freq)
        }),
{
}

/// Clamping law: a computed prescale below the register minimum clamps up
/// to it, one above the register maximum clamps down to it, and one already
/// in range passes through unchanged.
pub proof fn lemma_prescale_clamping(clock_speed: u32, freq: u16)
    requires
        freq >= 1,
    ensures
        PRESCALE_MIN <= spec_clamped_prescale(clock_speed, freq),
        spec_clamped_prescale(clock_speed, freq) <= PRESCALE_MAX,
        spec_prescale_raw(clock_speed, freq) < PRESCALE_MIN ==> spec_clamped_prescale(
            clock_speed,
            freq,
        ) == PRESCALE_MIN,
        spec_prescale_raw(clock_speed, freq) > PRESCALE_MAX ==> spec_clamped_prescale(
            clock_speed,
            freq,
        ) == PRESCALE_MAX,
        PRESCALE_MIN <= spec_prescale_raw(clock_speed, freq) <= PRESCALE_MAX
            ==> spec_clamped_prescale(clock_speed, freq) == spec_prescale_raw(clock_speed, freq),
{
}

} // verus!
