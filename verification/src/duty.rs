//! Duty-level encoding for one channel.
//!
//! A duty level is a tick count in `[0, 4095]` within the 4096-tick PWM
//! period.  The boundary levels use the chip's documented "always" sentinel
//! 4096: fully off puts 4096 in the OFF slot, fully on puts 4096 in the ON
//! slot.  Every other level maps linearly with ON fixed at 0.

use vstd::prelude::*;

verus! {

/// On/off tick pair a duty level encodes to.  Levels above 4095 clamp to
/// 4095 before the boundary logic runs.
pub open spec fn spec_duty(on_tick: u16, invert: bool) -> (u16, u16) {
    let t = if on_tick > 4095 {
        4095u16
    } else {
        on_tick
    };
    if !invert {
        if t == 0 {
            (0u16, 4096u16)
        } else if t == 4095 {
            (4096u16, 0u16)
        } else {
            (0u16, t)
        }
    } else {
        if t == 4095 {
            (0u16, 4096u16)
        } else if t == 0 {
            (4096u16, 0u16)
        } else {
            (0u16, (4095 - t) as u16)
        }
    }
}

/// High byte of a 13-bit tick value.
pub open spec fn tick_high(t: u16) -> u8 {
    (t >> 8) as u8
}

/// Low byte of a 13-bit tick value.
pub open spec fn tick_low(t: u16) -> u8 {
    (t & 0xFF) as u8
}

/// Computes the on/off tick pair for a duty level with optional inversion.
pub fn duty_ticks(on_tick: u16, invert: bool) -> (r: (u16, u16))
    ensures
        r == spec_duty(on_tick, invert),
{
    let t: u16 = if on_tick > 4095 {
        4095
    } else {
        on_tick
    };
    if !invert {
        if t == 0 {
            (0, 4096)
        } else if t == 4095 {
            (4096, 0)
        } else {
            (0, t)
        }
    } else {
        if t == 4095 {
            (0, 4096)
        } else if t == 0 {
            (4096, 0)
        } else {
            (0, 4095 - t)
        }
    }
}

/// Splits a tick value into its (most significant, least significant)
/// register bytes.
pub fn tick_bytes(t: u16) -> (r: (u8, u8))
    ensures
        r.0 == tick_high(t),
        r.1 == tick_low(t),
{
    proof {
        assert(t >> 8 <= 0xFF && t & 0xFF <= 0xFF) by (bit_vector);
    }
    ((t >> 8) as u8, (t & 0xFF) as u8)
}

/// The two register bytes of a tick value reassemble to that value: the
/// byte encoding loses nothing.
pub proof fn lemma_tick_bytes_reassemble(t: u16)
    ensures
        tick_high(t) * 256 + tick_low(t) == t,
{
    assert(((t >> 8) as u8) * 256 + ((t & 0xFF) as u8) == t) by (bit_vector);
}

} // verus!
