//! Mode-register byte transforms: the decisions of the register-sequencing
//! protocol, as pure functions from the byte read back to the byte to write.
//!
//! A transport running against real hardware makes the same decisions by
//! calling the executable functions here; the verified controller uses them
//! against the in-memory transport model.

use vstd::prelude::*;

use crate::mode1;
use crate::mode2;
use crate::regs::LED0_ON_L;

verus! {

/// Base register of a channel's four on/off byte registers.
pub fn channel_base(channel: u8) -> (r: u8)
    requires
        channel <= 15,
    ensures
        r == LED0_ON_L + 4 * channel,
{
    LED0_ON_L + 4 * channel
}

/// Whether a MODE1 byte has the SLEEP bit set.
pub open spec fn is_asleep(mode: u8) -> bool {
    mode & mode1::SLEEP != 0
}

/// A MODE1 byte with SLEEP set.
pub open spec fn with_sleep(mode: u8) -> u8 {
    mode | mode1::SLEEP
}

/// A MODE1 byte with SLEEP cleared.
pub open spec fn without_sleep(mode: u8) -> u8 {
    mode & !mode1::SLEEP
}

/// A MODE1 byte with EXTCLK set.
pub open spec fn with_extclk(mode: u8) -> u8 {
    mode | mode1::EXTCLK
}

/// The MODE1 byte the driver restores after a prescale write: SLEEP
/// cleared, RESTART and AI set.  Re-enabling auto-increment here matters:
/// multi-byte channel writes rely on it, and a frequency change would
/// silently break them otherwise.
pub open spec fn restart_mode(mode: u8) -> u8 {
    (mode & !mode1::SLEEP) | mode1::RESTART | mode1::AI
}

/// The MODE1 byte after the sleep operation ran.
pub open spec fn mode1_after_sleep(mode: u8) -> u8 {
    if is_asleep(mode) {
        mode
    } else {
        with_sleep(mode)
    }
}

/// What sleep writes to MODE1: nothing when SLEEP is already set.
pub open spec fn spec_sleep_command(mode: u8) -> Option<u8> {
    if is_asleep(mode) {
        None
    } else {
        Some(with_sleep(mode))
    }
}

/// Whether a MODE2 byte drives the outputs open-drain (OUTDRV clear).
pub open spec fn is_open_drain(mode: u8) -> bool {
    mode & mode2::OUTDRV == 0
}

/// The MODE2 byte realizing the requested output mode.
pub open spec fn mode2_with_output(mode: u8, open_drain: bool) -> u8 {
    if open_drain {
        mode & !mode2::OUTDRV
    } else {
        mode | mode2::OUTDRV
    }
}

/// What set-output-mode writes to MODE2: nothing when the requested mode is
/// already in effect.
pub open spec fn spec_output_mode_command(mode: u8, open_drain: bool) -> Option<u8> {
    if is_open_drain(mode) == open_drain {
        None
    } else {
        Some(mode2_with_output(mode, open_drain))
    }
}

/// Decides the sleep write from the MODE1 byte read back.
pub fn sleep_command(mode: u8) -> (r: Option<u8>)
    ensures
        r == spec_sleep_command(mode),
{
    if mode & mode1::SLEEP != 0 {
        None
    } else {
        Some(mode | mode1::SLEEP)
    }
}

/// The MODE1 byte that wakes the chip: SLEEP cleared.
pub fn wake_value(mode: u8) -> (r: u8)
    ensures
        r == without_sleep(mode),
{
    mode & !mode1::SLEEP
}

/// The MODE1 byte restored after a prescale write: SLEEP cleared, RESTART
/// and AI set.
pub fn restart_value(mode: u8) -> (r: u8)
    ensures
        r == restart_mode(mode),
{
    (mode & !mode1::SLEEP) | mode1::RESTART | mode1::AI
}

/// The MODE1 byte selecting the EXTCLK pin.
pub fn extclk_value(mode: u8) -> (r: u8)
    ensures
        r == with_extclk(mode),
{
    mode | mode1::EXTCLK
}

/// Decides the output-mode write from the MODE2 byte read back.
pub fn output_mode_command(mode: u8, open_drain: bool) -> (r: Option<u8>)
    ensures
        r == spec_output_mode_command(mode, open_drain),
{
    let currently_open_drain = mode & mode2::OUTDRV == 0;
    if currently_open_drain == open_drain {
        None
    } else if open_drain {
        Some(mode & !mode2::OUTDRV)
    } else {
        Some(mode | mode2::OUTDRV)
    }
}

/// Setting SLEEP leaves the chip asleep.
pub proof fn lemma_with_sleep_asleep(mode: u8)
    ensures
        is_asleep(with_sleep(mode)),
{
    assert((mode | 0x10u8) & 0x10u8 != 0) by (bit_vector);
}

/// Clearing SLEEP leaves the chip awake.
pub proof fn lemma_without_sleep_awake(mode: u8)
    ensures
        !is_asleep(without_sleep(mode)),
{
    assert((mode & !0x10u8) & 0x10u8 == 0) by (bit_vector);
}

/// After the sleep operation the chip is asleep, whatever it was before.
pub proof fn lemma_after_sleep_asleep(mode: u8)
    ensures
        is_asleep(mode1_after_sleep(mode)),
{
    lemma_with_sleep_asleep(mode);
}

/// The restart byte leaves the chip awake with RESTART and AI set.
pub proof fn lemma_restart_mode(mode: u8)
    ensures
        !is_asleep(restart_mode(mode)),
        restart_mode(mode) & mode1::RESTART != 0,
        restart_mode(mode) & mode1::AI != 0,
{
    assert(((mode & !0x10u8) | 0x80u8 | 0x20u8) & 0x10u8 == 0) by (bit_vector);
    assert(((mode & !0x10u8) | 0x80u8 | 0x20u8) & 0x80u8 != 0) by (bit_vector);
    assert(((mode & !0x10u8) | 0x80u8 | 0x20u8) & 0x20u8 != 0) by (bit_vector);
}

/// Waking after EXTCLK was set keeps EXTCLK set and clears SLEEP.
pub proof fn lemma_extclk_after_wake(mode: u8)
    ensures
        without_sleep(with_extclk(mode)) & mode1::EXTCLK != 0,
        !is_asleep(without_sleep(with_extclk(mode))),
{
    assert(((mode | 0x40u8) & !0x10u8) & 0x40u8 != 0) by (bit_vector);
    assert(((mode | 0x40u8) & !0x10u8) & 0x10u8 == 0) by (bit_vector);
}

/// The realizing MODE2 byte always drives the requested output mode.
pub proof fn lemma_output_mode_realized(mode: u8, open_drain: bool)
    ensures
        is_open_drain(mode2_with_output(mode, open_drain)) == open_drain,
{
    assert((mode & !0x04u8) & 0x04u8 == 0) by (bit_vector);
    assert((mode | 0x04u8) & 0x04u8 != 0) by (bit_vector);
}

/// When the requested output mode is already in effect, the realizing byte
/// is the current byte: nothing changes.
pub proof fn lemma_output_mode_noop(mode: u8, open_drain: bool)
    requires
        is_open_drain(mode) == open_drain,
    ensures
        mode2_with_output(mode, open_drain) == mode,
{
    assert(mode & 0x04u8 == 0 ==> (mode & !0x04u8) == mode) by (bit_vector);
    assert(mode & 0x04u8 != 0 ==> (mode | 0x04u8) == mode) by (bit_vector);
}

} // verus!
