//! Register map of the chip, and the timing and range constants the driver
//! protocol depends on.

use vstd::prelude::*;

verus! {

/// Mode register 1.
pub const MODE1: u8 = 0x00;

/// Mode register 2.
pub const MODE2: u8 = 0x01;

/// Bus subaddress 1.
pub const SUBADR1: u8 = 0x02;

/// Bus subaddress 2.
pub const SUBADR2: u8 = 0x03;

/// Bus subaddress 3.
pub const SUBADR3: u8 = 0x04;

/// LED all-call bus address.
pub const ALLCALLADR: u8 = 0x05;

/// Channel 0 ON tick, low byte.  Channel `k` starts at `LED0_ON_L + 4 * k`.
pub const LED0_ON_L: u8 = 0x06;

/// Channel 0 ON tick, high byte.
pub const LED0_ON_H: u8 = 0x07;

/// Channel 0 OFF tick, low byte.
pub const LED0_OFF_L: u8 = 0x08;

/// Channel 0 OFF tick, high byte.
pub const LED0_OFF_H: u8 = 0x09;

/// All-channel ON tick, low byte.
pub const ALL_LED_ON_L: u8 = 0xFA;

/// All-channel ON tick, high byte.
pub const ALL_LED_ON_H: u8 = 0xFB;

/// All-channel OFF tick, low byte.
pub const ALL_LED_OFF_L: u8 = 0xFC;

/// All-channel OFF tick, high byte.
pub const ALL_LED_OFF_H: u8 = 0xFD;

/// Prescaler for the PWM output frequency.  Writable only while the chip
/// sleeps.
pub const PRE_SCALE: u8 = 0xFE;

/// Test-mode register.  Never written by this driver.
pub const TESTMODE: u8 = 0xFF;

/// Frequency of the chip's internal oscillator, in Hz.
pub const FREQUENCY_OSCILLATOR: u32 = 25_000_000;

/// Smallest value the prescale register accepts.
pub const PRESCALE_MIN: u8 = 0x03;

/// Largest value the prescale register accepts.
pub const PRESCALE_MAX: u8 = 0xFF;

/// Oscillator stabilization pause after clearing the SLEEP bit, in
/// microseconds.  The chip needs at least this long before any further
/// register access.
pub const OSC_STABILIZE_DELAY_US: u64 = 500;

/// Conservative settling pause after setting the SLEEP bit, in microseconds.
pub const SLEEP_SETTLE_DELAY_US: u64 = 5_000;

/// Settling pause after writing the RESTART bit, in microseconds.
pub const RESET_SETTLE_DELAY_US: u64 = 10_000;

} // verus!
