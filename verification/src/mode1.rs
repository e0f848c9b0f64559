//! Bit flags of mode register 1.

use vstd::prelude::*;

verus! {

/// Respond to the LED all-call bus address.
pub const ALLCALL: u8 = 0x01;

/// Respond to bus subaddress 3.
pub const SUB3: u8 = 0x02;

/// Respond to bus subaddress 2.
pub const SUB2: u8 = 0x04;

/// Respond to bus subaddress 1.
pub const SUB1: u8 = 0x08;

/// Low-power mode: oscillator off.
pub const SLEEP: u8 = 0x10;

/// Auto-increment register addressing.
pub const AI: u8 = 0x20;

/// Use the EXTCLK pin as clock source.
pub const EXTCLK: u8 = 0x40;

/// Restart enabled.
pub const RESTART: u8 = 0x80;

} // verus!
