//! Bit flags of mode register 2.

use vstd::prelude::*;

verus! {

/// Active-low output enable input.
pub const OUTNE_0: u8 = 0x01;

/// Active-low output enable input, high impedance.
pub const OUTNE_1: u8 = 0x02;

/// Totem-pole output structure when set, open-drain when clear.
pub const OUTDRV: u8 = 0x04;

/// Outputs change on ACK when set, on STOP when clear.
pub const OCH: u8 = 0x08;

/// Output logic state inverted.
pub const INVRT: u8 = 0x10;

} // verus!
