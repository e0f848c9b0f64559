//! In-memory model of the chip behind its two-wire transport.
//!
//! The driver's sequencing contracts are stated and proved against this
//! model: it holds the registers the protocol depends on, records every
//! write and settling pause in order, and keeps a sticky witness of any
//! write that broke the prescale discipline (PRE_SCALE written while the
//! chip was awake).

use vstd::prelude::*;

use crate::mode1;
use crate::ops::is_asleep;
use crate::regs::{MODE1, MODE2, PRE_SCALE};

verus! {

/// Errors the driver reports for caller contract violations it detects
/// before any bus traffic.
#[derive(Clone, Copy, Debug, PartialEq, Eq, Structural)]
pub enum PwmError {
    /// The bus address does not fit in seven bits.
    AddressOutOfRange,
    /// The channel index is not in `0..=15`.
    ChannelOutOfRange,
}

/// One operation the driver put on the transport: a register write, or a
/// mandatory settling pause.
#[derive(Clone, Copy, Debug, PartialEq, Eq, Structural)]
pub enum BusOp {
    /// A write of a value (second field) to a register (first field).
    Write(u8, u8),
    /// A pause of the given number of microseconds.
    Delay(u64),
}

/// The chip registers the sequencing protocol depends on.
pub struct ChipRegs {
    pub mode1: u8,
    pub mode2: u8,
    pub prescale: u8,
}

/// The chip registers after a write of `val` to `reg`.
pub open spec fn chip_after_write(c: ChipRegs, reg: u8, val: u8) -> ChipRegs {
    if reg == MODE1 {
        ChipRegs { mode1: val, mode2: c.mode2, prescale: c.prescale }
    } else if reg == MODE2 {
        ChipRegs { mode1: c.mode1, mode2: val, prescale: c.prescale }
    } else if reg == PRE_SCALE {
        ChipRegs { mode1: c.mode1, mode2: c.mode2, prescale: val }
    } else {
        c
    }
}

/// What a read of `reg` returns from the modeled registers.
pub open spec fn reg_read(c: ChipRegs, reg: u8) -> u8 {
    if reg == MODE1 {
        c.mode1
    } else if reg == MODE2 {
        c.mode2
    } else if reg == PRE_SCALE {
        c.prescale
    } else {
        0
    }
}

/// Whether a write of `reg` breaks the prescale discipline: PRE_SCALE
/// written while the chip is awake corrupts PWM timing silently.
pub open spec fn breaks_prescale_discipline(c: ChipRegs, reg: u8) -> bool {
    reg == PRE_SCALE && !is_asleep(c.mode1)
}

/// Writing a valid prescale value and reading it back yields the same
/// value.
pub proof fn lemma_prescale_round_trip(c: ChipRegs, prescale: u8)
    ensures
        reg_read(chip_after_write(c, PRE_SCALE, prescale), PRE_SCALE) == prescale,
{
}

/// The transport model: modeled chip registers, the bound target address,
/// the ordered record of all writes and pauses, and the sticky discipline
/// witness.
pub struct MockBus {
    /// The target address, once one was accepted.
    pub target: Option<u8>,
    /// MODE1 register of the modeled chip.
    pub mode1: u8,
    /// MODE2 register of the modeled chip.
    pub mode2: u8,
    /// PRE_SCALE register of the modeled chip.
    pub prescale: u8,
    /// Every register write and settling pause, in order.
    pub log: Vec<BusOp>,
    /// True once PRE_SCALE was ever written while SLEEP was clear.
    pub prescale_written_awake: bool,
}

impl MockBus {
    /// The modeled chip registers as one value.
    pub open spec fn chip(&self) -> ChipRegs {
        ChipRegs { mode1: self.mode1, mode2: self.mode2, prescale: self.prescale }
    }

    /// A fresh model with the given register contents, no bound target, an
    /// empty record and a clean discipline witness.
    pub fn new(mode1: u8, mode2: u8, prescale: u8) -> (r: MockBus)
        ensures
            r.mode1 == mode1,
            r.mode2 == mode2,
            r.prescale == prescale,
            r.target is None,
            r.log@ == Seq::<BusOp>::empty(),
            !r.prescale_written_awake,
    {
        MockBus { target: None, mode1, mode2, prescale, log: Vec::new(), prescale_written_awake: false }
    }

    /// Binds the transport to a seven-bit target address; rejects a wider
    /// one.
    pub fn set_target_address(&mut self, address: u8) -> (r: Result<(), PwmError>)
        ensures
            r is Ok <==> address <= 0x7F,
            r is Err ==> r == Err::<(), PwmError>(PwmError::AddressOutOfRange),
            address <= 0x7F ==> final(self).target == Some(address),
            address > 0x7F ==> final(self).target == old(self).target,
            final(self).chip() == old(self).chip(),
            final(self).log@ == old(self).log@,
            final(self).prescale_written_awake == old(self).prescale_written_awake,
    {
        if address > 0x7F {
            return Err(PwmError::AddressOutOfRange);
        }
        self.target = Some(address);
        Ok(())
    }

    /// Writes a value to a register: records the write, updates the modeled
    /// register, and marks the witness if the write broke the prescale
    /// discipline.
    pub fn write_reg(&mut self, reg: u8, val: u8)
        ensures
            final(self).log@ == old(self).log@.push(BusOp::Write(reg, val)),
            final(self).chip() == chip_after_write(old(self).chip(), reg, val),
            final(self).prescale_written_awake == (old(self).prescale_written_awake
                || breaks_prescale_discipline(old(self).chip(), reg)),
            final(self).target == old(self).target,
    {
        if reg == PRE_SCALE && self.mode1 & mode1::SLEEP == 0 {
            self.prescale_written_awake = true;
        }
        self.log.push(BusOp::Write(reg, val));
        if reg == MODE1 {
            self.mode1 = val;
        } else if reg == MODE2 {
            self.mode2 = val;
        } else if reg == PRE_SCALE {
            self.prescale = val;
        }
    }

    /// Reads a register back.  No side effects.
    pub fn read_reg(&self, reg: u8) -> (r: u8)
        ensures
            r == reg_read(self.chip(), reg),
    {
        if reg == MODE1 {
            self.mode1
        } else if reg == MODE2 {
            self.mode2
        } else if reg == PRE_SCALE {
            self.prescale
        } else {
            0
        }
    }

    /// Records a mandatory settling pause.  The model suspends nothing; a
    /// transport against real hardware must suspend for the full duration.
    pub fn delay_us(&mut self, micros: u64)
        ensures
            final(self).log@ == old(self).log@.push(BusOp::Delay(micros)),
            final(self).chip() == old(self).chip(),
            final(self).prescale_written_awake == old(self).prescale_written_awake,
            final(self).target == old(self).target,
    {
        self.log.push(BusOp::Delay(micros));
    }
}

} // verus!
