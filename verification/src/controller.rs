//! The chip controller: register sequencing with its safety contracts.
//!
//! Every operation's contract states the exact bus traffic it emits (as a
//! suffix of the transport record), the register state it leaves behind,
//! and that it preserves the prescale discipline: PRE_SCALE is never
//! written while the chip is awake.

use vstd::prelude::*;

use crate::bus::{BusOp, MockBus, PwmError};
use crate::duty::{duty_ticks, spec_duty, tick_bytes, tick_high, tick_low};
use crate::freq::{clamp_prescale, lemma_saturate_then_clamp, prescale_from_freq, spec_clamped_prescale};
use crate::mode1;
use crate::ops::{
    extclk_value, is_asleep, is_open_drain, lemma_after_sleep_asleep, lemma_extclk_after_wake,
    lemma_output_mode_noop, lemma_output_mode_realized, lemma_restart_mode,
    lemma_with_sleep_asleep, lemma_without_sleep_awake, mode1_after_sleep, mode2_with_output,
    output_mode_command, restart_mode, restart_value, sleep_command, spec_output_mode_command,
    spec_sleep_command, wake_value, with_extclk, with_sleep, without_sleep,
};
use crate::regs::{
    FREQUENCY_OSCILLATOR, LED0_ON_L, MODE1, MODE2, OSC_STABILIZE_DELAY_US, PRE_SCALE,
    RESET_SETTLE_DELAY_US, SLEEP_SETTLE_DELAY_US,
};

verus! {

/// The bus operations one sleep call emits: nothing when the chip already
/// sleeps, otherwise the MODE1 write and its settling pause.
pub open spec fn sleep_ops(mode: u8) -> Seq<BusOp> {
    if is_asleep(mode) {
        Seq::<BusOp>::empty()
    } else {
        seq![
            BusOp::Write(MODE1, with_sleep(mode)),
            BusOp::Delay(SLEEP_SETTLE_DELAY_US),
        ]
    }
}

/// The bus operations one start call emits: the wake write and the
/// oscillator stabilization pause.
pub open spec fn start_ops(mode: u8) -> Seq<BusOp> {
    seq![
        BusOp::Write(MODE1, without_sleep(mode)),
        BusOp::Delay(OSC_STABILIZE_DELAY_US),
    ]
}

/// The bus operations one wakeup call emits: the wake write alone.
pub open spec fn wakeup_ops(mode: u8) -> Seq<BusOp> {
    seq![BusOp::Write(MODE1, without_sleep(mode))]
}

/// The bus operations one reset call emits: the RESTART write and its
/// settling pause.
pub open spec fn reset_ops(mode: u8) -> Seq<BusOp> {
    seq![
        BusOp::Write(MODE1, mode | mode1::RESTART),
        BusOp::Delay(RESET_SETTLE_DELAY_US),
    ]
}

/// The bus operations one set-frequency call emits when it writes prescale
/// `prescale`, from MODE1 state `mode`: enter sleep, write the prescale,
/// restore MODE1 awake with RESTART and AI set, pause to stabilize.
pub open spec fn set_prescale_ops(mode: u8, prescale: u8) -> Seq<BusOp> {
    sleep_ops(mode) + seq![
        BusOp::Write(PRE_SCALE, prescale),
        BusOp::Write(MODE1, restart_mode(mode1_after_sleep(mode))),
        BusOp::Delay(OSC_STABILIZE_DELAY_US),
    ]
}

/// The bus operations one set-external-clock call emits: enter sleep, set
/// EXTCLK while asleep, wake, pause to stabilize.
pub open spec fn set_extclk_ops(mode: u8) -> Seq<BusOp> {
    sleep_ops(mode) + seq![
        BusOp::Write(MODE1, with_extclk(mode1_after_sleep(mode))),
        BusOp::Write(MODE1, without_sleep(with_extclk(mode1_after_sleep(mode)))),
        BusOp::Delay(OSC_STABILIZE_DELAY_US),
    ]
}

/// The bus operations one set-output-mode call emits: one MODE2 write, or
/// nothing when the requested mode is already in effect.
pub open spec fn output_mode_ops(mode: u8, open_drain: bool) -> Seq<BusOp> {
    match spec_output_mode_command(mode, open_drain) {
        Some(v) => seq![BusOp::Write(MODE2, v)],
        None => Seq::<BusOp>::empty(),
    }
}

/// The four register writes of one channel update, in register order:
/// ON low, ON high, OFF low, OFF high, at the channel's base address.
pub open spec fn channel_ops(channel: u8, period_on: (u8, u8), period_off: (u8, u8)) -> Seq<
    BusOp,
> {
    seq![
        BusOp::Write((LED0_ON_L + 4 * channel) as u8, period_on.1),
        BusOp::Write((LED0_ON_L + 4 * channel + 1) as u8, period_on.0),
        BusOp::Write((LED0_ON_L + 4 * channel + 2) as u8, period_off.1),
        BusOp::Write((LED0_ON_L + 4 * channel + 3) as u8, period_off.0),
    ]
}

/// A representation of one PCA9685 chip: its bus address, the cached
/// frequency of the clock source driving its PWM timing, and the transport
/// all register traffic flows through.
pub struct PCA9685 {
    /// Seven-bit bus address, fixed at construction.
    pub address: u8,
    /// Frequency in Hz of the active clock source.  The chip cannot report
    /// it, so the driver caches it; every prescale computation uses it, and
    /// a caller selecting an outside clock must keep it current.
    pub oscillator_freq: u32,
    /// The transport the driver writes through.
    pub bus: MockBus,
}

impl PCA9685 {
    /// Creates a controller bound to the given bus address.  Fails, before
    /// any other traffic, when the address does not fit in seven bits.
    pub fn new(address: u8, bus: MockBus) -> (r: Result<PCA9685, PwmError>)
        ensures
            r is Ok <==> address <= 0x7F,
            r is Err ==> r == Err::<PCA9685, PwmError>(PwmError::AddressOutOfRange),
            r is Ok ==> ({
                let c = r->Ok_0;
                &&& c.address == address
                &&& c.oscillator_freq == FREQUENCY_OSCILLATOR
                &&& c.bus.target == Some(address)
                &&& c.bus.chip() == bus.chip()
                &&& c.bus.log@ == bus.log@
                &&& c.bus.prescale_written_awake == bus.prescale_written_awake
            }),
    {
        let mut dev = PCA9685 { address, bus, oscillator_freq: FREQUENCY_OSCILLATOR };
        match dev.bus.set_target_address(address) {
            Ok(()) => Ok(dev),
            Err(e) => Err(e),
        }
    }

    /// Puts the chip to sleep.  A no-op when SLEEP is already set;
    /// otherwise sets SLEEP, writes MODE1 back and pauses to settle.
    /// Sleep is the precondition for every prescale write.
    pub fn sleep(&mut self) -> (r: Result<(), PwmError>)
        ensures
            r is Ok,
            final(self).bus.mode1 == mode1_after_sleep(old(self).bus.mode1),
            is_asleep(final(self).bus.mode1),
            final(self).bus.log@ == old(self).bus.log@ + sleep_ops(old(self).bus.mode1),
            final(self).bus.mode2 == old(self).bus.mode2,
            final(self).bus.prescale == old(self).bus.prescale,
            final(self).bus.prescale_written_awake == old(self).bus.prescale_written_awake,
            final(self).bus.target == old(self).bus.target,
            final(self).address == old(self).address,
            final(self).oscillator_freq == old(self).oscillator_freq,
    {
        let m = self.bus.read_reg(MODE1);
        match sleep_command(m) {
            Some(v) => {
                self.bus.write_reg(MODE1, v);
                self.bus.delay_us(SLEEP_SETTLE_DELAY_US);
                proof {
                    lemma_with_sleep_asleep(m);
                }
            },
            None => {},
        }
        Ok(())
    }

    /// Starts the chip: clears SLEEP and pauses for the oscillator to
    /// stabilize before any further register access.
    pub fn start(&mut self) -> (r: Result<(), PwmError>)
        ensures
            r is Ok,
            final(self).bus.mode1 == without_sleep(old(self).bus.mode1),
            !is_asleep(final(self).bus.mode1),
            final(self).bus.log@ == old(self).bus.log@ + start_ops(old(self).bus.mode1),
            final(self).bus.mode2 == old(self).bus.mode2,
            final(self).bus.prescale == old(self).bus.prescale,
            final(self).bus.prescale_written_awake == old(self).bus.prescale_written_awake,
            final(self).bus.target == old(self).bus.target,
            final(self).address == old(self).address,
            final(self).oscillator_freq == old(self).oscillator_freq,
    {
        let m = self.bus.read_reg(MODE1);
        let v = wake_value(m);
        self.bus.write_reg(MODE1, v);
        self.bus.delay_us(OSC_STABILIZE_DELAY_US);
        proof {
            lemma_without_sleep_awake(m);
        }
        Ok(())
    }

    /// Wakes the chip without waiting for the oscillator to restart.  A
    /// caller needing accurate PWM output right away should use
    /// [`PCA9685::start`] instead.
    pub fn wakeup(&mut self) -> (r: Result<(), PwmError>)
        ensures
            r is Ok,
            final(self).bus.mode1 == without_sleep(old(self).bus.mode1),
            !is_asleep(final(self).bus.mode1),
            final(self).bus.log@ == old(self).bus.log@ + wakeup_ops(old(self).bus.mode1),
            final(self).bus.mode2 == old(self).bus.mode2,
            final(self).bus.prescale == old(self).bus.prescale,
            final(self).bus.prescale_written_awake == old(self).bus.prescale_written_awake,
            final(self).bus.target == old(self).bus.target,
            final(self).address == old(self).address,
            final(self).oscillator_freq == old(self).oscillator_freq,
    {
        let m = self.bus.read_reg(MODE1);
        let v = wake_value(m);
        self.bus.write_reg(MODE1, v);
        proof {
            lemma_without_sleep_awake(m);
        }
        Ok(())
    }

    /// Full reset: writes the RESTART bit and pauses for the chip to
    /// settle before further commands.
    pub fn reset(&mut self) -> (r: Result<(), PwmError>)
        ensures
            r is Ok,
            final(self).bus.mode1 == old(self).bus.mode1 | mode1::RESTART,
            final(self).bus.log@ == old(self).bus.log@ + reset_ops(old(self).bus.mode1),
            final(self).bus.mode2 == old(self).bus.mode2,
            final(self).bus.prescale == old(self).bus.prescale,
            final(self).bus.prescale_written_awake == old(self).bus.prescale_written_awake,
            final(self).bus.target == old(self).bus.target,
            final(self).address == old(self).address,
            final(self).oscillator_freq == old(self).oscillator_freq,
    {
        let m = self.bus.read_reg(MODE1);
        self.bus.write_reg(MODE1, m | mode1::RESTART);
        self.bus.delay_us(RESET_SETTLE_DELAY_US);
        Ok(())
    }

    /// Sets the prescale from a target frequency: enters sleep, writes the
    /// computed prescale clamped to its valid range, restores MODE1 with
    /// SLEEP cleared and RESTART and AI set, then pauses for the oscillator
    /// to stabilize.  The prescale write always happens asleep.
    pub fn set_prescale_fr(&mut self, frequency: u16) -> (r: Result<(), PwmError>)
        requires
            frequency >= 1,
        ensures
            r is Ok,
            final(self).bus.prescale == spec_clamped_prescale(
                old(self).oscillator_freq,
                frequency,
            ),
            final(self).bus.mode1 == restart_mode(mode1_after_sleep(old(self).bus.mode1)),
            !is_asleep(final(self).bus.mode1),
            final(self).bus.mode1 & mode1::RESTART != 0,
            final(self).bus.mode1 & mode1::AI != 0,
            final(self).bus.log@ == old(self).bus.log@ + set_prescale_ops(
                old(self).bus.mode1,
                spec_clamped_prescale(old(self).oscillator_freq, frequency),
            ),
            final(self).bus.prescale_written_awake == old(self).bus.prescale_written_awake,
            final(self).bus.mode2 == old(self).bus.mode2,
            final(self).bus.target == old(self).bus.target,
            final(self).address == old(self).address,
            final(self).oscillator_freq == old(self).oscillator_freq,
    {
        self.sleep()?;
        let raw = prescale_from_freq(self.oscillator_freq, frequency);
        let prescale = clamp_prescale(raw);
        proof {
            lemma_saturate_then_clamp(old(self).oscillator_freq, frequency);
        }
        self.bus.write_reg(PRE_SCALE, prescale);
        let m = self.bus.read_reg(MODE1);
        let v = restart_value(m);
        self.bus.write_reg(MODE1, v);
        self.bus.delay_us(OSC_STABILIZE_DELAY_US);
        proof {
            lemma_restart_mode(m);
        }
        Ok(())
    }

    /// Reads the prescale register.  No side effects.
    pub fn read_prescale(&mut self) -> (r: Result<u8, PwmError>)
        ensures
            r == Ok::<u8, PwmError>(old(self).bus.prescale),
            *final(self) == *old(self),
    {
        Ok(self.bus.read_reg(PRE_SCALE))
    }

    /// Reads the prescale register.  No side effects.
    pub fn get_prescale(&mut self) -> (r: Result<u8, PwmError>)
        ensures
            r == Ok::<u8, PwmError>(old(self).bus.prescale),
            *final(self) == *old(self),
    {
        Ok(self.bus.read_reg(PRE_SCALE))
    }

    /// Selects the EXTCLK pin as clock source and records its rate as the
    /// active clock.  The bit is written while the chip sleeps, then the
    /// chip is woken with a stabilization pause.  Leaving EXTCLK mode again
    /// needs a power cycle or a full reset: the driver cannot undo it.
    pub fn set_external_clock(&mut self, clock_speed: u32) -> (r: Result<(), PwmError>)
        ensures
            r is Ok,
            final(self).oscillator_freq == clock_speed,
            final(self).bus.mode1 == without_sleep(
                with_extclk(mode1_after_sleep(old(self).bus.mode1)),
            ),
            final(self).bus.mode1 & mode1::EXTCLK != 0,
            !is_asleep(final(self).bus.mode1),
            final(self).bus.log@ == old(self).bus.log@ + set_extclk_ops(old(self).bus.mode1),
            final(self).bus.mode2 == old(self).bus.mode2,
            final(self).bus.prescale == old(self).bus.prescale,
            final(self).bus.prescale_written_awake == old(self).bus.prescale_written_awake,
            final(self).bus.target == old(self).bus.target,
            final(self).address == old(self).address,
    {
        self.sleep()?;
        let m = self.bus.read_reg(MODE1);
        let v = extclk_value(m);
        self.bus.write_reg(MODE1, v);
        let v2 = wake_value(v);
        self.bus.write_reg(MODE1, v2);
        self.bus.delay_us(OSC_STABILIZE_DELAY_US);
        self.oscillator_freq = clock_speed;
        proof {
            lemma_extclk_after_wake(m);
        }
        Ok(())
    }

    /// Selects the output drive: open-drain or totem-pole.  Writes MODE2
    /// only when the requested mode differs from the one in effect.
    pub fn set_output_mode(&mut self, open_drain: bool) -> (r: Result<(), PwmError>)
        ensures
            r is Ok,
            final(self).bus.mode2 == mode2_with_output(old(self).bus.mode2, open_drain),
            is_open_drain(final(self).bus.mode2) == open_drain,
            final(self).bus.log@ == old(self).bus.log@ + output_mode_ops(
                old(self).bus.mode2,
                open_drain,
            ),
            final(self).bus.mode1 == old(self).bus.mode1,
            final(self).bus.prescale == old(self).bus.prescale,
            final(self).bus.prescale_written_awake == old(self).bus.prescale_written_awake,
            final(self).bus.target == old(self).bus.target,
            final(self).address == old(self).address,
            final(self).oscillator_freq == old(self).oscillator_freq,
    {
        let m = self.bus.read_reg(MODE2);
        match output_mode_command(m, open_drain) {
            Some(v) => {
                self.bus.write_reg(MODE2, v);
            },
            None => {
                proof {
                    lemma_output_mode_noop(m, open_drain);
                }
            },
        }
        proof {
            lemma_output_mode_realized(m, open_drain);
        }
        Ok(())
    }

    /// Writes the four on/off tick registers of one channel, low byte
    /// before high byte from the channel's base address.  Tuples are
    /// (most significant, least significant).  A channel index above 15 is
    /// rejected before any bus traffic.
    pub fn set_channel(&mut self, channel: u8, period_on: (u8, u8), period_off: (u8, u8)) -> (r:
        Result<(), PwmError>)
        ensures
            r is Ok <==> channel <= 15,
            r is Err ==> r == Err::<(), PwmError>(PwmError::ChannelOutOfRange) && *final(self)
                == *old(self),
            channel <= 15 ==> final(self).bus.log@ == old(self).bus.log@ + channel_ops(
                channel,
                period_on,
                period_off,
            ),
            final(self).bus.mode1 == old(self).bus.mode1,
            final(self).bus.mode2 == old(self).bus.mode2,
            final(self).bus.prescale == old(self).bus.prescale,
            final(self).bus.prescale_written_awake == old(self).bus.prescale_written_awake,
            final(self).bus.target == old(self).bus.target,
            final(self).address == old(self).address,
            final(self).oscillator_freq == old(self).oscillator_freq,
    {
        if channel > 15 {
            return Err(PwmError::ChannelOutOfRange);
        }
        let base = LED0_ON_L + 4 * channel;
        self.bus.write_reg(base, period_on.1);
        self.bus.write_reg(base + 1, period_on.0);
        self.bus.write_reg(base + 2, period_off.1);
        self.bus.write_reg(base + 3, period_off.0);
        Ok(())
    }

    /// Sets one channel by duty level in `[0, 4095]` with optional
    /// inversion, realizing the boundary sentinels and the linear mapping
    /// of [`spec_duty`] exactly.
    pub fn set_channel_duty(&mut self, channel: u8, on_tick: u16, invert: bool) -> (r: Result<
        (),
        PwmError,
    >)
        ensures
            r is Ok <==> channel <= 15,
            r is Err ==> r == Err::<(), PwmError>(PwmError::ChannelOutOfRange) && *final(self)
                == *old(self),
            channel <= 15 ==> ({
                let ticks = spec_duty(on_tick, invert);
                final(self).bus.log@ == old(self).bus.log@ + channel_ops(
                    channel,
                    (tick_high(ticks.0), tick_low(ticks.0)),
                    (tick_high(ticks.1), tick_low(ticks.1)),
                )
            }),
            final(self).bus.mode1 == old(self).bus.mode1,
            final(self).bus.mode2 == old(self).bus.mode2,
            final(self).bus.prescale == old(self).bus.prescale,
            final(self).bus.prescale_written_awake == old(self).bus.prescale_written_awake,
            final(self).bus.target == old(self).bus.target,
            final(self).address == old(self).address,
            final(self).oscillator_freq == old(self).oscillator_freq,
    {
        let ticks = duty_ticks(on_tick, invert);
        let on_bytes = tick_bytes(ticks.0);
        let off_bytes = tick_bytes(ticks.1);
        self.set_channel(channel, on_bytes, off_bytes)
    }

    /// The cached frequency of the active clock source, in Hz.
    pub fn oscillator_freq(&self) -> (r: u32)
        ensures
            r == self.oscillator_freq,
    {
        self.oscillator_freq
    }

    /// Records the true rate of the active clock source.  Stale values
    /// silently produce wrong PWM frequencies; the chip cannot report the
    /// rate itself.
    pub fn set_oscillator_freq(&mut self, freq: u32)
        ensures
            final(self).oscillator_freq == freq,
            final(self).bus == old(self).bus,
            final(self).address == old(self).address,
    {
        self.oscillator_freq = freq;
    }
}

/// MODE1 as it stands after a run of bus operations that started from
/// `mode`.
pub open spec fn mode1_after_ops(mode: u8, ops: Seq<BusOp>) -> u8
    decreases ops.len(),
{
    if ops.len() == 0 {
        mode
    } else {
        let next = match ops[0] {
            BusOp::Write(reg, val) => if reg == MODE1 {
                val
            } else {
                mode
            },
            BusOp::Delay(_) => mode,
        };
        mode1_after_ops(next, ops.drop_first())
    }
}

/// The prescale discipline over a run of bus operations that starts from
/// MODE1 state `mode`: every PRE_SCALE write happens while the chip, as
/// MODE1 stands at that point of the run, is asleep.
pub open spec fn prescale_ops_safe(mode: u8, ops: Seq<BusOp>) -> bool
    decreases ops.len(),
{
    if ops.len() == 0 {
        true
    } else {
        let head_safe = match ops[0] {
            BusOp::Write(reg, _) => reg == PRE_SCALE ==> is_asleep(mode),
            BusOp::Delay(_) => true,
        };
        let next = match ops[0] {
            BusOp::Write(reg, val) => if reg == MODE1 {
                val
            } else {
                mode
            },
            BusOp::Delay(_) => mode,
        };
        head_safe && prescale_ops_safe(next, ops.drop_first())
    }
}

/// The chip-safety invariant the whole protocol protects: the set-frequency
/// sequence respects the prescale discipline from every starting MODE1
/// state — its PRE_SCALE write always happens asleep.
pub proof fn lemma_set_prescale_ops_safe(mode: u8, prescale: u8)
    ensures
        prescale_ops_safe(mode, set_prescale_ops(mode, prescale)),
{
    lemma_after_sleep_asleep(mode);
    let slept = mode1_after_sleep(mode);
    let restored = restart_mode(slept);
    let empty = Seq::<BusOp>::empty();
    let s_delay = seq![BusOp::Delay(OSC_STABILIZE_DELAY_US)];
    let s_restore = seq![
        BusOp::Write(MODE1, restored),
        BusOp::Delay(OSC_STABILIZE_DELAY_US),
    ];
    let tail = seq![
        BusOp::Write(PRE_SCALE, prescale),
        BusOp::Write(MODE1, restored),
        BusOp::Delay(OSC_STABILIZE_DELAY_US),
    ];
    assert(prescale_ops_safe(restored, empty));
    assert(s_delay.drop_first() =~= empty);
    assert(prescale_ops_safe(restored, s_delay));
    assert(s_restore.drop_first() =~= s_delay);
    assert(prescale_ops_safe(slept, s_restore));
    assert(tail.drop_first() =~= s_restore);
    assert(prescale_ops_safe(slept, tail));
    if is_asleep(mode) {
        assert(set_prescale_ops(mode, prescale) =~= tail);
    } else {
        let after_enter = seq![BusOp::Delay(SLEEP_SETTLE_DELAY_US)] + tail;
        assert(after_enter.drop_first() =~= tail);
        assert(prescale_ops_safe(slept, after_enter));
        let ops = set_prescale_ops(mode, prescale);
        assert(ops.drop_first() =~= after_enter);
        assert(ops[0] == BusOp::Write(MODE1, with_sleep(mode)));
        assert(prescale_ops_safe(mode, ops));
    }
}

/// Sleeping twice in a row puts exactly one write on the bus: the second
/// call finds SLEEP already set and emits nothing.
pub proof fn lemma_sleep_idempotent(mode: u8)
    ensures
        sleep_ops(mode1_after_sleep(mode)) == Seq::<BusOp>::empty(),
        spec_sleep_command(mode1_after_sleep(mode)) is None,
{
    lemma_after_sleep_asleep(mode);
}

/// Requesting the output mode already in effect emits zero register
/// writes.
pub proof fn lemma_output_mode_idempotent(mode: u8, open_drain: bool)
    ensures
        output_mode_ops(mode2_with_output(mode, open_drain), open_drain) == Seq::<
            BusOp,
        >::empty(),
{
    lemma_output_mode_realized(mode, open_drain);
}

} // verus!
