//! Register-level driver core for the PCA9685, a 16-channel, 12-bit PWM
//! controller on a two-wire serial bus.
//!
//! The crate verifies the part of the driver with real invariants: the
//! mode-register bit manipulation, the sleep-before-reconfigure discipline,
//! the frequency-to-prescale arithmetic, and the per-channel on/off tick
//! encoding.  Raw bus transport is an external collaborator; the library
//! models it with an in-memory chip-and-transport model over which the
//! register-sequencing protocol is specified and proved.

pub mod bus;
pub mod controller;
pub mod duty;
pub mod freq;
pub mod mode1;
pub mod mode2;
pub mod ops;
pub mod regs;

pub use bus::{BusOp, MockBus, PwmError};
pub use controller::PCA9685;
pub use duty::{duty_ticks, tick_bytes};
pub use freq::{clamp_prescale, prescale_from_freq};
pub use ops::{
    channel_base, extclk_value, output_mode_command, restart_value, sleep_command, wake_value,
};
pub use regs::{
    ALLCALLADR, ALL_LED_OFF_H, ALL_LED_OFF_L, ALL_LED_ON_H, ALL_LED_ON_L, FREQUENCY_OSCILLATOR,
    LED0_OFF_H, LED0_OFF_L, LED0_ON_H, LED0_ON_L, MODE1, MODE2, OSC_STABILIZE_DELAY_US,
    PRESCALE_MAX, PRESCALE_MIN, PRE_SCALE, RESET_SETTLE_DELAY_US, SLEEP_SETTLE_DELAY_US, SUBADR1,
    SUBADR2, SUBADR3, TESTMODE,
};
