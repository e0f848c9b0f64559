use pca9685::{
    BusOp, MockBus, PwmError, FREQUENCY_OSCILLATOR, MODE1, OSC_STABILIZE_DELAY_US, PCA9685,
    PRE_SCALE, RESET_SETTLE_DELAY_US, SLEEP_SETTLE_DELAY_US,
};

fn awake_controller() -> PCA9685 {
    // MODE1 with ALLCALL set and SLEEP clear, MODE2 at its totem-pole
    // default, prescale at the chip's power-on value.
    let bus = MockBus::new(0x01, 0x04, 0x1E);
    PCA9685::new(0x40, bus).unwrap()
}

#[test]
fn new_binds_address_and_defaults() {
    let bus = MockBus::new(0x11, 0x04, 0x1E);
    let dev = PCA9685::new(0x40, bus).unwrap();
    assert_eq!(dev.bus.target, Some(0x40));
    assert_eq!(dev.oscillator_freq(), FREQUENCY_OSCILLATOR);
    assert!(dev.bus.log.is_empty());
}

#[test]
fn new_rejects_wide_address() {
    let bus = MockBus::new(0x11, 0x04, 0x1E);
    assert!(matches!(PCA9685::new(0x80, bus), Err(PwmError::AddressOutOfRange)));
}

#[test]
fn sleep_writes_once_not_twice() {
    let mut dev = awake_controller();
    dev.sleep().unwrap();
    assert_eq!(
        dev.bus.log,
        vec![BusOp::Write(MODE1, 0x11), BusOp::Delay(SLEEP_SETTLE_DELAY_US)]
    );
    assert_eq!(dev.bus.mode1, 0x11);
    // The second call observes SLEEP already set and writes nothing.
    dev.sleep().unwrap();
    assert_eq!(dev.bus.log.len(), 2);
}

#[test]
fn sleep_is_noop_when_already_asleep() {
    let bus = MockBus::new(0x11, 0x04, 0x1E);
    let mut dev = PCA9685::new(0x40, bus).unwrap();
    dev.sleep().unwrap();
    assert!(dev.bus.log.is_empty());
}

#[test]
fn start_clears_sleep_and_pauses() {
    let bus = MockBus::new(0x11, 0x04, 0x1E);
    let mut dev = PCA9685::new(0x40, bus).unwrap();
    dev.start().unwrap();
    assert_eq!(
        dev.bus.log,
        vec![BusOp::Write(MODE1, 0x01), BusOp::Delay(OSC_STABILIZE_DELAY_US)]
    );
    assert_eq!(dev.bus.mode1, 0x01);
}

#[test]
fn wakeup_clears_sleep_without_pause() {
    let bus = MockBus::new(0x11, 0x04, 0x1E);
    let mut dev = PCA9685::new(0x40, bus).unwrap();
    dev.wakeup().unwrap();
    assert_eq!(dev.bus.log, vec![BusOp::Write(MODE1, 0x01)]);
}

#[test]
fn reset_sets_restart_and_settles() {
    let mut dev = awake_controller();
    dev.reset().unwrap();
    assert_eq!(
        dev.bus.log,
        vec![BusOp::Write(MODE1, 0x81), BusOp::Delay(RESET_SETTLE_DELAY_US)]
    );
}

#[test]
fn set_prescale_full_sequence() {
    let mut dev = awake_controller();
    dev.set_prescale_fr(200).unwrap();
    // Enter sleep, write the prescale asleep, restore MODE1 awake with
    // RESTART and AI set, pause to stabilize.
    assert_eq!(
        dev.bus.log,
        vec![
            BusOp::Write(MODE1, 0x11),
            BusOp::Delay(SLEEP_SETTLE_DELAY_US),
            BusOp::Write(PRE_SCALE, 0xE),
            BusOp::Write(MODE1, 0xA1),
            BusOp::Delay(OSC_STABILIZE_DELAY_US),
        ]
    );
    assert_eq!(dev.bus.mode1, 0xA1);
    assert!(!dev.bus.prescale_written_awake);
}

#[test]
fn set_prescale_then_read_back_round_trips() {
    let mut dev = awake_controller();
    dev.set_prescale_fr(200).unwrap();
    assert_eq!(dev.read_prescale().unwrap(), 0xE);
    assert_eq!(dev.get_prescale().unwrap(), 0xE);
}

#[test]
fn set_prescale_writes_clamped_value() {
    let mut dev = awake_controller();
    dev.set_prescale_fr(3000).unwrap();
    assert_eq!(dev.read_prescale().unwrap(), 3);
    dev.set_prescale_fr(1).unwrap();
    assert_eq!(dev.read_prescale().unwrap(), 255);
}

#[test]
fn prescale_write_while_awake_is_detected() {
    // The transport model itself witnesses a write that breaks the
    // prescale discipline.
    let mut bus = MockBus::new(0x01, 0x04, 0x1E);
    bus.write_reg(PRE_SCALE, 10);
    assert!(bus.prescale_written_awake);
}

#[test]
fn prescale_write_while_asleep_round_trips() {
    let mut bus = MockBus::new(0x11, 0x04, 0x1E);
    bus.write_reg(PRE_SCALE, 77);
    assert!(!bus.prescale_written_awake);
    assert_eq!(bus.read_reg(PRE_SCALE), 77);
}

#[test]
fn external_clock_sequence_and_bookkeeping() {
    let mut dev = awake_controller();
    dev.set_external_clock(50_000_000).unwrap();
    assert_eq!(
        dev.bus.log,
        vec![
            BusOp::Write(MODE1, 0x11),
            BusOp::Delay(SLEEP_SETTLE_DELAY_US),
            BusOp::Write(MODE1, 0x51),
            BusOp::Write(MODE1, 0x41),
            BusOp::Delay(OSC_STABILIZE_DELAY_US),
        ]
    );
    assert_eq!(dev.bus.mode1, 0x41);
    assert_eq!(dev.oscillator_freq(), 50_000_000);
    assert!(!dev.bus.prescale_written_awake);
}

#[test]
fn set_oscillator_freq_updates_cache() {
    let mut dev = awake_controller();
    dev.set_oscillator_freq(26_000_000);
    assert_eq!(dev.oscillator_freq(), 26_000_000);
    assert!(dev.bus.log.is_empty());
}

#[test]
fn output_mode_writes_only_on_change() {
    let mut dev = awake_controller();
    // MODE2 starts at the totem-pole default: requesting totem-pole again
    // writes nothing.
    dev.set_output_mode(false).unwrap();
    assert!(dev.bus.log.is_empty());
    // Switching to open-drain clears OUTDRV with one write.
    dev.set_output_mode(true).unwrap();
    assert_eq!(dev.bus.log, vec![BusOp::Write(0x01, 0x00)]);
    assert_eq!(dev.bus.mode2, 0x00);
    // Requesting open-drain again writes nothing more.
    dev.set_output_mode(true).unwrap();
    assert_eq!(dev.bus.log.len(), 1);
}
