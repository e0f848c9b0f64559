use pca9685::{duty_ticks, BusOp, MockBus, PwmError, PCA9685};

fn controller() -> PCA9685 {
    let bus = MockBus::new(0x01, 0x04, 0x1E);
    PCA9685::new(0x40, bus).unwrap()
}

#[test]
fn set_channel_writes_four_registers() {
    let mut dev = controller();
    dev.set_channel(2, (0x01, 0x23), (0x02, 0x34)).unwrap();
    // Channel 2 starts at register 0x06 + 4 * 2 = 0x0E: ON low, ON high,
    // OFF low, OFF high.
    assert_eq!(
        dev.bus.log,
        vec![
            BusOp::Write(0x0E, 0x23),
            BusOp::Write(0x0F, 0x01),
            BusOp::Write(0x10, 0x34),
            BusOp::Write(0x11, 0x02),
        ]
    );
}

#[test]
fn channel_sixteen_rejected_before_any_write() {
    let mut dev = controller();
    assert_eq!(
        dev.set_channel(16, (0, 0), (0, 0)),
        Err(PwmError::ChannelOutOfRange)
    );
    assert!(dev.bus.log.is_empty());
    assert_eq!(
        dev.set_channel_duty(16, 100, false),
        Err(PwmError::ChannelOutOfRange)
    );
    assert!(dev.bus.log.is_empty());
}

#[test]
fn duty_boundary_encodings() {
    // Fully off: the 4096 sentinel in the OFF slot.
    assert_eq!(duty_ticks(0, false), (0, 4096));
    assert_eq!(duty_ticks(4095, true), (0, 4096));
    // Fully on: the 4096 sentinel in the ON slot.
    assert_eq!(duty_ticks(4095, false), (4096, 0));
    assert_eq!(duty_ticks(0, true), (4096, 0));
}

#[test]
fn duty_linear_and_clamped() {
    assert_eq!(duty_ticks(2000, false), (0, 2000));
    assert_eq!(duty_ticks(2000, true), (0, 2095));
    assert_eq!(duty_ticks(1, false), (0, 1));
    assert_eq!(duty_ticks(4094, true), (0, 1));
    // Levels above 4095 clamp to 4095 before the boundary logic runs.
    assert_eq!(duty_ticks(9999, false), (4096, 0));
    assert_eq!(duty_ticks(9999, true), (0, 4096));
}

#[test]
fn duty_fully_off_register_bytes() {
    let mut dev = controller();
    dev.set_channel_duty(0, 0, false).unwrap();
    // OFF = 4096 = 0x1000: high byte 0x10, low byte 0x00.
    assert_eq!(
        dev.bus.log,
        vec![
            BusOp::Write(0x06, 0x00),
            BusOp::Write(0x07, 0x00),
            BusOp::Write(0x08, 0x00),
            BusOp::Write(0x09, 0x10),
        ]
    );
}

#[test]
fn duty_fully_on_register_bytes() {
    let mut dev = controller();
    dev.set_channel_duty(0, 4095, false).unwrap();
    // ON = 4096 = 0x1000: high byte 0x10 in the ON-high register.
    assert_eq!(
        dev.bus.log,
        vec![
            BusOp::Write(0x06, 0x00),
            BusOp::Write(0x07, 0x10),
            BusOp::Write(0x08, 0x00),
            BusOp::Write(0x09, 0x00),
        ]
    );
}

#[test]
fn duty_mid_level_register_bytes() {
    let mut dev = controller();
    dev.set_channel_duty(1, 1000, false).unwrap();
    // OFF = 1000 = 0x03E8 at channel 1's base register 0x0A.
    assert_eq!(
        dev.bus.log,
        vec![
            BusOp::Write(0x0A, 0x00),
            BusOp::Write(0x0B, 0x00),
            BusOp::Write(0x0C, 0xE8),
            BusOp::Write(0x0D, 0x03),
        ]
    );
}
