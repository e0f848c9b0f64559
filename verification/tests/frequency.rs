use pca9685::{clamp_prescale, prescale_from_freq};

#[test]
fn freq_from_prescale() {
    assert_eq!(prescale_from_freq(25_000_000, 200), 0xE);
}

#[test]
fn prescale_clamps_low() {
    // A high target frequency computes a prescale below the minimum; the
    // driver clamps it up to 3.
    let raw = prescale_from_freq(25_000_000, 3000);
    assert_eq!(raw, 0);
    assert_eq!(clamp_prescale(raw), 3);
}

#[test]
fn prescale_clamps_high() {
    // A very low target frequency computes a prescale above the maximum;
    // the driver clamps it down to 255.
    let raw = prescale_from_freq(25_000_000, 1);
    assert_eq!(raw, 255);
    assert_eq!(clamp_prescale(raw), 255);
}

#[test]
fn prescale_in_range_passes_through() {
    let raw = prescale_from_freq(25_000_000, 200);
    assert_eq!(clamp_prescale(raw), 0xE);
}
