use media_worker::progress::Progress;

fn percent(value: f64) -> u8 {
    Progress::from_bits(value.to_bits()).percent()
}

#[test]
fn progress_is_clamped_and_rounded() {
    assert_eq!(percent(200.8), 100);
    assert_eq!(percent(-5.0), 0);
    assert_eq!(percent(42.4), 42);
}

#[test]
fn progress_halves_go_up() {
    assert_eq!(percent(0.5), 1);
    assert_eq!(percent(2.5), 3);
    assert_eq!(percent(42.5), 43);
    assert_eq!(percent(99.5), 100);
    assert_eq!(percent(0.49999999999999994), 0);
    assert_eq!(percent(42.49999999999999), 42);
}

#[test]
fn progress_of_whole_numbers_is_kept() {
    for whole in 0u8..=100 {
        assert_eq!(percent(whole as f64), whole);
    }
    assert_eq!(percent(101.0), 100);
    assert_eq!(percent(1.0e300), 100);
    assert_eq!(percent(9007199254740992.0), 100);
}

#[test]
fn progress_of_small_and_odd_values() {
    assert_eq!(percent(0.0), 0);
    assert_eq!(percent(-0.0), 0);
    assert_eq!(percent(5e-324), 0);
    assert_eq!(percent(1.0e-300), 0);
    assert_eq!(percent(-0.4), 0);
    assert_eq!(percent(-1.0e300), 0);
    assert_eq!(percent(f64::INFINITY), 100);
    assert_eq!(percent(f64::NEG_INFINITY), 0);
    assert_eq!(percent(f64::NAN), 0);
}

#[test]
fn progress_agrees_with_rounding_then_clamping() {
    let mut value = -3.0f64;
    while value < 104.0 {
        let expected = value.round().clamp(0.0, 100.0) as u8;
        assert_eq!(percent(value), expected, "at {}", value);
        value += 0.0625;
    }
    let mut value = 0.001f64;
    while value < 150.0 {
        let expected = value.round().clamp(0.0, 100.0) as u8;
        assert_eq!(percent(value), expected, "at {}", value);
        value *= 1.0371;
    }
}
