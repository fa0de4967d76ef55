use auto_display::display::{
    power_from_value, power_register_value, DisplayController, PowerOnRetry, RetryStep, POWER_MODE_FEATURE,
    POWER_ON_ATTEMPTS,
};
use auto_display::{DisplayError, I2cConfig};

fn config(path: &str) -> I2cConfig {
    I2cConfig { on: 0x01, off: 0x04, path: path.to_string() }
}

#[test]
fn values_are_on_then_off() {
    assert_eq!(config("/dev/i2c-12").values(), (0x01, 0x04));
}

#[test]
fn register_value_maps_to_power() {
    assert!(matches!(power_from_value(0x01, 0x01, 0x04), Ok(true)));
    assert!(matches!(power_from_value(0x04, 0x01, 0x04), Ok(false)));
}

#[test]
fn unexpected_register_value_is_an_error() {
    assert!(matches!(
        power_from_value(0x05, 0x01, 0x04),
        Err(DisplayError::UnexpectedValue(0x05))
    ));
    assert!(matches!(
        power_from_value(0x00, 0x01, 0x04),
        Err(DisplayError::UnexpectedValue(0x00))
    ));
}

#[test]
fn power_feature_code() {
    assert_eq!(POWER_MODE_FEATURE, 0xD6);
    assert_eq!(POWER_ON_ATTEMPTS, 20);
}

#[test]
fn retry_stops_at_first_success() {
    for k in 0..POWER_ON_ATTEMPTS {
        let mut retry = PowerOnRetry::new(POWER_ON_ATTEMPTS);
        for _ in 0..k {
            assert_eq!(retry.record(false), RetryStep::RetryAfterPause);
        }
        assert_eq!(retry.record(true), RetryStep::Succeeded);
        assert_eq!(retry.attempts(), k + 1);
    }
}

#[test]
fn retry_gives_up_after_last_attempt() {
    let mut retry = PowerOnRetry::new(POWER_ON_ATTEMPTS);
    for i in 0..POWER_ON_ATTEMPTS - 1 {
        assert_eq!(retry.record(false), RetryStep::RetryAfterPause, "attempt {}", i + 1);
    }
    assert_eq!(retry.record(false), RetryStep::Exhausted);
    assert_eq!(retry.attempts(), POWER_ON_ATTEMPTS);
}

#[test]
fn tenth_failure_is_not_the_end() {
    let mut retry = PowerOnRetry::new(POWER_ON_ATTEMPTS);
    for _ in 0..10 {
        assert_eq!(retry.record(false), RetryStep::RetryAfterPause);
    }
    assert_eq!(retry.record(true), RetryStep::Succeeded);
    assert_eq!(retry.attempts(), 11);
}

#[test]
fn single_attempt_limit() {
    let mut retry = PowerOnRetry::new(1);
    assert_eq!(retry.record(false), RetryStep::Exhausted);
    let mut retry = PowerOnRetry::new(1);
    assert_eq!(retry.record(true), RetryStep::Succeeded);
}

#[test]
fn missing_device_fails_to_open() {
    let cfg = config("/nonexistent/i2c-device");
    assert!(matches!(cfg.connect(), Err(DisplayError::Device(_))));
}

#[test]
fn missing_device_set_power_fails_without_retry() {
    let mut display = DisplayController::new(config("/nonexistent/i2c-device"));
    let pauses = std::cell::Cell::new(0u32);
    let r = display.set_power(true, || pauses.set(pauses.get() + 1));
    assert!(matches!(r, Err(DisplayError::Device(_))));
    assert_eq!(pauses.get(), 0);
    assert!(matches!(display.set_power(false, || {}), Err(DisplayError::Device(_))));
}

#[test]
fn register_value_follows_the_request() {
    assert_eq!(power_register_value(true, 0x01, 0x04), 0x01);
    assert_eq!(power_register_value(false, 0x01, 0x04), 0x04);
}
