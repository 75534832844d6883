use atmos::config::Band;
use atmos::config::HumiditySettings;
use atmos::config::TemperatureSettings;
use atmos::config::MAX_DURATION_SECONDS;
use atmos::error::AtmosError;
use atmos::read_atmosphere::next_retry_action;
use atmos::read_atmosphere::sensor_retries_exhausted_error;
use atmos::read_atmosphere::RetryAction;
use atmos::email_notification::create_alert_message;

fn ordered_temperature() -> TemperatureSettings {
    TemperatureSettings {
        low_range_start: 1500,
        low_range_end: 1999,
        high_range_start: 2500,
        high_range_end: 3000,
        ideal_range_start: 2000,
        ideal_range_end: 2499,
        fridge_cooldown_duration: 1200,
    }
}

fn ordered_humidity() -> HumiditySettings {
    HumiditySettings {
        low_range_start: 0,
        low_range_end: 3999,
        high_range_start: 6000,
        high_range_end: 10000,
        ideal_range_start: 4000,
        ideal_range_end: 5999,
        humidifier_cooldown_duration: 600,
        humidifier_activation_duration: 30,
        dehumidifier_cooldown_duration: 0,
    }
}

#[test]
fn band_membership_is_half_open() {
    let band = Band { start: 2000, end: 2500 };
    assert!(band.contains(2000));
    assert!(band.contains(2499));
    assert!(!band.contains(2500));
    assert!(!band.contains(1999));
}

// No value satisfies two ordered bands at once: each boundary value lands
// in exactly one of low, ideal, high.
#[test]
fn ordered_bands_never_overlap() {
    let t = ordered_temperature();
    let low = t.low_range();
    let ideal = t.ideal_range();
    let high = t.high_range();
    for v in [1500i64, 1999, 2000, 2499, 2500, 2999, 3000, -40, 9000] {
        let memberships =
            low.contains(v) as u8 + ideal.contains(v) as u8 + high.contains(v) as u8;
        assert!(memberships <= 1, "value {v} lies in two bands");
    }
}

#[test]
fn validate_accepts_ordered_ranges() {
    assert!(ordered_temperature().validate().is_ok());
    assert!(ordered_humidity().validate().is_ok());
}

#[test]
fn validate_rejects_overlapping_ranges() {
    let mut t = ordered_temperature();
    t.ideal_range_start = 1900; // overlaps the low band
    match t.validate() {
        Err(AtmosError::ConfigError(m)) => assert_eq!(m, "Invalid temperature ranges"),
        other => panic!("expected a configuration error, got {other:?}"),
    }

    let mut h = ordered_humidity();
    h.high_range_start = 5000; // overlaps the ideal band
    match h.validate() {
        Err(AtmosError::ConfigError(m)) => assert_eq!(m, "Invalid humidity ranges"),
        other => panic!("expected a configuration error, got {other:?}"),
    }
}

#[test]
fn error_reports_carry_label_and_detail() {
    let e = AtmosError::ConfigError(String::from("boom"));
    assert_eq!(e.label(), "Configuration error");
    assert_eq!(e.detail().as_str(), "boom");
    assert_eq!(e.describe(), "Configuration error: boom");

    let s = AtmosError::SensorReadError(String::from("no sensor"));
    assert_eq!(s.describe(), "Sensor read error: no sensor");

    let g = AtmosError::GpioError(String::from("pin busy"));
    assert_eq!(g.describe(), "GPIO error: pin busy");
}

#[test]
fn retry_policy_is_bounded() {
    assert_eq!(next_retry_action(false, 0), RetryAction::Accept);
    assert_eq!(next_retry_action(false, 10), RetryAction::Accept);
    assert_eq!(next_retry_action(true, 0), RetryAction::RetryAfterDelay);
    assert_eq!(next_retry_action(true, 9), RetryAction::RetryAfterDelay);
    assert_eq!(next_retry_action(true, 10), RetryAction::GiveUp);
    match sensor_retries_exhausted_error() {
        AtmosError::SensorReadError(m) => {
            assert_eq!(m, "MAX_RETRIES reached! Couldn't get data from sensor!")
        }
        other => panic!("expected a sensor read error, got {other:?}"),
    }
}

#[test]
fn alert_message_wording() {
    let (subject, body) = create_alert_message("Overheat", "fridge cannot keep up");
    assert_eq!(subject, "Atmos Alert: Overheat");
    assert_eq!(
        body,
        "An alert has been triggered in your Atmos system.\n\nAlert Type: Overheat\n\nDetails: fridge cannot keep up"
    );
}

#[test]
fn duration_cap_is_a_century() {
    assert_eq!(MAX_DURATION_SECONDS, 100 * 365 * 24 * 3600);
}
