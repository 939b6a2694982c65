use solar_telemetry::errors::TelemetryError;
use solar_telemetry::zones::{reconcile_device_clock, resolve_zone};

// An instant in northern-hemisphere winter, when the eastern US observes
// standard time: 2023-01-15T00:00:00Z, in nanoseconds.
const WINTER_NANOS: i64 = 1_673_740_800_000_000_000;

#[test]
fn est_label_resolves() {
    let r = resolve_zone("EST", WINTER_NANOS);
    assert!(r.is_ok());
}

#[test]
fn unmatched_label_fails() {
    let r = resolve_zone("NOPEZONE", WINTER_NANOS);
    assert!(matches!(r, Err(TelemetryError::TimezoneNotResolved)));
}

#[test]
fn label_match_is_case_sensitive() {
    let r = resolve_zone("est", WINTER_NANOS);
    assert!(matches!(r, Err(TelemetryError::TimezoneNotResolved)));
}

#[test]
fn est_clock_reconciles_to_utc_minus_five() {
    // 01/15/2023 12:00 in any zone currently abbreviated EST (UTC-5)
    // is 2023-01-15T17:00:00Z.
    let clock = reconcile_device_clock("EST", "01/15/2023", "12:00", WINTER_NANOS).unwrap();
    assert_eq!(clock.local_nanos, 1_673_802_000_000_000_000);
}

#[test]
fn utc_label_resolves_and_reconciles() {
    let clock = reconcile_device_clock("UTC", "01/15/2023", "00:00", WINTER_NANOS).unwrap();
    assert_eq!(clock.local_nanos, WINTER_NANOS);
}

#[test]
fn malformed_clock_text_fails() {
    let r = reconcile_device_clock("EST", "99/99/2023", "12:00", WINTER_NANOS);
    assert!(matches!(r, Err(TelemetryError::InvalidDeviceClockFormat)));
}

#[test]
fn clock_wrong_shape_fails() {
    let r = reconcile_device_clock("EST", "2023-01-15", "12:00", WINTER_NANOS);
    assert!(matches!(r, Err(TelemetryError::InvalidDeviceClockFormat)));
}

#[test]
fn unresolved_zone_wins_over_clock_shape() {
    let r = reconcile_device_clock("NOPEZONE", "99/99/2023", "12:00", WINTER_NANOS);
    assert!(matches!(r, Err(TelemetryError::TimezoneNotResolved)));
}
