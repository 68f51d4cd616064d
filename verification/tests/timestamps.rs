use oref::time::{format_timestamp, format_timestamp_opt, parse_timestamp, tod_minutes};
use oref::profile::{BasalScheduleEntry, InsulinCurve, Profile};
use oref::OrefError;

#[test]
fn test_parse_rfc3339() {
    let result = parse_timestamp("2024-01-01T12:00:00Z").unwrap();
    assert_eq!(result, 1_704_110_400_000);
}

#[test]
fn test_parse_millis() {
    let result = parse_timestamp("1704110400000").unwrap();
    assert_eq!(result, 1_704_110_400_000);
}

#[test]
fn test_round_trip() {
    let original = chrono::Utc::now().timestamp_millis();
    let formatted = format_timestamp(original);
    let parsed = parse_timestamp(&formatted).unwrap();

    // Should be within 1 second (sub-second precision may be truncated)
    assert!((original - parsed).abs() < 1000);
}

#[test]
fn test_millis_round_trip() {
    let original = chrono::Utc::now().timestamp_millis();
    let text = format!("{}", original);
    let restored = parse_timestamp(&text).unwrap();

    // Should be within 1 millisecond
    assert!((original - restored).abs() < 1);
}

#[test]
fn test_parse_rfc3339_with_offset() {
    // 05:30 ahead of UTC: same instant as 06:30:00Z
    let result = parse_timestamp("2024-01-01T12:00:00+05:30").unwrap();
    assert_eq!(result, 1_704_110_400_000 - 5 * 3_600_000 - 30 * 60_000);
}

#[test]
fn test_parse_space_format() {
    // Naive "YYYY-MM-DD HH:MM:SS", read as UTC
    let result = parse_timestamp("2024-01-01 12:00:00").unwrap();
    assert_eq!(result, 1_704_110_400_000);
}

#[test]
fn test_parse_invalid_timestamp() {
    let result = parse_timestamp("not a timestamp");
    match result {
        Err(OrefError::InvalidTimestamp(t)) => assert_eq!(t, "not a timestamp"),
        _ => panic!("expected an invalid-timestamp error"),
    }
}

#[test]
fn test_parse_rejects_trailing_garbage_number() {
    assert!(parse_timestamp("123abc").is_err());
    assert!(parse_timestamp("").is_err());
    assert!(parse_timestamp("-").is_err());
}

#[test]
fn test_parse_negative_millis() {
    // Before the epoch
    let result = parse_timestamp("-86400000").unwrap();
    assert_eq!(result, -86_400_000);
}

#[test]
fn test_format_exact_text() {
    let formatted = format_timestamp(1_704_110_400_000);
    assert_eq!(formatted, "2024-01-01T12:00:00+00:00");
}

#[test]
fn test_format_opt_range() {
    // The first instant of year 10000: RFC 3339 text cannot carry it
    assert!(format_timestamp_opt(253_402_300_800_000).is_none());
    // Nor an instant before year 0000
    assert!(format_timestamp_opt(-62_167_219_200_001).is_none());
    // The last instant of year 9999 still round-trips
    let text = format_timestamp_opt(253_402_300_799_000).unwrap();
    assert_eq!(parse_timestamp(&text).unwrap(), 253_402_300_799_000);
    // So does an ordinary instant
    let text = format_timestamp_opt(1_704_110_400_000).unwrap();
    assert_eq!(parse_timestamp(&text).unwrap(), 1_704_110_400_000);
}

#[test]
fn test_tod_minutes() {
    assert_eq!(tod_minutes(1_704_110_400_000), 12 * 60); // 12:00 UTC
    assert_eq!(tod_minutes(0), 0); // the epoch was midnight
    assert_eq!(tod_minutes(-60_000), 1439); // one minute before it
}

#[test]
fn test_with_start_formats_time() {
    let entry = BasalScheduleEntry::with_start(0, 800, 6, 30, 0);
    assert_eq!(entry.minutes, 390);
    assert_eq!(entry.start.as_deref(), Some("06:30:00"));
    assert_eq!(entry.rate_milli, 800);
}

#[test]
fn test_profile_builder() {
    let profile: Profile = Profile::builder()
        .dia(360)
        .current_basal(2000)
        .carb_ratio(9_000)
        .max_basal(4000)
        .build();
    assert_eq!(profile.dia_minutes, 360);
    assert_eq!(profile.current_basal_milli, 2000);
    assert_eq!(profile.carb_ratio_milli, 9_000);
    assert_eq!(profile.max_basal_milli, 4000);
    // untouched fields keep their defaults
    assert_eq!(profile.max_cob_milligrams, 120_000);
    assert_eq!(profile.smb_interval, 3);
}

#[test]
fn test_effective_dia_floors() {
    let mut profile = Profile::default();
    profile.curve = InsulinCurve::Bilinear;
    profile.dia_minutes = 120;
    assert_eq!(profile.effective_dia(), 180);
    profile.curve = InsulinCurve::RapidActing;
    profile.dia_minutes = 240;
    assert_eq!(profile.effective_dia(), 300);
    profile.dia_minutes = 360;
    assert_eq!(profile.effective_dia(), 360);
}

#[test]
fn test_effective_peak_time_clamps() {
    let mut profile = Profile::default();
    assert_eq!(profile.effective_peak_time(), 75);
    profile.use_custom_peak_time = true;
    profile.insulin_peak_time_minutes = 130;
    profile.curve = InsulinCurve::RapidActing;
    assert_eq!(profile.effective_peak_time(), 120);
    profile.curve = InsulinCurve::UltraRapid;
    profile.insulin_peak_time_minutes = 20;
    assert_eq!(profile.effective_peak_time(), 35);
    profile.curve = InsulinCurve::Bilinear;
    assert_eq!(profile.effective_peak_time(), 75);
    profile.use_custom_peak_time = false;
    profile.curve = InsulinCurve::UltraRapid;
    assert_eq!(profile.effective_peak_time(), 55);
}
