use chrono::TimeZone;
use oref::history::{find_insulin_treatments, split_temp_basal_at_schedule_changes};
use oref::profile::{BasalScheduleEntry, Profile};
use oref::treatment::Treatment;

fn make_profile() -> Profile {
    Profile {
        dia_minutes: 300,
        current_basal_milli: 1000,
        ..Default::default()
    }
}

fn hours_ago(now: i64, h: i64) -> i64 {
    now - h * 3_600_000
}

fn minutes_ago(now: i64, m: i64) -> i64 {
    now - m * 60_000
}

#[test]
fn test_find_bolus_treatments() {
    let now = chrono::Utc::now().timestamp_millis();
    let profile = make_profile();

    let history = vec![Treatment::bolus(2_000_000, hours_ago(now, 1))];

    let treatments = find_insulin_treatments(&profile, &history, now, 0).unwrap();

    assert_eq!(treatments.len(), 1);
    assert_eq!(treatments[0].insulin_micro, 2_000_000);
}

#[test]
fn test_filter_old_treatments() {
    let now = chrono::Utc::now().timestamp_millis();
    let profile = make_profile();

    // Bolus from 6 hours ago (beyond 5h insulin action)
    let history = vec![Treatment::bolus(2_000_000, hours_ago(now, 6))];

    let treatments = find_insulin_treatments(&profile, &history, now, 0).unwrap();

    assert!(treatments.is_empty());
}

#[test]
fn test_temp_basal_to_insulin() {
    let now = chrono::Utc::now().timestamp_millis();
    let profile = make_profile();

    // Temp basal of 2 U/hr for 30 min, scheduled basal is 1 U/hr
    // Net rate is 1 U/hr, so 0.5 U total over 30 min
    let history = vec![Treatment::temp_basal(2000, 30, minutes_ago(now, 30))];

    let treatments = find_insulin_treatments(&profile, &history, now, 0).unwrap();

    // Should be split into 6 chunks (30 min / 5 min)
    assert!(treatments.len() >= 6);

    // Each chunk carries ~0.083 U (1 U/hr * 5/60 hr); total within 0.01 U
    let total: i64 = treatments.iter().map(|t| t.insulin_micro).sum();
    assert!((total - 500_000).abs() < 10_000);
}

#[test]
fn test_zero_temp_future() {
    let now = chrono::Utc::now().timestamp_millis();
    let profile = make_profile();

    // No history, but request 30 min zero temp projection
    let treatments = find_insulin_treatments(&profile, &[].to_vec(), now, 30).unwrap();

    // Should have 6 chunks of negative insulin
    assert_eq!(treatments.len(), 6);

    for t in &treatments {
        assert!(t.insulin_micro < 0);
    }
}

#[test]
fn test_split_temp_basal_no_schedule() {
    let now = chrono::Utc::now().timestamp_millis();
    let profile = make_profile(); // Empty basal_profile

    let treatment = Treatment::temp_basal(2000, 60, now);
    let result = split_temp_basal_at_schedule_changes(&treatment, &profile);

    // With no schedule, should return the original treatment
    assert_eq!(result.len(), 1);
    assert_eq!(result[0].duration(), Some(60));
}

#[test]
fn test_split_temp_basal_with_schedule() {
    // A time at 05:30 (330 minutes from midnight)
    let start_time = chrono::Utc
        .with_ymd_and_hms(2024, 1, 1, 5, 30, 0)
        .unwrap()
        .timestamp_millis();

    let profile = Profile {
        current_basal_milli: 1000,
        basal_profile: vec![
            BasalScheduleEntry::new(0, 800, 0),    // 00:00
            BasalScheduleEntry::new(1, 1000, 360), // 06:00 - 30 min after start
            BasalScheduleEntry::new(2, 1200, 720), // 12:00
        ],
        ..Default::default()
    };

    // 60-minute temp basal starting at 05:30 should split at 06:00
    let treatment = Treatment::temp_basal(2000, 60, start_time);
    let result = split_temp_basal_at_schedule_changes(&treatment, &profile);

    // Two segments: 30 min (05:30-06:00) and 30 min (06:00-06:30)
    assert_eq!(result.len(), 2);
    assert_eq!(result[0].duration(), Some(30));
    assert_eq!(result[1].duration(), Some(30));
}

#[test]
fn test_split_temp_basal_no_boundary_crossed() {
    // A time at 07:00 (420 minutes from midnight)
    let start_time = chrono::Utc
        .with_ymd_and_hms(2024, 1, 1, 7, 0, 0)
        .unwrap()
        .timestamp_millis();

    let profile = Profile {
        current_basal_milli: 1000,
        basal_profile: vec![
            BasalScheduleEntry::new(0, 800, 0),    // 00:00
            BasalScheduleEntry::new(1, 1000, 360), // 06:00
            BasalScheduleEntry::new(2, 1200, 720), // 12:00
        ],
        ..Default::default()
    };

    // 30-minute temp basal from 07:00-07:30, doesn't cross any boundary
    let treatment = Treatment::temp_basal(2000, 30, start_time);
    let result = split_temp_basal_at_schedule_changes(&treatment, &profile);

    // Should remain a single segment
    assert_eq!(result.len(), 1);
    assert_eq!(result[0].duration(), Some(30));
}

#[test]
fn test_split_temp_basal_not_temp_basal() {
    let now = chrono::Utc::now().timestamp_millis();
    let profile = make_profile();

    // A bolus treatment (not temp basal)
    let treatment = Treatment::bolus(2_000_000, now);
    let result = split_temp_basal_at_schedule_changes(&treatment, &profile);

    // Should return original
    assert_eq!(result.len(), 1);
    assert_eq!(result[0].insulin(), Some(2_000_000));
}

#[test]
fn test_zero_temp_projection_exact_values() {
    let now = chrono::Utc::now().timestamp_millis();
    let profile = make_profile();

    let treatments = find_insulin_treatments(&profile, &Vec::new(), now, 30).unwrap();

    // Six future chunks, each suspending 1 U/hr for 5 minutes:
    // -1000 mU/hr * 5/60 h = -83333 micro-units, truncated toward zero
    assert_eq!(treatments.len(), 6);
    for (k, t) in treatments.iter().enumerate() {
        assert_eq!(t.insulin_micro, -83_333);
        assert_eq!(t.date, now + (k as i64) * 300_000);
    }
}

#[test]
fn test_future_events_excluded() {
    let now = chrono::Utc::now().timestamp_millis();
    let profile = make_profile();

    let history = vec![
        Treatment::bolus(2_000_000, now + 3_600_000),
        Treatment::temp_basal(2000, 30, now + 600_000),
    ];

    let treatments = find_insulin_treatments(&profile, &history, now, 0).unwrap();
    assert!(treatments.is_empty());
}

#[test]
fn test_decomposition_sorted_by_date() {
    let now = chrono::Utc::now().timestamp_millis();
    let profile = make_profile();

    let history = vec![
        Treatment::bolus(1_000_000, minutes_ago(now, 10)),
        Treatment::bolus(2_000_000, minutes_ago(now, 200)),
        Treatment::temp_basal(3000, 20, minutes_ago(now, 60)),
    ];

    let treatments = find_insulin_treatments(&profile, &history, now, 0).unwrap();
    assert!(treatments.len() >= 6);
    for w in treatments.windows(2) {
        assert!(w[0].date <= w[1].date);
    }
}

#[test]
fn test_split_segment_dates_contiguous() {
    let start_time = chrono::Utc
        .with_ymd_and_hms(2024, 1, 1, 5, 30, 0)
        .unwrap()
        .timestamp_millis();

    let profile = Profile {
        current_basal_milli: 1000,
        basal_profile: vec![
            BasalScheduleEntry::new(0, 800, 0),
            BasalScheduleEntry::new(1, 1000, 360),
        ],
        ..Default::default()
    };

    // 90 minutes from 05:30: cut at 06:00, then run to 07:00
    let treatment = Treatment::temp_basal(1500, 90, start_time);
    let result = split_temp_basal_at_schedule_changes(&treatment, &profile);

    assert_eq!(result.len(), 2);
    assert_eq!(result[0].date, start_time);
    assert_eq!(result[0].duration(), Some(30));
    assert_eq!(result[1].date, start_time + 30 * 60_000);
    assert_eq!(result[1].duration(), Some(60));
    let total: i64 = result.iter().map(|t| t.duration().unwrap()).sum();
    assert_eq!(total, 90);
}
