use chrono::TimeZone;
use oref::basal::{basal_lookup, max_daily_basal};
use oref::carbs::carb_ratio_lookup;
use oref::profile::{BasalScheduleEntry, CarbRatioScheduleEntry, Profile};

fn at(h: u32, m: u32) -> i64 {
    chrono::Utc
        .with_ymd_and_hms(2024, 1, 1, h, m, 0)
        .unwrap()
        .timestamp_millis()
}

fn make_profile_with_schedule() -> Profile {
    Profile {
        current_basal_milli: 1000,
        basal_profile: vec![
            BasalScheduleEntry::new(0, 800, 0),     // 00:00
            BasalScheduleEntry::new(1, 1000, 360),  // 06:00
            BasalScheduleEntry::new(2, 1200, 720),  // 12:00
            BasalScheduleEntry::new(3, 900, 1080),  // 18:00
        ],
        ..Default::default()
    }
}

#[test]
fn test_basal_lookup_morning() {
    let profile = make_profile_with_schedule();
    let rate = basal_lookup(&profile, at(8, 0));
    assert_eq!(rate, 1000);
}

#[test]
fn test_basal_lookup_afternoon() {
    let profile = make_profile_with_schedule();
    let rate = basal_lookup(&profile, at(14, 0));
    assert_eq!(rate, 1200);
}

#[test]
fn test_basal_lookup_night() {
    let profile = make_profile_with_schedule();
    let rate = basal_lookup(&profile, at(3, 0));
    assert_eq!(rate, 800);
}

#[test]
fn test_max_daily_basal() {
    let profile = make_profile_with_schedule();
    let max = max_daily_basal(&profile);
    assert_eq!(max, 1200);
}

#[test]
fn test_empty_schedule_uses_current() {
    let profile = Profile {
        current_basal_milli: 750,
        basal_profile: vec![],
        ..Default::default()
    };

    let rate = basal_lookup(&profile, chrono::Utc::now().timestamp_millis());
    assert_eq!(rate, 750);
}

#[test]
fn test_max_daily_basal_empty_schedule() {
    let profile = Profile {
        current_basal_milli: 750,
        basal_profile: vec![],
        ..Default::default()
    };
    assert_eq!(max_daily_basal(&profile), 750);
}

#[test]
fn test_basal_lookup_wrap_rule() {
    // Entries at 00:00 (0.8), 06:00 (1.0), 12:00 (1.2): any time at or past
    // the last offset, and any time before the first, resolves to the last
    // entry.
    let profile = Profile {
        current_basal_milli: 1000,
        basal_profile: vec![
            BasalScheduleEntry::new(0, 800, 0),
            BasalScheduleEntry::new(1, 1000, 360),
            BasalScheduleEntry::new(2, 1200, 720),
        ],
        ..Default::default()
    };

    assert_eq!(basal_lookup(&profile, at(23, 59)), 1200);
    assert_eq!(basal_lookup(&profile, at(5, 59)), 800);
    assert_eq!(basal_lookup(&profile, at(6, 0)), 1000);
}

#[test]
fn test_carb_ratio_lookup_no_schedule() {
    let profile = Profile {
        carb_ratio_milli: 10_000,
        ..Default::default()
    };

    let ratio = carb_ratio_lookup(&profile, chrono::Utc::now().timestamp_millis());
    assert_eq!(ratio, 10_000);
}

#[test]
fn test_carb_ratio_lookup_single_entry() {
    let profile = Profile {
        carb_ratio_milli: 10_000,
        carb_ratio_profile: vec![
            CarbRatioScheduleEntry::new(0, 8_000, 0), // 00:00
        ],
        ..Default::default()
    };

    // Any time should return the single entry
    let ratio = carb_ratio_lookup(&profile, at(12, 0));
    assert_eq!(ratio, 8_000);
}

#[test]
fn test_carb_ratio_lookup_multiple_entries() {
    let profile = Profile {
        carb_ratio_milli: 10_000,
        carb_ratio_profile: vec![
            CarbRatioScheduleEntry::new(0, 8_000, 0),     // 00:00 - midnight
            CarbRatioScheduleEntry::new(1, 10_000, 360),  // 06:00 - morning
            CarbRatioScheduleEntry::new(2, 12_000, 720),  // 12:00 - noon
            CarbRatioScheduleEntry::new(3, 9_000, 1080),  // 18:00 - evening
        ],
        ..Default::default()
    };

    // 03:00 - midnight window
    assert_eq!(carb_ratio_lookup(&profile, at(3, 0)), 8_000);
    // 08:00 - morning window
    assert_eq!(carb_ratio_lookup(&profile, at(8, 0)), 10_000);
    // 14:00 - noon window
    assert_eq!(carb_ratio_lookup(&profile, at(14, 0)), 12_000);
    // 20:00 - evening window
    assert_eq!(carb_ratio_lookup(&profile, at(20, 0)), 9_000);
}

#[test]
fn test_carb_ratio_lookup_boundary_conditions() {
    let profile = Profile {
        carb_ratio_milli: 10_000,
        carb_ratio_profile: vec![
            CarbRatioScheduleEntry::new(0, 8_000, 0),    // 00:00
            CarbRatioScheduleEntry::new(1, 12_000, 720), // 12:00
        ],
        ..Default::default()
    };

    // Exactly at midnight - first entry
    assert_eq!(carb_ratio_lookup(&profile, at(0, 0)), 8_000);
    // Exactly at noon - second entry
    assert_eq!(carb_ratio_lookup(&profile, at(12, 0)), 12_000);
    // 11:59 - still first entry
    assert_eq!(carb_ratio_lookup(&profile, at(11, 59)), 8_000);
    // 23:59 - last entry wraps
    assert_eq!(carb_ratio_lookup(&profile, at(23, 59)), 12_000);
}

#[test]
fn test_carb_ratio_lookup_unsorted_entries() {
    // Entries are not in offset order - the lookup still resolves by
    // minutes from midnight
    let profile = Profile {
        carb_ratio_milli: 10_000,
        carb_ratio_profile: vec![
            CarbRatioScheduleEntry::new(2, 12_000, 720), // 12:00 - added first
            CarbRatioScheduleEntry::new(0, 8_000, 0),    // 00:00 - added second
            CarbRatioScheduleEntry::new(1, 10_000, 360), // 06:00 - added third
        ],
        ..Default::default()
    };

    assert_eq!(carb_ratio_lookup(&profile, at(8, 0)), 10_000);
}
