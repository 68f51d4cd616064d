use oref::meal::{generate, find_meals, CobResult};
use oref::profile::Profile;
use oref::treatment::{CarbSource, Treatment};

fn make_profile() -> Profile {
    Profile {
        max_meal_absorption_minutes: 360,
        max_cob_milligrams: 120_000,
        ..Default::default()
    }
}

fn hours_ago(now: i64, h: i64) -> i64 {
    now - h * 3_600_000
}

#[test]
fn test_find_recent_carbs() {
    let now = chrono::Utc::now().timestamp_millis();
    let profile = make_profile();

    let treatments = vec![Treatment::carbs(50_000, hours_ago(now, 1))];

    let meal_data = generate(&profile, &treatments, &CobResult::default(), now);

    assert_eq!(meal_data.carbs_mg, 50_000);
    assert_eq!(meal_data.ns_carbs_mg, 50_000);
}

#[test]
fn test_ignore_old_carbs() {
    let now = chrono::Utc::now().timestamp_millis();
    let profile = make_profile();

    // Carbs from 7 hours ago (beyond 6h absorption window)
    let treatments = vec![Treatment::carbs(50_000, hours_ago(now, 7))];

    let meal_data = generate(&profile, &treatments, &CobResult::default(), now);

    assert_eq!(meal_data.carbs_mg, 0);
}

#[test]
fn test_multiple_carb_entries() {
    let now = chrono::Utc::now().timestamp_millis();
    let profile = make_profile();

    let treatments = vec![
        Treatment::carbs(30_000, hours_ago(now, 1)),
        Treatment::carbs(20_000, hours_ago(now, 2)),
    ];

    let meal_data = generate(&profile, &treatments, &CobResult::default(), now);

    assert_eq!(meal_data.carbs_mg, 50_000);
}

#[test]
fn test_cob_capped_by_max() {
    let now = chrono::Utc::now().timestamp_millis();
    let mut profile = make_profile();
    profile.max_cob_milligrams = 100_000;

    let treatments = vec![Treatment::carbs(150_000, now - 30 * 60_000)];

    let meal_data = generate(&profile, &treatments, &CobResult::default(), now);

    assert!(meal_data.meal_cob_mg <= 100_000);
}

#[test]
fn test_cob_capped_by_entered_carbs() {
    let now = chrono::Utc::now().timestamp_millis();
    let profile = make_profile();

    let treatments = vec![Treatment::carbs(20_000, hours_ago(now, 1))];
    let cob = CobResult {
        meal_cob_mg: 60_000,
        ..CobResult::default()
    };

    let meal_data = generate(&profile, &treatments, &cob, now);

    // Estimator says 60 g, but only 20 g were logged
    assert_eq!(meal_data.meal_cob_mg, 20_000);
    assert!(meal_data.meal_cob_mg <= meal_data.carbs_mg);
    assert!(meal_data.meal_cob_mg <= profile.max_cob_milligrams);
}

#[test]
fn test_carb_source_buckets() {
    let now = chrono::Utc::now().timestamp_millis();
    let profile = make_profile();

    let treatments = vec![
        Treatment::carbs_with_source(10_000, CarbSource::Network, hours_ago(now, 1)),
        Treatment::carbs_with_source(20_000, CarbSource::BolusWizard, hours_ago(now, 2)),
        Treatment::carbs_with_source(30_000, CarbSource::Journal, hours_ago(now, 3)),
        Treatment::carbs(5_000, hours_ago(now, 4)), // untagged: network bucket
    ];

    let meal_data = generate(&profile, &treatments, &CobResult::default(), now);

    assert_eq!(meal_data.ns_carbs_mg, 15_000);
    assert_eq!(meal_data.bw_carbs_mg, 20_000);
    assert_eq!(meal_data.journal_carbs_mg, 30_000);
    assert_eq!(
        meal_data.carbs_mg,
        meal_data.ns_carbs_mg + meal_data.bw_carbs_mg + meal_data.journal_carbs_mg
    );
    assert!(meal_data.bw_found);
    assert_eq!(meal_data.last_carb_time, hours_ago(now, 1));
}

#[test]
fn test_sub_gram_entries_ignored() {
    let now = chrono::Utc::now().timestamp_millis();
    let profile = make_profile();

    let treatments = vec![
        Treatment::carbs(900, hours_ago(now, 1)),  // 0.9 g: below the floor
        Treatment::carbs(25_000, hours_ago(now, 2)),
    ];

    let meal_data = generate(&profile, &treatments, &CobResult::default(), now);

    assert_eq!(meal_data.carbs_mg, 25_000);
    assert_eq!(meal_data.ns_carbs_mg, 25_000);
    assert_eq!(meal_data.last_carb_time, hours_ago(now, 2));
}

#[test]
fn test_find_meals_filters() {
    let now = chrono::Utc::now().timestamp_millis();
    let profile = make_profile();

    let treatments = vec![
        Treatment::carbs(50_000, hours_ago(now, 1)),
        Treatment::carbs(40_000, hours_ago(now, 7)), // outside window
        Treatment::bolus(2_000_000, hours_ago(now, 1)), // not carbs
    ];

    let meals = find_meals(&profile, &treatments, now);

    assert_eq!(meals.len(), 1);
    assert_eq!(meals[0].carb_milligrams(), Some(50_000));
    assert_eq!(meals[0].date, hours_ago(now, 1));
}

#[test]
fn test_deviation_passthrough() {
    let now = chrono::Utc::now().timestamp_millis();
    let profile = make_profile();

    let cob = CobResult {
        meal_cob_mg: 0,
        current_deviation_milli: 1500,
        max_deviation_milli: 4000,
        min_deviation_milli: -2000,
        slope_from_max_milli: -300,
        slope_from_min_milli: 700,
    };

    let meal_data = generate(&profile, &Vec::new(), &cob, now);

    assert_eq!(meal_data.current_deviation_milli, 1500);
    assert_eq!(meal_data.max_deviation_milli, 4000);
    assert_eq!(meal_data.min_deviation_milli, -2000);
    assert_eq!(meal_data.slope_from_max_deviation_milli, -300);
    assert_eq!(meal_data.slope_from_min_deviation_milli, 700);
    assert_eq!(meal_data.carbs_mg, 0);
    assert_eq!(meal_data.meal_cob_mg, 0);
    assert_eq!(meal_data.last_carb_time, 0);
    assert!(!meal_data.bw_found);
}
