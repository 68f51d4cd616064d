//! The active configuration snapshot: insulin-action settings, scalar rates,
//! and the time-of-day schedules.
//!
//! All fractional settings are fixed-point integers in thousandths of the
//! unit the field name gives (a rate of 0.8 U/hr is 800 milli-units per
//! hour); blood-glucose settings are in thousandths of a mg/dL; carbohydrate
//! amounts are milligrams; times of day are minutes from midnight.

use vstd::prelude::*;
use crate::treatment::{MAX_RATE_MILLI, MAX_DURATION_MINUTES};

verus! {

/// Largest duration of insulin action, in minutes, this library computes
/// with (about 69 days).
pub const MAX_DIA_MINUTES: i64 = 100_000;

/// The insulin-activity curve a profile is configured with.
#[derive(Clone, Copy, PartialEq, Eq, Structural, Debug)]
pub enum InsulinCurve {
    /// Piecewise-linear activity.
    Bilinear,
    /// Rapid-acting analog insulin.
    RapidActing,
    /// Ultra-rapid analog insulin.
    UltraRapid,
}

impl InsulinCurve {
    /// The default insulin peak time of the curve, minutes after delivery.
    pub open spec fn spec_default_peak(self) -> u32 {
        match self {
            InsulinCurve::Bilinear => 75,
            InsulinCurve::RapidActing => 75,
            InsulinCurve::UltraRapid => 55,
        }
    }

    /// The default insulin peak time of the curve, minutes after delivery.
    pub fn default_peak(&self) -> (r: u32)
        ensures
            r == self.spec_default_peak(),
    {
        match self {
            InsulinCurve::Bilinear => 75,
            InsulinCurve::RapidActing => 75,
            InsulinCurve::UltraRapid => 55,
        }
    }
}

impl Default for InsulinCurve {
    fn default() -> (r: InsulinCurve)
        ensures
            r == InsulinCurve::RapidActing,
    {
        InsulinCurve::RapidActing
    }
}

/// Entry in a basal rate schedule: from `minutes` after midnight the
/// scheduled rate is `rate_milli` milli-units per hour.
pub struct BasalScheduleEntry {
    /// Logical index in the schedule.
    pub i: u32,
    /// Start time as "HH:MM:SS" text, where one was given.
    pub start: Option<String>,
    /// Basal rate in milli-units per hour.
    pub rate_milli: i64,
    /// Minutes from midnight at which the rate takes effect.
    pub minutes: u32,
}

impl BasalScheduleEntry {
    /// An entry with index `i`, rate in milli-units per hour, and offset in
    /// minutes from midnight.
    pub fn new(i: u32, rate_milli: i64, minutes: u32) -> (r: BasalScheduleEntry)
        ensures
            r.i == i,
            r.rate_milli == rate_milli,
            r.minutes == minutes,
            r.start is None,
    {
        BasalScheduleEntry { i, start: None, rate_milli, minutes }
    }

    /// An entry starting at the given time of day, carrying it both as
    /// minutes from midnight and as "HH:MM:SS" text.
    pub fn with_start(i: u32, rate_milli: i64, hour: u32, minute: u32, second: u32) -> (r:
        BasalScheduleEntry)
        requires
            hour < 24,
            minute < 60,
            second < 60,
        ensures
            r.i == i,
            r.rate_milli == rate_milli,
            r.minutes == hour * 60 + minute,
            r.start matches Some(t) && t@ == crate::time::hms_text(
                hour as int,
                minute as int,
                second as int,
            ),
    {
        BasalScheduleEntry {
            i,
            start: Some(crate::time::format_hms(hour, minute, second)),
            rate_milli,
            minutes: hour * 60 + minute,
        }
    }
}

/// Entry in a carb ratio schedule: from `minutes` after midnight the ratio is
/// `ratio_milli` milligrams of carbohydrate per milli-unit — equivalently,
/// thousandths of a gram per unit.
pub struct CarbRatioScheduleEntry {
    /// Logical index in the schedule.
    pub i: u32,
    /// Start time as "HH:MM:SS" text, where one was given.
    pub start: Option<String>,
    /// Carb ratio in thousandths of a gram per unit.
    pub ratio_milli: i64,
    /// Minutes from midnight at which the ratio takes effect.
    pub minutes: u32,
}

impl CarbRatioScheduleEntry {
    /// An entry with index `i`, ratio in thousandths of a gram per unit, and
    /// offset in minutes from midnight.
    pub fn new(i: u32, ratio_milli: i64, minutes: u32) -> (r: CarbRatioScheduleEntry)
        ensures
            r.i == i,
            r.ratio_milli == ratio_milli,
            r.minutes == minutes,
            r.start is None,
    {
        CarbRatioScheduleEntry { i, start: None, ratio_milli, minutes }
    }

    /// An entry starting at the given time of day, carrying it both as
    /// minutes from midnight and as "HH:MM:SS" text.
    pub fn with_start(i: u32, ratio_milli: i64, hour: u32, minute: u32, second: u32) -> (r:
        CarbRatioScheduleEntry)
        requires
            hour < 24,
            minute < 60,
            second < 60,
        ensures
            r.i == i,
            r.ratio_milli == ratio_milli,
            r.minutes == hour * 60 + minute,
            r.start matches Some(t) && t@ == crate::time::hms_text(
                hour as int,
                minute as int,
                second as int,
            ),
    {
        CarbRatioScheduleEntry {
            i,
            start: Some(crate::time::format_hms(hour, minute, second)),
            ratio_milli,
            minutes: hour * 60 + minute,
        }
    }
}

/// Entry in an insulin-sensitivity schedule.
pub struct ISFEntry {
    /// Minutes from midnight.
    pub offset: u32,
    /// Sensitivity in thousandths of a mg/dL per unit.
    pub sensitivity_milli: i64,
    /// End offset, filled in by consumers that cache spans.
    pub end_offset: Option<u32>,
}

/// An insulin-sensitivity schedule.
pub struct ISFProfile {
    /// The schedule entries.
    pub sensitivities: Vec<ISFEntry>,
}

impl ISFProfile {
    /// A schedule holding the single sensitivity `sensitivity_milli` from
    /// midnight on.
    pub fn single(sensitivity_milli: i64) -> (r: ISFProfile)
        ensures
            r.sensitivities@.len() == 1,
            r.sensitivities@[0].offset == 0,
            r.sensitivities@[0].sensitivity_milli == sensitivity_milli,
            r.sensitivities@[0].end_offset is None,
    {
        ISFProfile {
            sensitivities: vec![
                ISFEntry { offset: 0, sensitivity_milli, end_offset: None },
            ],
        }
    }
}

impl Default for ISFProfile {
    fn default() -> (r: ISFProfile)
        ensures
            r.sensitivities@.len() == 0,
    {
        ISFProfile { sensitivities: Vec::new() }
    }
}

/// Sensitivity-ratio adjustment derived from observed glucose response.
pub struct AutosensData {
    /// Sensitivity ratio in thousandths: 1000 is normal, above is resistant,
    /// below is sensitive.
    pub ratio_milli: i64,
}

impl AutosensData {
    /// An adjustment with the given ratio, in thousandths.
    pub fn with_ratio(ratio_milli: i64) -> (r: AutosensData)
        ensures
            r.ratio_milli == ratio_milli,
    {
        AutosensData { ratio_milli }
    }
}

impl Default for AutosensData {
    fn default() -> (r: AutosensData)
        ensures
            r.ratio_milli == 1000,
    {
        AutosensData { ratio_milli: 1000 }
    }
}

/// Default insulin peak time, minutes.
pub fn default_peak_time() -> (r: u32)
    ensures
        r == 75,
{
    75
}

/// Default cap on minutes of scheduled basal deliverable as one
/// super-micro-bolus.
pub fn default_max_smb_basal_minutes() -> (r: u32)
    ensures
        r == 30,
{
    30
}

/// Default minimum interval between super-micro-boluses, minutes.
pub fn default_smb_interval() -> (r: u32)
    ensures
        r == 3,
{
    3
}

/// Default for the settings that are on unless switched off.
pub fn default_true() -> (r: bool)
    ensures
        r == true,
{
    true
}

/// Bounds and uniqueness a schedule must satisfy before the lookup logic is
/// meaningful: every offset within the day, every rate within arithmetic
/// bounds, and offsets pairwise distinct (entries are keyed by their
/// minutes-from-midnight).
pub open spec fn wf_basal_schedule(s: Seq<BasalScheduleEntry>) -> bool {
    &&& forall|k: int|
        0 <= k < s.len() ==> (#[trigger] s[k]).minutes < 1440 && -MAX_RATE_MILLI <= s[k].rate_milli
            <= MAX_RATE_MILLI
    &&& forall|j: int, k: int|
        #![trigger s[j], s[k]]
        0 <= j < k < s.len() ==> s[j].minutes != s[k].minutes
}

/// The same bounds and uniqueness for a carb ratio schedule.
pub open spec fn wf_carb_schedule(s: Seq<CarbRatioScheduleEntry>) -> bool {
    &&& forall|k: int|
        0 <= k < s.len() ==> (#[trigger] s[k]).minutes < 1440 && -MAX_RATE_MILLI <= s[k].ratio_milli
            <= MAX_RATE_MILLI
    &&& forall|j: int, k: int|
        #![trigger s[j], s[k]]
        0 <= j < k < s.len() ==> s[j].minutes != s[k].minutes
}

/// The active configuration snapshot.  Read-only for this library: every
/// operation takes it by shared reference and copies what it sorts.
pub struct Profile {
    /// Duration of insulin action, minutes.
    pub dia_minutes: i64,
    /// Current scheduled basal rate, milli-units per hour.
    pub current_basal_milli: i64,
    /// Maximum insulin on board, micro-units.
    pub max_iob_micro: i64,
    /// Maximum daily basal rate from the schedule, milli-units per hour.
    pub max_daily_basal_milli: i64,
    /// Absolute maximum basal rate, milli-units per hour.
    pub max_basal_milli: i64,
    /// Minimum blood-glucose target, thousandths of a mg/dL.
    pub min_bg_milli: i64,
    /// Maximum blood-glucose target, thousandths of a mg/dL.
    pub max_bg_milli: i64,
    /// Insulin sensitivity, thousandths of a mg/dL per unit.
    pub sens_milli: i64,
    /// Carb ratio, thousandths of a gram per unit.
    pub carb_ratio_milli: i64,
    /// Insulin curve variant.
    pub curve: InsulinCurve,
    /// Insulin peak time, minutes.
    pub peak_minutes: u32,
    /// Use the custom peak time instead of the curve default.
    pub use_custom_peak_time: bool,
    /// Custom insulin peak time, minutes.
    pub insulin_peak_time_minutes: u32,
    /// Minimum autosens ratio, thousandths.
    pub autosens_min_milli: i64,
    /// Maximum autosens ratio, thousandths.
    pub autosens_max_milli: i64,
    /// Minimum 5-minute carb impact, thousandths of a mg/dL per 5 minutes.
    pub min_5m_carbimpact_milli: i64,
    /// Maximum carbs on board, milligrams.
    pub max_cob_milligrams: i64,
    /// Maximum meal absorption window, minutes.
    pub max_meal_absorption_minutes: i64,
    /// Always enable super-micro-boluses.
    pub enable_smb_always: bool,
    /// Enable super-micro-boluses while carbs are on board.
    pub enable_smb_with_cob: bool,
    /// Enable super-micro-boluses for eating-soon temp targets.
    pub enable_smb_with_temptarget: bool,
    /// Enable super-micro-boluses for six hours after a carb entry.
    pub enable_smb_after_carbs: bool,
    /// Enable super-micro-boluses above the high blood-glucose threshold.
    pub enable_smb_high_bg: bool,
    /// High blood-glucose threshold for the setting above, thousandths of a
    /// mg/dL.
    pub enable_smb_high_bg_target_milli: i64,
    /// Allow super-micro-boluses with high temp targets.
    pub allow_smb_with_high_temptarget: bool,
    /// Maximum minutes of basal as a super-micro-bolus with carbs on board.
    pub max_smb_basal_minutes: u32,
    /// Maximum minutes of basal as a super-micro-bolus on an unannounced
    /// meal.
    pub max_uam_smb_basal_minutes: u32,
    /// Minimum interval between super-micro-boluses, minutes.
    pub smb_interval: u32,
    /// Minimum bolus increment, micro-units.
    pub bolus_increment_micro: i64,
    /// Super-micro-bolus delivery ratio, thousandths.
    pub smb_delivery_ratio_milli: i64,
    /// Enable unannounced-meal detection.
    pub enable_uam: bool,
    /// Use dynamic insulin sensitivity.
    pub use_dynamic_isf: bool,
    /// Use the sigmoid formula for dynamic sensitivity.
    pub sigmoid: bool,
    /// Adjustment factor for logarithmic dynamic sensitivity, thousandths.
    pub adjustment_factor_milli: i64,
    /// Adjustment factor for sigmoid dynamic sensitivity, thousandths.
    pub adjustment_factor_sigmoid_milli: i64,
    /// Weight percentage for total-daily-dose averaging, thousandths.
    pub weight_percentage_milli: i64,
    /// Adjust basal from the total-daily-dose ratio.
    pub tdd_adj_basal: bool,
    /// Whether a temp target is currently set.
    pub temptarget_set: bool,
    /// A high temp target raises sensitivity.
    pub high_temptarget_raises_sensitivity: bool,
    /// A low temp target lowers sensitivity.
    pub low_temptarget_lowers_sensitivity: bool,
    /// Exercise mode.
    pub exercise_mode: bool,
    /// Half-basal exercise target, thousandths of a mg/dL.
    pub half_basal_exercise_target_milli: i64,
    /// Skip setting neutral temps.
    pub skip_neutral_temps: bool,
    /// A pump rewind resets autosens.
    pub rewind_resets_autosens: bool,
    /// Warn on bolus-wizard-driven dosing risk.
    pub a52_risk_enable: bool,
    /// A pump suspension zeroes insulin on board.
    pub suspend_zeros_iob: bool,
    /// Basal rate schedule.
    pub basal_profile: Vec<BasalScheduleEntry>,
    /// Insulin-sensitivity schedule.
    pub isf_profile: ISFProfile,
    /// Carb ratio schedule.
    pub carb_ratio_profile: Vec<CarbRatioScheduleEntry>,
    /// Pump model, for rounding rules.
    pub model: Option<String>,
    /// Output units, "mg/dL" or "mmol/L".
    pub out_units: Option<String>,
}

impl Profile {
    /// Bounds under which window and schedule arithmetic cannot overflow,
    /// and the schedule invariant of distinct, in-day offsets.
    pub open spec fn wf(self) -> bool {
        &&& 0 <= self.dia_minutes <= MAX_DIA_MINUTES
        &&& -MAX_RATE_MILLI <= self.current_basal_milli <= MAX_RATE_MILLI
        &&& -MAX_RATE_MILLI <= self.carb_ratio_milli <= MAX_RATE_MILLI
        &&& 0 <= self.max_meal_absorption_minutes <= MAX_DURATION_MINUTES
        &&& wf_basal_schedule(self.basal_profile@)
        &&& wf_carb_schedule(self.carb_ratio_profile@)
    }

    /// A builder over the default profile.
    pub fn builder() -> (r: ProfileBuilder)
        ensures
            is_default_profile(r.profile),
            r.profile.wf(),
    {
        ProfileBuilder { profile: Profile::default() }
    }

    /// Duration of insulin action in minutes with the curve's floor applied:
    /// the bilinear curve floors it at 3 hours, the rapid and ultra-rapid
    /// curves at 5 hours, protecting against under-estimating active insulin
    /// for short user-entered values.
    pub open spec fn spec_effective_dia_minutes(self) -> i64 {
        match self.curve {
            InsulinCurve::Bilinear => if self.dia_minutes >= 180 {
                self.dia_minutes
            } else {
                180
            },
            _ => if self.dia_minutes >= 300 {
                self.dia_minutes
            } else {
                300
            },
        }
    }

    /// Duration of insulin action in minutes, with the curve's floor.
    pub fn effective_dia(&self) -> (r: i64)
        ensures
            r == self.spec_effective_dia_minutes(),
    {
        let floor_minutes: i64 = match self.curve {
            InsulinCurve::Bilinear => 180,
            InsulinCurve::RapidActing => 300,
            InsulinCurve::UltraRapid => 300,
        };
        if self.dia_minutes >= floor_minutes {
            self.dia_minutes
        } else {
            floor_minutes
        }
    }

    /// The effective insulin peak time: the custom setting clamped to the
    /// curve's admissible span where custom peaks are enabled, else the
    /// curve's default.
    pub open spec fn spec_effective_peak_minutes(self) -> u32 {
        if self.use_custom_peak_time {
            match self.curve {
                InsulinCurve::RapidActing => if self.insulin_peak_time_minutes < 50 {
                    50
                } else if self.insulin_peak_time_minutes > 120 {
                    120
                } else {
                    self.insulin_peak_time_minutes
                },
                InsulinCurve::UltraRapid => if self.insulin_peak_time_minutes < 35 {
                    35
                } else if self.insulin_peak_time_minutes > 100 {
                    100
                } else {
                    self.insulin_peak_time_minutes
                },
                InsulinCurve::Bilinear => 75,
            }
        } else {
            self.curve.spec_default_peak()
        }
    }

    /// The effective insulin peak time, minutes.
    pub fn effective_peak_time(&self) -> (r: u32)
        ensures
            r == self.spec_effective_peak_minutes(),
    {
        if self.use_custom_peak_time {
            match self.curve {
                InsulinCurve::RapidActing => {
                    if self.insulin_peak_time_minutes < 50 {
                        50
                    } else if self.insulin_peak_time_minutes > 120 {
                        120
                    } else {
                        self.insulin_peak_time_minutes
                    }
                },
                InsulinCurve::UltraRapid => {
                    if self.insulin_peak_time_minutes < 35 {
                        35
                    } else if self.insulin_peak_time_minutes > 100 {
                        100
                    } else {
                        self.insulin_peak_time_minutes
                    }
                },
                InsulinCurve::Bilinear => 75,
            }
        } else {
            self.curve.default_peak()
        }
    }

}

/// The default value of every independently-defaulted setting.  This is the
/// reference table: 5 h insulin action, 1 U/hr basal, rapid curve, autosens
/// bounds 0.7–1.2, 120 g maximum carbs on board, 6 h meal absorption,
/// 3-minute super-micro-bolus interval, empty schedules.
pub open spec fn is_default_profile(r: Profile) -> bool {
    &&& r.dia_minutes == 300
    &&& r.current_basal_milli == 1000
    &&& r.max_iob_micro == 0
    &&& r.max_daily_basal_milli == 1000
    &&& r.max_basal_milli == 3500
    &&& r.min_bg_milli == 100_000
    &&& r.max_bg_milli == 120_000
    &&& r.sens_milli == 50_000
    &&& r.carb_ratio_milli == 10_000
    &&& r.curve == InsulinCurve::RapidActing
    &&& r.peak_minutes == 75
    &&& !r.use_custom_peak_time
    &&& r.insulin_peak_time_minutes == 75
    &&& r.autosens_min_milli == 700
    &&& r.autosens_max_milli == 1200
    &&& r.min_5m_carbimpact_milli == 8000
    &&& r.max_cob_milligrams == 120_000
    &&& r.max_meal_absorption_minutes == 360
    &&& !r.enable_smb_always
    &&& !r.enable_smb_with_cob
    &&& !r.enable_smb_with_temptarget
    &&& !r.enable_smb_after_carbs
    &&& !r.enable_smb_high_bg
    &&& r.enable_smb_high_bg_target_milli == 110_000
    &&& !r.allow_smb_with_high_temptarget
    &&& r.max_smb_basal_minutes == 30
    &&& r.max_uam_smb_basal_minutes == 30
    &&& r.smb_interval == 3
    &&& r.bolus_increment_micro == 100_000
    &&& r.smb_delivery_ratio_milli == 500
    &&& !r.enable_uam
    &&& !r.use_dynamic_isf
    &&& !r.sigmoid
    &&& r.adjustment_factor_milli == 800
    &&& r.adjustment_factor_sigmoid_milli == 500
    &&& r.weight_percentage_milli == 650
    &&& !r.tdd_adj_basal
    &&& !r.temptarget_set
    &&& !r.high_temptarget_raises_sensitivity
    &&& !r.low_temptarget_lowers_sensitivity
    &&& !r.exercise_mode
    &&& r.half_basal_exercise_target_milli == 160_000
    &&& !r.skip_neutral_temps
    &&& r.rewind_resets_autosens
    &&& !r.a52_risk_enable
    &&& r.suspend_zeros_iob
    &&& r.basal_profile@.len() == 0
    &&& r.isf_profile.sensitivities@.len() == 0
    &&& r.carb_ratio_profile@.len() == 0
    &&& r.model is None
    &&& r.out_units is None
}

impl Default for Profile {
    /// The default configuration, as `is_default_profile` enumerates it.
    fn default() -> (r: Profile)
        ensures
            is_default_profile(r),
            r.wf(),
    {
        let r = Profile {
            dia_minutes: 300,
            current_basal_milli: 1000,
            max_iob_micro: 0,
            max_daily_basal_milli: 1000,
            max_basal_milli: 3500,
            min_bg_milli: 100_000,
            max_bg_milli: 120_000,
            sens_milli: 50_000,
            carb_ratio_milli: 10_000,
            curve: InsulinCurve::RapidActing,
            peak_minutes: 75,
            use_custom_peak_time: false,
            insulin_peak_time_minutes: 75,
            autosens_min_milli: 700,
            autosens_max_milli: 1200,
            min_5m_carbimpact_milli: 8000,
            max_cob_milligrams: 120_000,
            max_meal_absorption_minutes: 360,
            enable_smb_always: false,
            enable_smb_with_cob: false,
            enable_smb_with_temptarget: false,
            enable_smb_after_carbs: false,
            enable_smb_high_bg: false,
            enable_smb_high_bg_target_milli: 110_000,
            allow_smb_with_high_temptarget: false,
            max_smb_basal_minutes: 30,
            max_uam_smb_basal_minutes: 30,
            smb_interval: 3,
            bolus_increment_micro: 100_000,
            smb_delivery_ratio_milli: 500,
            enable_uam: false,
            use_dynamic_isf: false,
            sigmoid: false,
            adjustment_factor_milli: 800,
            adjustment_factor_sigmoid_milli: 500,
            weight_percentage_milli: 650,
            tdd_adj_basal: false,
            temptarget_set: false,
            high_temptarget_raises_sensitivity: false,
            low_temptarget_lowers_sensitivity: false,
            exercise_mode: false,
            half_basal_exercise_target_milli: 160_000,
            skip_neutral_temps: false,
            rewind_resets_autosens: true,
            a52_risk_enable: false,
            suspend_zeros_iob: true,
            basal_profile: Vec::new(),
            isf_profile: ISFProfile { sensitivities: Vec::new() },
            carb_ratio_profile: Vec::new(),
            model: None,
            out_units: None,
        };
        r
    }
}

/// A fluent builder over the default profile.
pub struct ProfileBuilder {
    /// The profile under construction.
    pub profile: Profile,
}

impl ProfileBuilder {
    /// Set the duration of insulin action, minutes.
    pub fn dia(self, dia_minutes: i64) -> (r: ProfileBuilder)
        ensures
            r.profile == (Profile { dia_minutes, ..self.profile }),
    {
        ProfileBuilder { profile: Profile { dia_minutes, ..self.profile } }
    }

    /// Set the insulin sensitivity, thousandths of a mg/dL per unit.
    pub fn sens(self, sens_milli: i64) -> (r: ProfileBuilder)
        ensures
            r.profile == (Profile { sens_milli, ..self.profile }),
    {
        ProfileBuilder { profile: Profile { sens_milli, ..self.profile } }
    }

    /// Set the carb ratio, thousandths of a gram per unit.
    pub fn carb_ratio(self, carb_ratio_milli: i64) -> (r: ProfileBuilder)
        ensures
            r.profile == (Profile { carb_ratio_milli, ..self.profile }),
    {
        ProfileBuilder { profile: Profile { carb_ratio_milli, ..self.profile } }
    }

    /// Set the insulin curve.
    pub fn curve(self, curve: InsulinCurve) -> (r: ProfileBuilder)
        ensures
            r.profile == (Profile { curve, ..self.profile }),
    {
        ProfileBuilder { profile: Profile { curve, ..self.profile } }
    }

    /// Set the current basal rate, milli-units per hour.
    pub fn current_basal(self, current_basal_milli: i64) -> (r: ProfileBuilder)
        ensures
            r.profile == (Profile { current_basal_milli, ..self.profile }),
    {
        ProfileBuilder { profile: Profile { current_basal_milli, ..self.profile } }
    }

    /// Set the maximum insulin on board, micro-units.
    pub fn max_iob(self, max_iob_micro: i64) -> (r: ProfileBuilder)
        ensures
            r.profile == (Profile { max_iob_micro, ..self.profile }),
    {
        ProfileBuilder { profile: Profile { max_iob_micro, ..self.profile } }
    }

    /// Set the absolute maximum basal rate, milli-units per hour.
    pub fn max_basal(self, max_basal_milli: i64) -> (r: ProfileBuilder)
        ensures
            r.profile == (Profile { max_basal_milli, ..self.profile }),
    {
        ProfileBuilder { profile: Profile { max_basal_milli, ..self.profile } }
    }

    /// Set the minimum blood-glucose target, thousandths of a mg/dL.
    pub fn min_bg(self, min_bg_milli: i64) -> (r: ProfileBuilder)
        ensures
            r.profile == (Profile { min_bg_milli, ..self.profile }),
    {
        ProfileBuilder { profile: Profile { min_bg_milli, ..self.profile } }
    }

    /// Set the maximum blood-glucose target, thousandths of a mg/dL.
    pub fn max_bg(self, max_bg_milli: i64) -> (r: ProfileBuilder)
        ensures
            r.profile == (Profile { max_bg_milli, ..self.profile }),
    {
        ProfileBuilder { profile: Profile { max_bg_milli, ..self.profile } }
    }

    /// Set the basal rate schedule.
    pub fn basal_profile(self, basal_profile: Vec<BasalScheduleEntry>) -> (r: ProfileBuilder)
        ensures
            r.profile == (Profile { basal_profile, ..self.profile }),
    {
        ProfileBuilder { profile: Profile { basal_profile, ..self.profile } }
    }

    /// Set the insulin-sensitivity schedule.
    pub fn isf_profile(self, isf_profile: ISFProfile) -> (r: ProfileBuilder)
        ensures
            r.profile == (Profile { isf_profile, ..self.profile }),
    {
        ProfileBuilder { profile: Profile { isf_profile, ..self.profile } }
    }

    /// Finish, handing out the profile.
    pub fn build(self) -> (r: Profile)
        ensures
            r == self.profile,
    {
        self.profile
    }
}

} // verus!
