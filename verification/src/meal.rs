//! Carbohydrate windowing, categorisation, and bounded carbs-on-board.
//!
//! `generate` windows carb entries over the meal-absorption window, sums
//! them into per-source buckets, and combines them with the deviation-based
//! estimate of the external carbs-on-board engine, whose output is handed in
//! as a plain `CobResult` value.  `find_meals` is the bare filter.

use vstd::prelude::*;
use crate::profile::Profile;
use crate::treatment::{
    Treatment, TreatmentView, TreatmentKind, CarbSource, MAX_CARB_MILLIGRAMS, treatment_views,
};
use crate::time::valid_time_millis;

verus! {

/// Largest history length the aggregation totals are proven overflow-free
/// for.
pub const MAX_HISTORY_LEN: usize = 100_000_000;

/// Output of the external deviation-based carbs-on-board estimator, handed
/// in by the caller: an opaque pass-through but for `meal_cob_mg`.
pub struct CobResult {
    /// Deviation-derived carbs on board, milligrams.
    pub meal_cob_mg: i64,
    /// Current glucose deviation, thousandths of a mg/dL.
    pub current_deviation_milli: i64,
    /// Largest observed deviation, thousandths of a mg/dL.
    pub max_deviation_milli: i64,
    /// Smallest observed deviation, thousandths of a mg/dL.
    pub min_deviation_milli: i64,
    /// Slope from the largest deviation, thousandths.
    pub slope_from_max_milli: i64,
    /// Slope from the smallest deviation, thousandths.
    pub slope_from_min_milli: i64,
}

impl Default for CobResult {
    /// An estimate of zero everywhere, as for an empty glucose series.
    fn default() -> (r: CobResult)
        ensures
            r.meal_cob_mg == 0,
            r.current_deviation_milli == 0,
            r.max_deviation_milli == 0,
            r.min_deviation_milli == 0,
            r.slope_from_max_milli == 0,
            r.slope_from_min_milli == 0,
    {
        CobResult {
            meal_cob_mg: 0,
            current_deviation_milli: 0,
            max_deviation_milli: 0,
            min_deviation_milli: 0,
            slope_from_max_milli: 0,
            slope_from_min_milli: 0,
        }
    }
}

/// The aggregated meal snapshot, freshly built on every call.  Amounts are
/// milligrams, so every field is already exact at the presentation
/// precision of thousandths of a gram.
pub struct MealData {
    /// Total qualifying carbs, milligrams.
    pub carbs_mg: i64,
    /// Carbs entered over the network (and untagged entries), milligrams.
    pub ns_carbs_mg: i64,
    /// Carbs entered through the bolus wizard, milligrams.
    pub bw_carbs_mg: i64,
    /// Carbs entered in a journal, milligrams.
    pub journal_carbs_mg: i64,
    /// Bounded carbs on board, milligrams.
    pub meal_cob_mg: i64,
    /// Pass-through deviation statistics from the estimator.
    pub current_deviation_milli: i64,
    /// Pass-through deviation statistics from the estimator.
    pub max_deviation_milli: i64,
    /// Pass-through deviation statistics from the estimator.
    pub min_deviation_milli: i64,
    /// Pass-through deviation statistics from the estimator.
    pub slope_from_max_deviation_milli: i64,
    /// Pass-through deviation statistics from the estimator.
    pub slope_from_min_deviation_milli: i64,
    /// Individual deviations; not carried over from the estimator.
    pub all_deviations: Vec<i64>,
    /// Largest effective date among qualifying carb entries, or zero.
    pub last_carb_time: i64,
    /// Whether any qualifying entry came through the bolus wizard.
    pub bw_found: bool,
}

/// Start of the meal-absorption window.
pub open spec fn meal_window_start(profile: Profile, clock: i64) -> int {
    clock - profile.max_meal_absorption_minutes * 60000
}

/// Whether an event is inside the meal-absorption window.
pub open spec fn in_meal_window(profile: Profile, clock: i64, date: i64) -> bool {
    meal_window_start(profile, clock) <= date && date <= clock
}

/// A carb entry that counts: inside the window and at least one gram (the
/// noise floor).
pub open spec fn carb_qualifying(profile: Profile, clock: i64, tv: TreatmentView) -> bool {
    &&& in_meal_window(profile, clock, tv.date)
    &&& match tv.kind {
        TreatmentKind::Carbs { milligrams, source } => milligrams >= 1000,
        _ => false,
    }
}

/// The source bucket of a carb entry: its tag, or the network bucket where
/// none was given.
pub open spec fn carb_bucket(tv: TreatmentView) -> CarbSource {
    match tv.kind {
        TreatmentKind::Carbs { milligrams, source } => match source {
            Some(s) => s,
            None => CarbSource::Network,
        },
        _ => CarbSource::Network,
    }
}

/// The milligrams a qualifying entry contributes, zero otherwise.
pub open spec fn carb_amount(profile: Profile, clock: i64, tv: TreatmentView) -> int {
    if carb_qualifying(profile, clock, tv) {
        match tv.kind {
            TreatmentKind::Carbs { milligrams, source } => milligrams as int,
            _ => 0,
        }
    } else {
        0
    }
}

/// Total qualifying carbs of the history, milligrams.
pub open spec fn total_carbs_mg(profile: Profile, hist: Seq<TreatmentView>, clock: i64) -> int
    decreases hist.len(),
{
    if hist.len() == 0 {
        0
    } else {
        total_carbs_mg(profile, hist.drop_last(), clock) + carb_amount(profile, clock, hist.last())
    }
}

/// Qualifying carbs of one source bucket, milligrams.
pub open spec fn source_carbs_mg(
    profile: Profile,
    hist: Seq<TreatmentView>,
    clock: i64,
    src: CarbSource,
) -> int
    decreases hist.len(),
{
    if hist.len() == 0 {
        0
    } else {
        source_carbs_mg(profile, hist.drop_last(), clock, src) + (if carb_bucket(hist.last())
            == src {
            carb_amount(profile, clock, hist.last())
        } else {
            0
        })
    }
}

/// Largest effective date among qualifying entries, or zero with none.
pub open spec fn last_carb_time_millis(profile: Profile, hist: Seq<TreatmentView>, clock: i64) -> int
    decreases hist.len(),
{
    if hist.len() == 0 {
        0
    } else {
        let rest = last_carb_time_millis(profile, hist.drop_last(), clock);
        if carb_qualifying(profile, clock, hist.last()) && hist.last().date > rest {
            hist.last().date as int
        } else {
            rest
        }
    }
}

/// Whether any qualifying entry came through the bolus wizard.
pub open spec fn bw_found_in(profile: Profile, hist: Seq<TreatmentView>, clock: i64) -> bool
    decreases hist.len(),
{
    if hist.len() == 0 {
        false
    } else {
        bw_found_in(profile, hist.drop_last(), clock) || (carb_qualifying(
            profile,
            clock,
            hist.last(),
        ) && carb_bucket(hist.last()) == CarbSource::BolusWizard)
    }
}

/// Every total is nonnegative, and the overall total is bounded by one
/// maximal entry per event.
pub proof fn lemma_carb_total_bounds(profile: Profile, hist: Seq<TreatmentView>, clock: i64)
    requires
        forall|k: int| 0 <= k < hist.len() ==> (#[trigger] hist[k]).wf(),
    ensures
        0 <= total_carbs_mg(profile, hist, clock),
        total_carbs_mg(profile, hist, clock) <= hist.len() * MAX_CARB_MILLIGRAMS,
        0 <= source_carbs_mg(profile, hist, clock, CarbSource::Network),
        0 <= source_carbs_mg(profile, hist, clock, CarbSource::BolusWizard),
        0 <= source_carbs_mg(profile, hist, clock, CarbSource::Journal),
    decreases hist.len(),
{
    if hist.len() > 0 {
        assert(forall|k: int| 0 <= k < hist.drop_last().len() ==> (#[trigger] hist.drop_last()[k]).wf());
        lemma_carb_total_bounds(profile, hist.drop_last(), clock);
        assert(hist.last().wf());
        assert((hist.len() - 1) * MAX_CARB_MILLIGRAMS + MAX_CARB_MILLIGRAMS == hist.len()
            * MAX_CARB_MILLIGRAMS) by (nonlinear_arith);
    }
}

/// Each qualifying entry lands in exactly one bucket, so the per-source
/// totals decompose the overall total.
pub proof fn lemma_source_totals_sum(profile: Profile, hist: Seq<TreatmentView>, clock: i64)
    ensures
        total_carbs_mg(profile, hist, clock) == source_carbs_mg(
            profile,
            hist,
            clock,
            CarbSource::Network,
        ) + source_carbs_mg(profile, hist, clock, CarbSource::BolusWizard) + source_carbs_mg(
            profile,
            hist,
            clock,
            CarbSource::Journal,
        ),
    decreases hist.len(),
{
    if hist.len() > 0 {
        lemma_source_totals_sum(profile, hist.drop_last(), clock);
    }
}

/// Entries under the one-gram noise floor are excluded from every total:
/// removing one changes nothing.
pub proof fn lemma_small_carb_entry_ignored(
    profile: Profile,
    hist: Seq<TreatmentView>,
    clock: i64,
    j: int,
)
    requires
        0 <= j < hist.len(),
        !carb_qualifying(profile, clock, hist[j]),
    ensures
        total_carbs_mg(profile, hist.remove(j), clock) == total_carbs_mg(profile, hist, clock),
        source_carbs_mg(profile, hist.remove(j), clock, CarbSource::Network) == source_carbs_mg(
            profile,
            hist,
            clock,
            CarbSource::Network,
        ),
        source_carbs_mg(profile, hist.remove(j), clock, CarbSource::BolusWizard)
            == source_carbs_mg(profile, hist, clock, CarbSource::BolusWizard),
        source_carbs_mg(profile, hist.remove(j), clock, CarbSource::Journal) == source_carbs_mg(
            profile,
            hist,
            clock,
            CarbSource::Journal,
        ),
    decreases hist.len(),
{
    if j == hist.len() - 1 {
        assert(hist.remove(j) =~= hist.drop_last());
    } else {
        let sub = hist.remove(j);
        assert(sub.drop_last() =~= hist.drop_last().remove(j));
        assert(sub.last() == hist.last());
        lemma_small_carb_entry_ignored(profile, hist.drop_last(), clock, j);
    }
}

/// Window and categorise the qualifying carb entries and combine them with
/// the external estimator's output.
///
/// Entries under one gram are ignored entirely; each qualifying entry's
/// amount goes to the overall total and to exactly one source bucket, so
/// the buckets sum to the total.  The reported carbs on board are
/// `min(estimator, profile ceiling, carbs entered)`: never more than the
/// configured maximum, never more than what was logged.
pub fn generate(
    profile: &Profile,
    treatments: &Vec<Treatment>,
    cob: &CobResult,
    clock: i64,
) -> (r: MealData)
    requires
        profile.wf(),
        valid_time_millis(clock),
        treatments@.len() <= MAX_HISTORY_LEN,
        forall|k: int| 0 <= k < treatments@.len() ==> (#[trigger] treatments@[k])@.wf(),
    ensures
        r.carbs_mg == total_carbs_mg(*profile, treatment_views(treatments@), clock),
        r.ns_carbs_mg == source_carbs_mg(
            *profile,
            treatment_views(treatments@),
            clock,
            CarbSource::Network,
        ),
        r.bw_carbs_mg == source_carbs_mg(
            *profile,
            treatment_views(treatments@),
            clock,
            CarbSource::BolusWizard,
        ),
        r.journal_carbs_mg == source_carbs_mg(
            *profile,
            treatment_views(treatments@),
            clock,
            CarbSource::Journal,
        ),
        r.carbs_mg == r.ns_carbs_mg + r.bw_carbs_mg + r.journal_carbs_mg,
        r.meal_cob_mg == vstd::math::min(
            vstd::math::min(cob.meal_cob_mg as int, profile.max_cob_milligrams as int),
            r.carbs_mg as int,
        ),
        r.meal_cob_mg <= profile.max_cob_milligrams,
        r.meal_cob_mg <= r.carbs_mg,
        r.last_carb_time == last_carb_time_millis(*profile, treatment_views(treatments@), clock),
        r.bw_found == bw_found_in(*profile, treatment_views(treatments@), clock),
        r.current_deviation_milli == cob.current_deviation_milli,
        r.max_deviation_milli == cob.max_deviation_milli,
        r.min_deviation_milli == cob.min_deviation_milli,
        r.slope_from_max_deviation_milli == cob.slope_from_max_milli,
        r.slope_from_min_deviation_milli == cob.slope_from_min_milli,
        r.all_deviations@.len() == 0,
{
    let ghost hv = treatment_views(treatments@);
    let mut carbs: i64 = 0;
    let mut ns_carbs: i64 = 0;
    let mut bw_carbs: i64 = 0;
    let mut journal_carbs: i64 = 0;
    let mut last_carb_time: i64 = 0;
    let mut bw_found: bool = false;
    let window_start: i64 = clock - profile.max_meal_absorption_minutes * 60000;
    let mut idx: usize = 0;
    while idx < treatments.len()
        invariant
            profile.wf(),
            valid_time_millis(clock),
            treatments@.len() <= MAX_HISTORY_LEN,
            forall|k: int| 0 <= k < treatments@.len() ==> (#[trigger] treatments@[k])@.wf(),
            hv == treatment_views(treatments@),
            window_start == meal_window_start(*profile, clock),
            idx <= treatments@.len(),
            carbs == total_carbs_mg(*profile, hv.take(idx as int), clock),
            ns_carbs == source_carbs_mg(*profile, hv.take(idx as int), clock, CarbSource::Network),
            bw_carbs == source_carbs_mg(
                *profile,
                hv.take(idx as int),
                clock,
                CarbSource::BolusWizard,
            ),
            journal_carbs == source_carbs_mg(
                *profile,
                hv.take(idx as int),
                clock,
                CarbSource::Journal,
            ),
            last_carb_time == last_carb_time_millis(*profile, hv.take(idx as int), clock),
            bw_found == bw_found_in(*profile, hv.take(idx as int), clock),
        decreases treatments@.len() - idx,
    {
        proof {
            assert(forall|k: int|
                0 <= k < hv.take(idx as int).len() ==> (#[trigger] hv.take(idx as int)[k]).wf());
            lemma_carb_total_bounds(*profile, hv.take(idx as int), clock);
            lemma_source_totals_sum(*profile, hv.take(idx as int), clock);
            assert(hv.take(idx as int).len() * MAX_CARB_MILLIGRAMS <= MAX_HISTORY_LEN
                * MAX_CARB_MILLIGRAMS) by (nonlinear_arith)
                requires
                    0 <= hv.take(idx as int).len() <= MAX_HISTORY_LEN,
            ;
        }
        let date: i64 = treatments[idx].date;
        if date >= window_start && date <= clock {
            match treatments[idx].kind {
                TreatmentKind::Carbs { milligrams, source } => {
                    if milligrams >= 1000 {
                        carbs = carbs + milligrams;
                        if date > last_carb_time {
                            last_carb_time = date;
                        }
                        match source {
                            Some(CarbSource::Network) => { ns_carbs = ns_carbs + milligrams; },
                            Some(CarbSource::BolusWizard) => {
                                bw_carbs = bw_carbs + milligrams;
                                bw_found = true;
                            },
                            Some(CarbSource::Journal) => {
                                journal_carbs = journal_carbs + milligrams;
                            },
                            None => { ns_carbs = ns_carbs + milligrams; },
                        }
                    }
                },
                _ => {},
            }
        }
        proof {
            assert(hv.take(idx as int + 1).drop_last() =~= hv.take(idx as int));
            assert(hv.take(idx as int + 1).last() == treatments@[idx as int]@);
        }
        idx = idx + 1;
    }
    proof {
        assert(hv.take(treatments@.len() as int) =~= hv);
        lemma_source_totals_sum(*profile, hv, clock);
    }
    let bounded_cob: i64 = if cob.meal_cob_mg <= profile.max_cob_milligrams {
        cob.meal_cob_mg
    } else {
        profile.max_cob_milligrams
    };
    let meal_cob: i64 = if bounded_cob <= carbs {
        bounded_cob
    } else {
        carbs
    };
    MealData {
        carbs_mg: carbs,
        ns_carbs_mg: ns_carbs,
        bw_carbs_mg: bw_carbs,
        journal_carbs_mg: journal_carbs,
        meal_cob_mg: meal_cob,
        current_deviation_milli: cob.current_deviation_milli,
        max_deviation_milli: cob.max_deviation_milli,
        min_deviation_milli: cob.min_deviation_milli,
        slope_from_max_deviation_milli: cob.slope_from_max_milli,
        slope_from_min_deviation_milli: cob.slope_from_min_milli,
        all_deviations: Vec::new(),
        last_carb_time,
        bw_found,
    }
}

/// The qualifying carb-bearing treatments of the window, unchanged and in
/// order: the bare filter other consumers reuse.
pub fn find_meals(profile: &Profile, treatments: &Vec<Treatment>, clock: i64) -> (r: Vec<Treatment>)
    requires
        profile.wf(),
        valid_time_millis(clock),
    ensures
        treatment_views(r@) == treatment_views(treatments@).filter(
            |tv: TreatmentView|
                in_meal_window(*profile, clock, tv.date) && tv.spec_has_carbs(),
        ),
{
    let ghost hv = treatment_views(treatments@);
    let ghost pred = |tv: TreatmentView|
        in_meal_window(*profile, clock, tv.date) && tv.spec_has_carbs();
    let window_start: i64 = clock - profile.max_meal_absorption_minutes * 60000;
    let mut out: Vec<Treatment> = Vec::new();
    let mut idx: usize = 0;
    while idx < treatments.len()
        invariant
            profile.wf(),
            valid_time_millis(clock),
            hv == treatment_views(treatments@),
            pred == (|tv: TreatmentView|
                in_meal_window(*profile, clock, tv.date) && tv.spec_has_carbs()),
            window_start == meal_window_start(*profile, clock),
            idx <= treatments@.len(),
            treatment_views(out@) == hv.take(idx as int).filter(pred),
        decreases treatments@.len() - idx,
    {
        let ghost before = treatment_views(out@);
        let date: i64 = treatments[idx].date;
        let keep: bool = date >= window_start && date <= clock && treatments[idx].has_carbs();
        if keep {
            out.push(treatments[idx].clone());
        }
        proof {
            reveal_with_fuel(Seq::filter, 2);
            assert(hv.take(idx as int + 1).drop_last() =~= hv.take(idx as int));
            assert(hv.take(idx as int + 1).last() == treatments@[idx as int]@);
            if keep {
                assert(treatment_views(out@) =~= before.push(treatments@[idx as int]@));
                assert(hv.take(idx as int + 1).filter(pred) =~= hv.take(idx as int).filter(
                    pred,
                ).push(treatments@[idx as int]@));
            } else {
                assert(hv.take(idx as int + 1).filter(pred) =~= hv.take(idx as int).filter(pred));
            }
        }
        idx = idx + 1;
    }
    proof {
        assert(hv.take(treatments@.len() as int) =~= hv);
    }
    out
}

} // verus!
