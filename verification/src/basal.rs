//! Basal rate schedule lookups.

use vstd::prelude::*;
use crate::profile::{Profile, BasalScheduleEntry};
use crate::schedule::{ScheduleSlot, governs, lemma_governs_unique, lookup_slot_value, wf_slots};
use crate::time::{time_of_day_minutes, tod_minutes, valid_time_millis};

verus! {

/// The schedule points of a basal schedule: offset and rate of each entry.
pub open spec fn basal_slots(s: Seq<BasalScheduleEntry>) -> Seq<ScheduleSlot> {
    s.map_values(|e: BasalScheduleEntry| ScheduleSlot { minutes: e.minutes, value_milli: e.rate_milli })
}

/// The scheduled basal rate governing the time of day `t`, falling back to
/// the profile's scalar rate for an empty schedule.
pub open spec fn governed_basal(profile: Profile, t: int, r: i64) -> bool {
    if profile.basal_profile@.len() == 0 {
        r == profile.current_basal_milli
    } else {
        exists|i: int|
            #[trigger] governs(basal_slots(profile.basal_profile@), t, i) && r == basal_slots(
                profile.basal_profile@,
            )[i].value_milli
    }
}

/// The scheduled basal rate governing the time of day `t`, as a value: the
/// profile's scalar rate for an empty schedule, else the rate of the (unique,
/// by well-formedness) governing entry.
pub open spec fn scheduled_basal_milli(profile: Profile, t: int) -> i64 {
    if profile.basal_profile@.len() == 0 {
        profile.current_basal_milli
    } else {
        let i = choose|i: int| governs(basal_slots(profile.basal_profile@), t, i);
        basal_slots(profile.basal_profile@)[i].value_milli
    }
}

/// For a well-formed profile the governing rate is unique, so any governed
/// result equals `scheduled_basal_milli`, and the bounds of the schedule
/// carry over to it.
pub proof fn lemma_governed_basal_value(profile: Profile, t: int, r: i64)
    requires
        profile.wf(),
        governed_basal(profile, t, r),
    ensures
        r == scheduled_basal_milli(profile, t),
        -crate::treatment::MAX_RATE_MILLI <= r <= crate::treatment::MAX_RATE_MILLI,
{
    let s = basal_slots(profile.basal_profile@);
    assert(wf_slots(s)) by {
        assert(forall|k: int|
            0 <= k < s.len() ==> (#[trigger] s[k]) == (ScheduleSlot {
                minutes: profile.basal_profile@[k].minutes,
                value_milli: profile.basal_profile@[k].rate_milli,
            }));
    }
    if profile.basal_profile@.len() > 0 {
        let i = choose|i: int| #[trigger] governs(s, t, i) && r == s[i].value_milli;
        let j = choose|j: int| governs(s, t, j);
        assert(governs(s, t, j));
        lemma_governs_unique(s, t, i, j);
    }
}

/// Copy a basal schedule into bare schedule points.
fn collect_basal_slots(entries: &Vec<BasalScheduleEntry>) -> (r: Vec<ScheduleSlot>)
    ensures
        r@ == basal_slots(entries@),
{
    let mut slots: Vec<ScheduleSlot> = Vec::new();
    let mut k: usize = 0;
    while k < entries.len()
        invariant
            k <= entries@.len(),
            slots@ == basal_slots(entries@.take(k as int)),
        decreases entries@.len() - k,
    {
        slots.push(ScheduleSlot { minutes: entries[k].minutes, value_milli: entries[k].rate_milli });
        proof {
            assert(entries@.take(k as int + 1).drop_last() =~= entries@.take(k as int));
            assert(basal_slots(entries@.take(k as int + 1)) =~= basal_slots(
                entries@.take(k as int),
            ).push(ScheduleSlot {
                minutes: entries@[k as int].minutes,
                value_milli: entries@[k as int].rate_milli,
            }));
        }
        k = k + 1;
    }
    proof {
        assert(entries@.take(entries@.len() as int) =~= entries@);
    }
    slots
}

/// Look up the scheduled basal rate at the instant `time`, in milli-units
/// per hour.
///
/// With an empty schedule this is the profile's scalar rate; otherwise it is
/// the rate of the entry governing the instant's time of day (largest offset
/// not after it, wrapping to the day's last entry before the first offset).
/// Rates are kept in milli-units per hour, so the result is already exact to
/// three decimal places of a unit.
pub fn basal_lookup(profile: &Profile, time: i64) -> (r: i64)
    requires
        profile.wf(),
        valid_time_millis(time),
    ensures
        governed_basal(*profile, time_of_day_minutes(time as int), r),
        r == scheduled_basal_milli(*profile, time_of_day_minutes(time as int)),
{
    if profile.basal_profile.len() == 0 {
        return profile.current_basal_milli;
    }
    let slots = collect_basal_slots(&profile.basal_profile);
    let r = lookup_slot_value(&slots, profile.current_basal_milli, tod_minutes(time));
    proof {
        lemma_governed_basal_value(*profile, time_of_day_minutes(time as int), r);
    }
    r
}

/// The maximum rate across the schedule entries, or the scalar rate for an
/// empty schedule.
pub fn max_daily_basal(profile: &Profile) -> (r: i64)
    ensures
        profile.basal_profile@.len() == 0 ==> r == profile.current_basal_milli,
        profile.basal_profile@.len() > 0 ==> {
            &&& forall|k: int|
                0 <= k < profile.basal_profile@.len() ==> (#[trigger] profile.basal_profile@[k]).rate_milli <= r
            &&& exists|k: int|
                0 <= k < profile.basal_profile@.len() && (#[trigger] profile.basal_profile@[k]).rate_milli == r
        },
{
    if profile.basal_profile.len() == 0 {
        return profile.current_basal_milli;
    }
    let mut acc: i64 = profile.basal_profile[0].rate_milli;
    let mut k: usize = 1;
    while k < profile.basal_profile.len()
        invariant
            1 <= k <= profile.basal_profile@.len(),
            forall|j: int|
                0 <= j < k ==> (#[trigger] profile.basal_profile@[j]).rate_milli <= acc,
            exists|j: int|
                0 <= j < k && (#[trigger] profile.basal_profile@[j]).rate_milli == acc,
        decreases profile.basal_profile@.len() - k,
    {
        if profile.basal_profile[k].rate_milli > acc {
            acc = profile.basal_profile[k].rate_milli;
        }
        k = k + 1;
    }
    acc
}

} // verus!
