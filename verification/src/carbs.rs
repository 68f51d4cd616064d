//! Carb ratio schedule lookups.

use vstd::prelude::*;
use crate::profile::{Profile, CarbRatioScheduleEntry};
use crate::schedule::{ScheduleSlot, governs, lookup_slot_value};
use crate::time::{time_of_day_minutes, tod_minutes, valid_time_millis};

verus! {

/// The schedule points of a carb ratio schedule: offset and ratio of each
/// entry.
pub open spec fn carb_slots(s: Seq<CarbRatioScheduleEntry>) -> Seq<ScheduleSlot> {
    s.map_values(
        |e: CarbRatioScheduleEntry| ScheduleSlot { minutes: e.minutes, value_milli: e.ratio_milli },
    )
}

/// The carb ratio governing the time of day `t`, falling back to the
/// profile's scalar ratio for an empty schedule.
pub open spec fn governed_carb_ratio(profile: Profile, t: int, r: i64) -> bool {
    if profile.carb_ratio_profile@.len() == 0 {
        r == profile.carb_ratio_milli
    } else {
        exists|i: int|
            #[trigger] governs(carb_slots(profile.carb_ratio_profile@), t, i) && r == carb_slots(
                profile.carb_ratio_profile@,
            )[i].value_milli
    }
}

/// Copy a carb ratio schedule into bare schedule points.
fn collect_carb_slots(entries: &Vec<CarbRatioScheduleEntry>) -> (r: Vec<ScheduleSlot>)
    ensures
        r@ == carb_slots(entries@),
{
    let mut slots: Vec<ScheduleSlot> = Vec::new();
    let mut k: usize = 0;
    while k < entries.len()
        invariant
            k <= entries@.len(),
            slots@ == carb_slots(entries@.take(k as int)),
        decreases entries@.len() - k,
    {
        slots.push(
            ScheduleSlot { minutes: entries[k].minutes, value_milli: entries[k].ratio_milli },
        );
        proof {
            assert(carb_slots(entries@.take(k as int + 1)) =~= carb_slots(
                entries@.take(k as int),
            ).push(ScheduleSlot {
                minutes: entries@[k as int].minutes,
                value_milli: entries@[k as int].ratio_milli,
            }));
        }
        k = k + 1;
    }
    proof {
        assert(entries@.take(entries@.len() as int) =~= entries@);
    }
    slots
}

/// Look up the carb ratio at the instant `time`, in thousandths of a gram
/// per unit.
///
/// With an empty schedule this is the profile's scalar ratio; otherwise it
/// is the ratio of the entry governing the instant's time of day (largest
/// offset not after it, wrapping to the day's last entry before the first
/// offset).
pub fn carb_ratio_lookup(profile: &Profile, time: i64) -> (r: i64)
    requires
        profile.wf(),
        valid_time_millis(time),
    ensures
        governed_carb_ratio(*profile, time_of_day_minutes(time as int), r),
{
    if profile.carb_ratio_profile.len() == 0 {
        return profile.carb_ratio_milli;
    }
    let slots = collect_carb_slots(&profile.carb_ratio_profile);
    lookup_slot_value(&slots, profile.carb_ratio_milli, tod_minutes(time))
}

} // verus!
