//! Time-of-day schedule resolution, shared by the basal-rate and carb-ratio
//! lookups.
//!
//! A schedule is a set of points "from `minutes` after midnight, this value
//! applies".  The governing point of a time of day `t` is the one with the
//! largest offset not after `t`; before the day's first offset the schedule
//! wraps, so the point with the largest offset overall governs (it spans
//! midnight).

use vstd::prelude::*;

verus! {

/// One schedule point: from `minutes` after midnight, `value_milli` applies.
#[derive(Clone, Copy, PartialEq, Eq, Structural, Debug)]
pub struct ScheduleSlot {
    /// Minutes from midnight at which the value takes effect.
    pub minutes: u32,
    /// The value, in thousandths.
    pub value_milli: i64,
}

/// Offsets within the day and pairwise distinct.
pub open spec fn wf_slots(s: Seq<ScheduleSlot>) -> bool {
    &&& forall|k: int| 0 <= k < s.len() ==> (#[trigger] s[k]).minutes < 1440
    &&& forall|j: int, k: int|
        #![trigger s[j], s[k]]
        0 <= j < k < s.len() ==> s[j].minutes != s[k].minutes
}

/// Slot `i` governs time-of-day `t`: it has the largest offset not after
/// `t`, or, when `t` lies before every offset, the largest offset of the
/// whole schedule (the wrap across midnight).
pub open spec fn governs(s: Seq<ScheduleSlot>, t: int, i: int) -> bool {
    &&& 0 <= i < s.len()
    &&& if exists|j: int| 0 <= j < s.len() && (#[trigger] s[j]).minutes <= t {
        s[i].minutes <= t && forall|j: int|
            0 <= j < s.len() && (#[trigger] s[j]).minutes <= t ==> s[j].minutes <= s[i].minutes
    } else {
        forall|j: int| 0 <= j < s.len() ==> (#[trigger] s[j]).minutes <= s[i].minutes
    }
}

/// The value governing time-of-day `tod`, or `fallback_milli` for an empty
/// schedule.
pub fn lookup_slot_value(slots: &Vec<ScheduleSlot>, fallback_milli: i64, tod: u32) -> (r: i64)
    ensures
        slots@.len() == 0 ==> r == fallback_milli,
        slots@.len() > 0 ==> exists|i: int|
            #[trigger] governs(slots@, tod as int, i) && r == slots@[i].value_milli,
{
    if slots.len() == 0 {
        return fallback_milli;
    }
    let ghost t = tod as int;
    let mut top_idx: usize = 0;
    let mut best_idx: usize = 0;
    let mut has_best: bool = slots[0].minutes <= tod;
    let mut k: usize = 1;
    while k < slots.len()
        invariant
            t == tod as int,
            1 <= k <= slots@.len(),
            top_idx < k,
            forall|j: int| 0 <= j < k ==> (#[trigger] slots@[j]).minutes <= slots@[top_idx as int].minutes,
            has_best <==> exists|j: int| 0 <= j < k && (#[trigger] slots@[j]).minutes <= t,
            has_best ==> best_idx < k && slots@[best_idx as int].minutes <= t,
            has_best ==> forall|j: int|
                0 <= j < k && (#[trigger] slots@[j]).minutes <= t ==> slots@[j].minutes
                    <= slots@[best_idx as int].minutes,
        decreases slots@.len() - k,
    {
        if slots[k].minutes > slots[top_idx].minutes {
            top_idx = k;
        }
        if slots[k].minutes <= tod {
            if !has_best || slots[k].minutes > slots[best_idx].minutes {
                best_idx = k;
            }
            has_best = true;
            proof {
                assert(0 <= k < slots@.len() && slots@[k as int].minutes <= t);
            }
        }
        k = k + 1;
    }
    if has_best {
        proof {
            assert(governs(slots@, t, best_idx as int));
        }
        slots[best_idx].value_milli
    } else {
        proof {
            assert(governs(slots@, t, top_idx as int));
        }
        slots[top_idx].value_milli
    }
}

/// Two slots governing the same time of day are the same slot: with pairwise
/// distinct offsets the lookup result is uniquely determined.
pub proof fn lemma_governs_unique(s: Seq<ScheduleSlot>, t: int, i: int, j: int)
    requires
        wf_slots(s),
        governs(s, t, i),
        governs(s, t, j),
    ensures
        i == j,
{
    if i != j {
        assert(s[i].minutes == s[j].minutes);
    }
}

/// Sorted ascending by offset, strictly (so also pairwise distinct).
pub open spec fn strictly_sorted_slots(s: Seq<ScheduleSlot>) -> bool {
    forall|j: int, k: int|
        #![trigger s[j], s[k]]
        0 <= j < k < s.len() ==> s[j].minutes < s[k].minutes
}

/// The interval reading of the lookup, for a sorted schedule: entry `i`
/// governs every time of day in `[s[i].minutes, next)`, where `next` is the
/// following entry's offset, or the end of the day for the last entry.
pub proof fn lemma_governs_interval(s: Seq<ScheduleSlot>, t: int, i: int)
    requires
        strictly_sorted_slots(s),
        0 <= i < s.len(),
        s[i].minutes <= t,
        i + 1 < s.len() ==> t < s[i + 1].minutes,
    ensures
        governs(s, t, i),
{
    assert forall|j: int| 0 <= j < s.len() && (#[trigger] s[j]).minutes <= t implies s[j].minutes
        <= s[i].minutes by {
        if j > i {
            assert(s[i + 1].minutes <= s[j].minutes);
        }
    }
}

/// The wrap reading of the lookup, for a sorted schedule: any time of day
/// before the first offset, or at or after the last offset, is governed by
/// the last entry (its span runs through midnight to the first entry).
pub proof fn lemma_governs_wrap(s: Seq<ScheduleSlot>, t: int)
    requires
        strictly_sorted_slots(s),
        s.len() > 0,
        t < s[0].minutes || t >= s[s.len() - 1].minutes,
    ensures
        governs(s, t, s.len() - 1),
{
    let last = s.len() - 1;
    assert forall|j: int| 0 <= j < s.len() implies (#[trigger] s[j]).minutes <= s[last].minutes by {
        if j < last {
            assert(s[j].minutes < s[last].minutes);
        }
    }
    if t >= s[last].minutes {
        assert(s[last].minutes <= t);
    } else {
        assert(forall|j: int| 0 <= j < s.len() ==> (#[trigger] s[j]).minutes >= s[0].minutes) by {
            assert forall|j: int| 0 <= j < s.len() implies (#[trigger] s[j]).minutes >= s[0].minutes by {
                if j > 0 {
                    assert(s[0].minutes < s[j].minutes);
                }
            }
        }
    }
}

} // verus!
