//! Treatment-history decomposition and temp-basal splitting.
//!
//! `find_insulin_treatments` turns raw history into a date-ordered sequence
//! of discrete insulin deltas inside the insulin-action window, with an
//! optional forward zero-temp projection.  `split_temp_basal_at_schedule_changes`
//! cuts one continuous temp basal into segments that never straddle a basal
//! schedule boundary.

use vstd::prelude::*;
use vstd::math::{abs, min};
use crate::profile::{Profile, BasalScheduleEntry};
use crate::treatment::{
    Treatment, TreatmentView, TreatmentKind, InsulinDose, InsulinDoseView, MAX_RATE_MILLI,
    MAX_DURATION_MINUTES, treatment_views, dose_views,
};
use crate::basal::{basal_lookup, scheduled_basal_milli, lemma_governed_basal_value};
use crate::time::{time_of_day_minutes, tod_minutes, valid_time_millis};
use crate::OrefError;

verus! {

/// The smallest offset of a schedule entry strictly after the time of day
/// `cur`, or the end of the day where none remains (the walk then wraps past
/// midnight).
pub open spec fn next_boundary(s: Seq<BasalScheduleEntry>, cur: int) -> int
    decreases s.len(),
{
    if s.len() == 0 {
        1440
    } else {
        let rest = next_boundary(s.drop_last(), cur);
        let m = s.last().minutes as int;
        if m > cur && m < rest {
            m
        } else {
            rest
        }
    }
}

/// The next boundary lies strictly after `cur` and at latest at the end of
/// the day.
pub proof fn lemma_next_boundary_bounds(s: Seq<BasalScheduleEntry>, cur: int)
    requires
        0 <= cur < 1440,
    ensures
        cur < next_boundary(s, cur) <= 1440,
    decreases s.len(),
{
    if s.len() > 0 {
        lemma_next_boundary_bounds(s.drop_last(), cur);
    }
}

/// No schedule offset falls strictly between `cur` and the next boundary:
/// together with each segment ending at the next boundary at the latest,
/// segments never straddle a schedule change.
pub proof fn lemma_next_boundary_is_min(s: Seq<BasalScheduleEntry>, cur: int, j: int)
    requires
        0 <= j < s.len(),
        s[j].minutes > cur,
    ensures
        next_boundary(s, cur) <= s[j].minutes,
    decreases s.len(),
{
    if j < s.len() - 1 {
        lemma_next_boundary_is_min(s.drop_last(), cur, j);
    }
}

/// The segments of one temp basal, walked from minute `offset` into its
/// duration: each segment runs from the current time of day to the next
/// schedule boundary or the end of the temp basal, whichever is nearer.
pub open spec fn split_segments(
    tv: TreatmentView,
    sched: Seq<BasalScheduleEntry>,
    rate_milli: i64,
    duration_minutes: i64,
    start_tod: int,
    offset: int,
) -> Seq<TreatmentView>
    decreases duration_minutes - offset when offset >= 0
{
    if offset >= duration_minutes {
        Seq::empty()
    } else {
        let cur = (start_tod + offset) % 1440;
        let nb = next_boundary(sched, cur);
        let len = min(duration_minutes - offset, nb - cur);
        if len <= 0 {
            Seq::empty()
        } else {
            seq![
                TreatmentView {
                    kind: TreatmentKind::TempBasal {
                        rate_milli,
                        duration_minutes: len as i64,
                    },
                    date: (tv.date + offset * 60000) as i64,
                    timestamp: tv.timestamp,
                    started_at: tv.started_at,
                },
            ] + split_segments(tv, sched, rate_milli, duration_minutes, start_tod, offset + len)
        }
    }
}

/// A temp-basal segment lies within one schedule regime: no schedule offset
/// falls strictly inside its time-of-day span.
pub open spec fn seg_within_one_regime(sched: Seq<BasalScheduleEntry>, seg: TreatmentView) -> bool {
    match seg.kind {
        TreatmentKind::TempBasal { rate_milli, duration_minutes } => forall|j: int|
            0 <= j < sched.len() ==> !(time_of_day_minutes(seg.date as int) < (
            #[trigger] sched[j]).minutes < time_of_day_minutes(seg.date as int)
                + duration_minutes),
        _ => true,
    }
}

/// Segments never straddle a schedule boundary: every segment the split
/// emits, taken at its own date, ends at or before the next schedule offset
/// after its start.
pub proof fn lemma_split_no_straddle(
    tv: TreatmentView,
    sched: Seq<BasalScheduleEntry>,
    rate_milli: i64,
    duration_minutes: i64,
    offset: int,
)
    requires
        valid_time_millis(tv.date),
        0 <= offset <= duration_minutes,
        duration_minutes <= MAX_DURATION_MINUTES,
    ensures
        forall|i: int|
            0 <= i < split_segments(
                tv,
                sched,
                rate_milli,
                duration_minutes,
                time_of_day_minutes(tv.date as int),
                offset,
            ).len() ==> seg_within_one_regime(
                sched,
                #[trigger] split_segments(
                    tv,
                    sched,
                    rate_milli,
                    duration_minutes,
                    time_of_day_minutes(tv.date as int),
                    offset,
                )[i],
            ),
    decreases duration_minutes - offset,
{
    let start_tod = time_of_day_minutes(tv.date as int);
    let segs = split_segments(tv, sched, rate_milli, duration_minutes, start_tod, offset);
    if offset < duration_minutes {
        let cur = (start_tod + offset) % 1440;
        assert(0 <= start_tod < 1440) by {
            vstd::arithmetic::div_mod::lemma_mod_bound(
                (tv.date + crate::time::TIME_SHIFT_MILLIS) / 60000,
                1440,
            );
        }
        assert(0 <= cur < 1440) by {
            vstd::arithmetic::div_mod::lemma_mod_bound(start_tod + offset, 1440);
        }
        lemma_next_boundary_bounds(sched, cur);
        let nb = next_boundary(sched, cur);
        let len = min(duration_minutes - offset, nb - cur);
        assert(len > 0);
        let seg = segs[0];
        assert(seg.date as int == tv.date + offset * 60000);
        assert(time_of_day_minutes(seg.date as int) == cur) by {
            crate::time::lemma_time_of_day_offset(tv.date as int, offset);
        }
        assert(seg_within_one_regime(sched, seg)) by {
            assert forall|j: int|
                0 <= j < sched.len() implies !(cur < (#[trigger] sched[j]).minutes < cur
                + len) by {
                if cur < sched[j].minutes as int {
                    lemma_next_boundary_is_min(sched, cur, j);
                }
            }
        }
        lemma_split_no_straddle(tv, sched, rate_milli, duration_minutes, offset + len);
        let rest = split_segments(tv, sched, rate_milli, duration_minutes, start_tod, offset + len);
        assert(forall|i: int| 0 <= i < rest.len() ==> segs[i + 1] == #[trigger] rest[i]);
    }
}

/// The total minutes of temp basal a sequence of segments carries.
pub open spec fn sum_durations(segs: Seq<TreatmentView>) -> int
    decreases segs.len(),
{
    if segs.len() == 0 {
        0
    } else {
        sum_durations(segs.drop_last()) + (match segs.last().kind {
            TreatmentKind::TempBasal { rate_milli, duration_minutes } => duration_minutes as int,
            _ => 0,
        })
    }
}

/// Splitting never loses or invents minutes: from `offset` on, the segment
/// durations sum exactly to the minutes of temp basal that remain.
pub proof fn lemma_split_durations_sum(
    tv: TreatmentView,
    sched: Seq<BasalScheduleEntry>,
    rate_milli: i64,
    duration_minutes: i64,
    start_tod: int,
    offset: int,
)
    requires
        0 <= start_tod < 1440,
        0 <= offset <= duration_minutes,
        duration_minutes <= MAX_DURATION_MINUTES,
    ensures
        sum_durations(split_segments(tv, sched, rate_milli, duration_minutes, start_tod, offset))
            == duration_minutes - offset,
    decreases duration_minutes - offset,
{
    if offset < duration_minutes {
        let cur = (start_tod + offset) % 1440;
        assert(0 <= cur < 1440) by {
            vstd::arithmetic::div_mod::lemma_mod_bound(start_tod + offset, 1440);
        }
        lemma_next_boundary_bounds(sched, cur);
        let nb = next_boundary(sched, cur);
        let len = min(duration_minutes - offset, nb - cur);
        assert(len > 0);
        lemma_split_durations_sum(tv, sched, rate_milli, duration_minutes, start_tod, offset + len);
        let rest = split_segments(tv, sched, rate_milli, duration_minutes, start_tod, offset + len);
        let seg = TreatmentView {
            kind: TreatmentKind::TempBasal { rate_milli, duration_minutes: len as i64 },
            date: (tv.date + offset * 60000) as i64,
            timestamp: tv.timestamp,
            started_at: tv.started_at,
        };
        let whole = seq![seg] + rest;
        assert(sum_durations(whole) == sum_durations(rest) + len) by {
            lemma_sum_durations_prepend(seg, rest);
        }
    }
}

/// Prepending one segment adds its duration to the sum.
proof fn lemma_sum_durations_prepend(seg: TreatmentView, rest: Seq<TreatmentView>)
    ensures
        sum_durations(seq![seg] + rest) == sum_durations(rest) + (match seg.kind {
            TreatmentKind::TempBasal { rate_milli, duration_minutes } => duration_minutes as int,
            _ => 0,
        }),
    decreases rest.len(),
{
    reveal_with_fuel(sum_durations, 3);
    let whole = seq![seg] + rest;
    if rest.len() == 0 {
        assert(whole =~= seq![seg]);
        assert(whole.last() == seg);
        assert(whole.drop_last() =~= Seq::<TreatmentView>::empty());
        assert(sum_durations(rest) == 0);
    } else {
        assert(whole.drop_last() =~= seq![seg] + rest.drop_last());
        assert(whole.last() == rest.last());
        lemma_sum_durations_prepend(seg, rest.drop_last());
        assert(sum_durations(whole) == sum_durations(seq![seg] + rest.drop_last()) + (match rest.last().kind {
            TreatmentKind::TempBasal { rate_milli, duration_minutes } => duration_minutes as int,
            _ => 0,
        }));
    }
}

/// A temp basal that ends at or before the next schedule boundary stays in
/// one piece: the split is a single segment of the full duration.
pub proof fn lemma_split_single_regime(
    tv: TreatmentView,
    sched: Seq<BasalScheduleEntry>,
    rate_milli: i64,
    duration_minutes: i64,
    start_tod: int,
)
    requires
        0 <= start_tod < 1440,
        0 < duration_minutes,
        duration_minutes <= next_boundary(sched, start_tod) - start_tod,
    ensures
        split_segments(tv, sched, rate_milli, duration_minutes, start_tod, 0) =~= seq![
            TreatmentView {
                kind: TreatmentKind::TempBasal { rate_milli, duration_minutes },
                date: tv.date,
                timestamp: tv.timestamp,
                started_at: tv.started_at,
            },
        ],
{
    assert(start_tod % 1440 == start_tod) by {
        vstd::arithmetic::div_mod::lemma_small_mod(start_tod as nat, 1440);
    }
    let nb = next_boundary(sched, start_tod);
    let len = min(duration_minutes as int, nb - start_tod);
    assert(len == duration_minutes);
    assert(split_segments(tv, sched, rate_milli, duration_minutes, start_tod, duration_minutes as int)
        =~= Seq::<TreatmentView>::empty());
    assert(tv.date + 0 * 60000 == tv.date);
}

/// The smallest schedule-entry offset strictly after `cur`, or the end of
/// the day.
fn next_boundary_exec(entries: &Vec<BasalScheduleEntry>, cur: u32) -> (r: i64)
    requires
        cur < 1440,
    ensures
        r == next_boundary(entries@, cur as int),
        cur < r <= 1440,
{
    proof {
        lemma_next_boundary_bounds(entries@, cur as int);
    }
    let mut acc: i64 = 1440;
    let mut k: usize = 0;
    while k < entries.len()
        invariant
            k <= entries@.len(),
            acc == next_boundary(entries@.take(k as int), cur as int),
        decreases entries@.len() - k,
    {
        let m = entries[k].minutes;
        if m > cur && (m as i64) < acc {
            acc = m as i64;
        }
        proof {
            assert(entries@.take(k as int + 1).drop_last() =~= entries@.take(k as int));
        }
        k = k + 1;
    }
    proof {
        assert(entries@.take(entries@.len() as int) =~= entries@);
    }
    acc
}

/// Split one temp basal into segments so that no segment straddles a basal
/// schedule boundary.
///
/// Anything other than a temp basal with positive duration, and any profile
/// with an empty basal schedule, comes back unchanged as a single-element
/// result: the split never fails, it degrades to a no-op.  Otherwise the
/// walk starts at the treatment's time of day and cuts at every schedule
/// offset, wrapping past midnight, until the duration is used up; segment
/// lengths sum exactly to the original duration (`lemma_split_durations_sum`).
pub fn split_temp_basal_at_schedule_changes(treatment: &Treatment, profile: &Profile) -> (r: Vec<
    Treatment,
>)
    requires
        profile.wf(),
        treatment.wf(),
    ensures
        (match treatment@.kind {
            TreatmentKind::TempBasal { rate_milli, duration_minutes } => duration_minutes > 0
                && profile.basal_profile@.len() > 0 ==> r@.map_values(|t: Treatment| t@)
                =~= split_segments(
                treatment@,
                profile.basal_profile@,
                rate_milli,
                duration_minutes,
                time_of_day_minutes(treatment@.date as int),
                0,
            ),
            _ => true,
        }),
        (match treatment@.kind {
            TreatmentKind::TempBasal { rate_milli, duration_minutes } => duration_minutes <= 0
                || profile.basal_profile@.len() == 0,
            _ => true,
        }) ==> r@.map_values(|t: Treatment| t@) =~= seq![treatment@],
{
    let (rate_milli, duration_minutes) = match treatment.kind {
        TreatmentKind::TempBasal { rate_milli, duration_minutes } if duration_minutes > 0 => (
            rate_milli,
            duration_minutes,
        ),
        _ => {
            let mut out: Vec<Treatment> = Vec::new();
            out.push(treatment.clone());
            return out;
        },
    };
    if profile.basal_profile.len() == 0 {
        let mut out: Vec<Treatment> = Vec::new();
        out.push(treatment.clone());
        return out;
    }
    let start_tod: u32 = tod_minutes(treatment.date);
    let ghost sched = profile.basal_profile@;
    let ghost tv = treatment@;
    let mut out: Vec<Treatment> = Vec::new();
    let mut offset: i64 = 0;
    while offset < duration_minutes
        invariant
            profile.wf(),
            treatment.wf(),
            sched == profile.basal_profile@,
            tv == treatment@,
            treatment@.kind == (TreatmentKind::TempBasal { rate_milli, duration_minutes }),
            start_tod == time_of_day_minutes(treatment@.date as int),
            start_tod < 1440,
            0 < duration_minutes <= MAX_DURATION_MINUTES,
            0 <= offset <= duration_minutes,
            split_segments(tv, sched, rate_milli, duration_minutes, start_tod as int, 0)
                =~= out@.map_values(|t: Treatment| t@) + split_segments(
                tv,
                sched,
                rate_milli,
                duration_minutes,
                start_tod as int,
                offset as int,
            ),
        decreases duration_minutes - offset,
    {
        let cur: u32 = (((start_tod as u64) + (offset as u64)) % 1440) as u32;
        proof {
            assert(cur == (start_tod + offset) % 1440);
        }
        let nb: i64 = next_boundary_exec(&profile.basal_profile, cur);
        let minutes_until: i64 = nb - (cur as i64);
        let remaining: i64 = duration_minutes - offset;
        let segment_len: i64 = if remaining < minutes_until {
            remaining
        } else {
            minutes_until
        };
        // a stalled walk is impossible: the next boundary lies strictly
        // after `cur`, so the segment length is at least one minute
        proof {
            assert(segment_len >= 1);
        }
        let segment = Treatment {
            kind: TreatmentKind::TempBasal { rate_milli, duration_minutes: segment_len },
            date: treatment.date + offset * 60000,
            timestamp: treatment.timestamp.clone(),
            started_at: treatment.started_at.clone(),
        };
        proof {
            let ghost old_views = out@.map_values(|t: Treatment| t@);
            assert(split_segments(tv, sched, rate_milli, duration_minutes, start_tod as int, offset as int)
                =~= seq![segment@] + split_segments(
                tv,
                sched,
                rate_milli,
                duration_minutes,
                start_tod as int,
                offset as int + segment_len as int,
            ));
            assert(out@.push(segment).map_values(|t: Treatment| t@) =~= old_views.push(segment@));
            assert(old_views.push(segment@) + split_segments(
                tv,
                sched,
                rate_milli,
                duration_minutes,
                start_tod as int,
                offset as int + segment_len as int,
            ) =~= old_views + (seq![segment@] + split_segments(
                tv,
                sched,
                rate_milli,
                duration_minutes,
                start_tod as int,
                offset as int + segment_len as int,
            )));
        }
        out.push(segment);
        offset = offset + segment_len;
    }
    proof {
        assert(split_segments(tv, sched, rate_milli, duration_minutes, start_tod as int, offset as int)
            =~= Seq::<TreatmentView>::empty());
        assert(out@.map_values(|t: Treatment| t@) + Seq::<TreatmentView>::empty() =~= out@.map_values(
            |t: Treatment| t@,
        ));
    }
    out
}


/// Start of the look-back window: the duration of insulin action (with its
/// curve floor) before `clock`.
pub open spec fn window_start_millis(profile: Profile, clock: i64) -> int {
    clock - profile.spec_effective_dia_minutes() * 60000
}

/// Whether an event dated `date` falls inside the look-back window
/// `[clock - effective insulin action, clock]`.
pub open spec fn in_window(profile: Profile, clock: i64, date: i64) -> bool {
    window_start_millis(profile, clock) <= date && date <= clock
}

/// Number of 5-minute-aligned chunks a temp basal of `duration_minutes`
/// partitions into (the ceiling of duration over five).
pub open spec fn chunk_count(duration_minutes: i64) -> int {
    (duration_minutes + 4) / 5
}

/// Length of chunk `k`: five minutes, except the final chunk, which carries
/// the remainder.
pub open spec fn chunk_len(duration_minutes: i64, k: int) -> int {
    if k == chunk_count(duration_minutes) - 1 {
        duration_minutes - 5 * k
    } else {
        5
    }
}

/// Insulin of one chunk, in micro-units: the net rate (milli-units per hour)
/// over `len_minutes` minutes, rounded toward zero.
pub open spec fn chunk_insulin_micro(net_milli: int, len_minutes: int) -> int {
    if net_milli >= 0 {
        (net_milli * len_minutes * 1000) / 60
    } else {
        -((-net_milli * len_minutes * 1000) / 60)
    }
}

/// The chunk doses a temp basal emits from chunk `k` on: the walk stops at
/// the first chunk starting after `clock` (chunks are time-ordered), and
/// drops chunks whose insulin magnitude is at most 100 micro-units (the
/// 0.0001-unit noise floor).
pub open spec fn temp_chunks(
    date: i64,
    net_milli: int,
    duration_minutes: i64,
    clock: i64,
    k: int,
) -> Seq<InsulinDoseView>
    decreases chunk_count(duration_minutes) - k when 0 <= k
{
    if k >= chunk_count(duration_minutes) {
        Seq::empty()
    } else {
        let start = date + k * 300000;
        if start > clock {
            Seq::empty()
        } else {
            let ins = chunk_insulin_micro(net_milli, chunk_len(duration_minutes, k));
            let rest = temp_chunks(date, net_milli, duration_minutes, clock, k + 1);
            if abs(ins) > 100 {
                seq![
                    InsulinDoseView {
                        insulin_micro: ins as i64,
                        date: start as i64,
                        timestamp: None,
                        started_at: None,
                    },
                ] + rest
            } else {
                rest
            }
        }
    }
}

/// The doses one event emits: nothing outside the look-back window; a
/// positive bolus unchanged, carrying its timestamp metadata (started-at
/// falls back to the timestamp); a temp basal with positive duration as its
/// chunk doses against the scheduled basal at its start; carbs nothing.
pub open spec fn event_doses(profile: Profile, ev: TreatmentView, clock: i64) -> Seq<
    InsulinDoseView,
> {
    if !in_window(profile, clock, ev.date) {
        Seq::empty()
    } else {
        match ev.kind {
            TreatmentKind::Bolus { insulin_micro } => if insulin_micro > 0 {
                seq![
                    InsulinDoseView {
                        insulin_micro,
                        date: ev.date,
                        timestamp: ev.timestamp,
                        started_at: if ev.started_at is Some {
                            ev.started_at
                        } else {
                            ev.timestamp
                        },
                    },
                ]
            } else {
                Seq::empty()
            },
            TreatmentKind::TempBasal { rate_milli, duration_minutes } => if duration_minutes > 0 {
                temp_chunks(
                    ev.date,
                    rate_milli - scheduled_basal_milli(
                        profile,
                        time_of_day_minutes(ev.date as int),
                    ),
                    duration_minutes,
                    clock,
                    0,
                )
            } else {
                Seq::empty()
            },
            TreatmentKind::Carbs { milligrams, source } => Seq::empty(),
        }
    }
}

/// All doses the history emits, event by event in order.
pub open spec fn history_doses(profile: Profile, hist: Seq<TreatmentView>, clock: i64) -> Seq<
    InsulinDoseView,
>
    decreases hist.len(),
{
    if hist.len() == 0 {
        Seq::empty()
    } else {
        history_doses(profile, hist.drop_last(), clock) + event_doses(profile, hist.last(), clock)
    }
}

/// The hypothetical zero-temp projection: one future chunk per full five
/// minutes requested, each suspending the current scheduled basal (negative
/// insulin relative to baseline).
pub open spec fn projection_doses(profile: Profile, clock: i64, zero_temp_minutes: i64) -> Seq<
    InsulinDoseView,
> {
    if zero_temp_minutes > 0 {
        Seq::new(
            (zero_temp_minutes / 5) as nat,
            |k: int|
                InsulinDoseView {
                    insulin_micro: chunk_insulin_micro(
                        -(profile.current_basal_milli as int),
                        5,
                    ) as i64,
                    date: (clock + k * 300000) as i64,
                    timestamp: None,
                    started_at: None,
                },
        )
    } else {
        Seq::empty()
    }
}

/// Everything decomposition emits, before sorting: the history's doses
/// followed by the projection's.
pub open spec fn decomposed_doses(
    profile: Profile,
    hist: Seq<TreatmentView>,
    clock: i64,
    zero_temp_minutes: i64,
) -> Seq<InsulinDoseView> {
    history_doses(profile, hist, clock) + projection_doses(profile, clock, zero_temp_minutes)
}

/// Events outside the look-back window leave no trace: removing one from
/// the history leaves the emitted doses unchanged.
pub proof fn lemma_out_of_window_event_ignored(
    profile: Profile,
    hist: Seq<TreatmentView>,
    clock: i64,
    j: int,
)
    requires
        0 <= j < hist.len(),
        !in_window(profile, clock, hist[j].date),
    ensures
        history_doses(profile, hist.remove(j), clock) =~= history_doses(profile, hist, clock),
    decreases hist.len(),
{
    if j == hist.len() - 1 {
        assert(hist.remove(j) =~= hist.drop_last());
        assert(event_doses(profile, hist.last(), clock) =~= Seq::<InsulinDoseView>::empty());
        assert(history_doses(profile, hist.drop_last(), clock)
            + Seq::<InsulinDoseView>::empty() =~= history_doses(profile, hist.drop_last(), clock));
    } else {
        let sub = hist.remove(j);
        assert(sub.drop_last() =~= hist.drop_last().remove(j));
        assert(sub.last() == hist.last());
        lemma_out_of_window_event_ignored(profile, hist.drop_last(), clock, j);
    }
}

/// Insulin of one chunk, executable: the net rate over `len_minutes`
/// minutes, in micro-units, rounded toward zero.
fn chunk_insulin_exec(net_milli: i64, len_minutes: i64) -> (r: i64)
    requires
        -2 * MAX_RATE_MILLI <= net_milli <= 2 * MAX_RATE_MILLI,
        0 <= len_minutes <= 5,
    ensures
        r == chunk_insulin_micro(net_milli as int, len_minutes as int),
        -200_000_000 <= r <= 200_000_000,
{
    if net_milli >= 0 {
        let a: u64 = net_milli as u64;
        let b: u64 = len_minutes as u64;
        assert(a * b <= 10_000_000) by (nonlinear_arith)
            requires
                a <= 2_000_000,
                b <= 5,
        ;
        let prod: u64 = (a * b) * 1000;
        (prod / 60) as i64
    } else {
        let a: u64 = (-net_milli) as u64;
        let b: u64 = len_minutes as u64;
        assert(a * b <= 10_000_000) by (nonlinear_arith)
            requires
                a <= 2_000_000,
                b <= 5,
        ;
        let prod: u64 = (a * b) * 1000;
        -((prod / 60) as i64)
    }
}

/// Sort doses ascending by date.  The result is a permutation of the input
/// (stated over multisets of views: equal-dated doses carry no promised
/// order).
fn sort_doses_by_date(input: Vec<InsulinDose>) -> (r: Vec<InsulinDose>)
    ensures
        dose_views(r@).to_multiset() == dose_views(input@).to_multiset(),
        forall|a: int, b: int|
            #![trigger r@[a], r@[b]]
            0 <= a < b < r@.len() ==> r@[a].date <= r@[b].date,
{
    broadcast use vstd::seq_lib::group_to_multiset_ensures;

    let mut src = input;
    let mut out: Vec<InsulinDose> = Vec::new();
    proof {
        assert(dose_views(out@).to_multiset().add(dose_views(src@).to_multiset()) =~= dose_views(
            input@,
        ).to_multiset());
    }
    while src.len() > 0
        invariant
            dose_views(out@).to_multiset().add(dose_views(src@).to_multiset()) == dose_views(
                input@,
            ).to_multiset(),
            forall|a: int, b: int|
                #![trigger out@[a], out@[b]]
                0 <= a < b < out@.len() ==> out@[a].date <= out@[b].date,
            forall|a: int, b: int|
                #![trigger out@[a], src@[b]]
                0 <= a < out@.len() && 0 <= b < src@.len() ==> out@[a].date <= src@[b].date,
        decreases src@.len(),
    {
        broadcast use vstd::seq_lib::group_to_multiset_ensures;

        let mut m: usize = 0;
        let mut k: usize = 1;
        while k < src.len()
            invariant
                m < k <= src@.len(),
                forall|j: int| 0 <= j < k ==> src@[m as int].date <= (#[trigger] src@[j]).date,
            decreases src@.len() - k,
        {
            if src[k].date < src[m].date {
                m = k;
            }
            k = k + 1;
        }
        let ghost old_src = src@;
        let ghost old_out = out@;
        let x = src.remove(m);
        let ghost xv = x@;
        proof {
            assert(dose_views(old_src)[m as int] == xv);
            assert(dose_views(src@) =~= dose_views(old_src).remove(m as int));
            assert(dose_views(src@).to_multiset() =~= dose_views(old_src).to_multiset().remove(xv));
            assert(dose_views(old_src).contains(xv));
            assert(dose_views(old_src).to_multiset().count(xv) > 0);
        }
        out.push(x);
        proof {
            assert(dose_views(out@) =~= dose_views(old_out).push(xv));
            assert(dose_views(out@).to_multiset() =~= dose_views(old_out).to_multiset().insert(xv));
            assert(dose_views(out@).to_multiset().add(dose_views(src@).to_multiset()) =~= dose_views(
                old_out,
            ).to_multiset().add(dose_views(old_src).to_multiset()));
        }
    }
    out
}

/// Decompose raw history into discrete insulin deltas, ascending by date.
///
/// Events strictly before the look-back window or strictly after `clock` are
/// discarded.  A positive bolus is emitted unchanged at its date; a temp
/// basal with positive duration becomes 5-minute-aligned chunk doses of its
/// net rate against the scheduled basal at its start, stopping at the first
/// future chunk and dropping deltas at or below the 0.0001-unit noise floor.
/// A positive `zero_temp_minutes` appends one future chunk per full five
/// minutes, each suspending the current basal.  The result is the emitted
/// doses sorted ascending by date (order among equal dates is not promised),
/// and is always `Ok`: decomposition itself cannot fail.
pub fn find_insulin_treatments(
    profile: &Profile,
    history: &Vec<Treatment>,
    clock: i64,
    zero_temp_minutes: i64,
) -> (r: Result<Vec<InsulinDose>, OrefError>)
    requires
        profile.wf(),
        valid_time_millis(clock),
        forall|k: int| 0 <= k < history@.len() ==> (#[trigger] history@[k])@.wf(),
        -MAX_DURATION_MINUTES <= zero_temp_minutes <= MAX_DURATION_MINUTES,
    ensures
        r is Ok,
        (match r {
            Ok(doses) => {
                &&& dose_views(doses@).to_multiset() == decomposed_doses(
                    *profile,
                    treatment_views(history@),
                    clock,
                    zero_temp_minutes,
                ).to_multiset()
                &&& forall|a: int, b: int|
                    #![trigger doses@[a], doses@[b]]
                    0 <= a < b < doses@.len() ==> doses@[a].date <= doses@[b].date
            },
            Err(e) => false,
        }),
{
    let ghost hv = treatment_views(history@);
    let window_start: i64 = clock - profile.effective_dia() * 60000;
    let mut acc: Vec<InsulinDose> = Vec::new();
    let mut idx: usize = 0;
    while idx < history.len()
        invariant
            profile.wf(),
            valid_time_millis(clock),
            forall|k: int| 0 <= k < history@.len() ==> (#[trigger] history@[k])@.wf(),
            hv == treatment_views(history@),
            window_start == window_start_millis(*profile, clock),
            idx <= history@.len(),
            dose_views(acc@) =~= history_doses(*profile, hv.take(idx as int), clock),
        decreases history@.len() - idx,
    {
        let ghost prev_views = dose_views(acc@);
        let ghost ev_view = history@[idx as int]@;
        let date: i64 = history[idx].date;
        if date >= window_start && date <= clock {
            match history[idx].kind {
                TreatmentKind::Bolus { insulin_micro } => {
                    if insulin_micro > 0 {
                        let started_at: Option<String> = match &history[idx].started_at {
                            Some(s) => Some(s.clone()),
                            None => match &history[idx].timestamp {
                                Some(s) => Some(s.clone()),
                                None => None,
                            },
                        };
                        let dose = InsulinDose {
                            insulin_micro,
                            date,
                            timestamp: match &history[idx].timestamp {
                                Some(s) => Some(s.clone()),
                                None => None,
                            },
                            started_at,
                        };
                        proof {
                            assert(dose@ == event_doses(*profile, ev_view, clock)[0]);
                        }
                        acc.push(dose);
                        proof {
                            assert(dose_views(acc@) =~= prev_views + event_doses(
                                *profile,
                                ev_view,
                                clock,
                            ));
                        }
                    }
                },
                TreatmentKind::TempBasal { rate_milli, duration_minutes } => {
                    if duration_minutes > 0 {
                        let sched: i64 = basal_lookup(profile, date);
                        proof {
                            lemma_governed_basal_value(
                                *profile,
                                time_of_day_minutes(date as int),
                                sched,
                            );
                        }
                        let net: i64 = rate_milli - sched;
                        let chunks: i64 = (((duration_minutes as u64) + 4) / 5) as i64;
                        proof {
                            assert(chunks == chunk_count(duration_minutes));
                            vstd::arithmetic::div_mod::lemma_fundamental_div_mod(
                                duration_minutes + 4,
                                5,
                            );
                            vstd::arithmetic::div_mod::lemma_mod_bound(duration_minutes + 4, 5);
                        }
                        let mut k: i64 = 0;
                        let mut done: bool = false;
                        while k < chunks && !done
                            invariant
                                profile.wf(),
                                valid_time_millis(clock),
                                valid_time_millis(date),
                                -2 * MAX_RATE_MILLI <= net <= 2 * MAX_RATE_MILLI,
                                0 < duration_minutes <= MAX_DURATION_MINUTES,
                                chunks == chunk_count(duration_minutes),
                                5 * chunks - 4 <= duration_minutes <= 5 * chunks,
                                0 <= k <= chunks,
                                done ==> temp_chunks(
                                    date,
                                    net as int,
                                    duration_minutes,
                                    clock,
                                    k as int,
                                ) =~= Seq::<InsulinDoseView>::empty(),
                                prev_views + temp_chunks(
                                    date,
                                    net as int,
                                    duration_minutes,
                                    clock,
                                    0,
                                ) =~= dose_views(acc@) + temp_chunks(
                                    date,
                                    net as int,
                                    duration_minutes,
                                    clock,
                                    k as int,
                                ),
                            decreases chunks - k, (if done { 0int } else { 1int }),
                        {
                            let chunk_start: i64 = date + k * 300000;
                            if chunk_start > clock {
                                done = true;
                            } else {
                                let len: i64 = if k == chunks - 1 {
                                    duration_minutes - 5 * (chunks - 1)
                                } else {
                                    5
                                };
                                proof {
                                    assert(1 <= len <= 5);
                                    assert(len == chunk_len(duration_minutes, k as int));
                                }
                                let ins: i64 = chunk_insulin_exec(net, len);
                                let ghost before_push = dose_views(acc@);
                                if ins > 100 || ins < -100 {
                                    acc.push(
                                        InsulinDose {
                                            insulin_micro: ins,
                                            date: chunk_start,
                                            timestamp: None,
                                            started_at: None,
                                        },
                                    );
                                    proof {
                                        assert(dose_views(acc@) =~= before_push.push(
                                            InsulinDoseView {
                                                insulin_micro: ins,
                                                date: chunk_start,
                                                timestamp: None,
                                                started_at: None,
                                            },
                                        ));
                                        assert(temp_chunks(
                                            date,
                                            net as int,
                                            duration_minutes,
                                            clock,
                                            k as int,
                                        ) =~= seq![
                                            InsulinDoseView {
                                                insulin_micro: ins,
                                                date: chunk_start,
                                                timestamp: None,
                                                started_at: None,
                                            },
                                        ] + temp_chunks(
                                            date,
                                            net as int,
                                            duration_minutes,
                                            clock,
                                            k as int + 1,
                                        ));
                                        assert(dose_views(acc@) + temp_chunks(
                                            date,
                                            net as int,
                                            duration_minutes,
                                            clock,
                                            k as int + 1,
                                        ) =~= before_push + temp_chunks(
                                            date,
                                            net as int,
                                            duration_minutes,
                                            clock,
                                            k as int,
                                        ));
                                    }
                                } else {
                                    proof {
                                        assert(temp_chunks(
                                            date,
                                            net as int,
                                            duration_minutes,
                                            clock,
                                            k as int,
                                        ) =~= temp_chunks(
                                            date,
                                            net as int,
                                            duration_minutes,
                                            clock,
                                            k as int + 1,
                                        ));
                                    }
                                }
                                k = k + 1;
                            }
                        }
                        proof {
                            assert(temp_chunks(date, net as int, duration_minutes, clock, k as int)
                                =~= Seq::<InsulinDoseView>::empty());
                            assert(dose_views(acc@) =~= prev_views + temp_chunks(
                                date,
                                net as int,
                                duration_minutes,
                                clock,
                                0,
                            ));
                            assert(event_doses(*profile, ev_view, clock) =~= temp_chunks(
                                date,
                                net as int,
                                duration_minutes,
                                clock,
                                0,
                            ));
                        }
                    }
                },
                TreatmentKind::Carbs { milligrams, source } => {},
            }
        }
        proof {
            assert(hv.take(idx as int + 1).drop_last() =~= hv.take(idx as int));
            assert(hv.take(idx as int + 1).last() == ev_view);
            assert(dose_views(acc@) =~= history_doses(*profile, hv.take(idx as int + 1), clock));
        }
        idx = idx + 1;
    }
    proof {
        assert(hv.take(history@.len() as int) =~= hv);
    }
    if zero_temp_minutes > 0 {
        let ghost base = dose_views(acc@);
        let proj_chunks: i64 = ((zero_temp_minutes as u64) / 5) as i64;
        let neg_basal: i64 = 0 - profile.current_basal_milli;
        let proj_insulin: i64 = chunk_insulin_exec(neg_basal, 5);
        let mut k: i64 = 0;
        while k < proj_chunks
            invariant
                profile.wf(),
                valid_time_millis(clock),
                0 < zero_temp_minutes <= MAX_DURATION_MINUTES,
                proj_chunks == zero_temp_minutes / 5,
                proj_insulin == chunk_insulin_micro(-(profile.current_basal_milli as int), 5),
                0 <= k <= proj_chunks,
                dose_views(acc@) =~= base + projection_doses(*profile, clock, zero_temp_minutes)
                    .take(k as int),
            decreases proj_chunks - k,
        {
            let ghost before_push = dose_views(acc@);
            acc.push(
                InsulinDose {
                    insulin_micro: proj_insulin,
                    date: clock + k * 300000,
                    timestamp: None,
                    started_at: None,
                },
            );
            proof {
                let proj = projection_doses(*profile, clock, zero_temp_minutes);
                assert(proj.take(k as int + 1) =~= proj.take(k as int).push(proj[k as int]));
                assert(dose_views(acc@) =~= before_push.push(proj[k as int]));
                assert(dose_views(acc@) =~= base + proj.take(k as int + 1));
            }
            k = k + 1;
        }
        proof {
            let proj = projection_doses(*profile, clock, zero_temp_minutes);
            assert(proj.take(proj_chunks as int) =~= proj);
            assert(dose_views(acc@) =~= history_doses(*profile, hv, clock) + proj);
        }
    } else {
        proof {
            assert(projection_doses(*profile, clock, zero_temp_minutes)
                =~= Seq::<InsulinDoseView>::empty());
            assert(dose_views(acc@) =~= history_doses(*profile, hv, clock) + projection_doses(
                *profile,
                clock,
                zero_temp_minutes,
            ));
        }
    }
    let sorted = sort_doses_by_date(acc);
    Ok(sorted)
}

} // verus!
