//! Instants and time-of-day arithmetic.
//!
//! An instant is a count of milliseconds since the Unix epoch, UTC.  The
//! schedule logic only ever needs the minutes-from-midnight of an instant,
//! which is plain modular arithmetic on that count.

use vstd::prelude::*;
use vstd::string::{StringExecFns, StrSliceExecFns};
use crate::OrefError;

verus! {

/// Milliseconds in one minute.
pub const MILLIS_PER_MINUTE: i64 = 60_000;

/// Milliseconds in one day.
pub const MILLIS_PER_DAY: i64 = 86_400_000;

/// Minutes in one day.
pub const MINUTES_PER_DAY: u32 = 1440;

/// Largest magnitude of an instant this library computes with, about 950,000
/// years from the epoch.  Wide enough to hold every instant the timestamp
/// parser can produce, and narrow enough that window and chunk arithmetic on
/// instants stays inside `i64`.
pub const MAX_ABS_TIME_MILLIS: i64 = 30_000_000_000_000_000;

/// A whole number of days (500,000,000 of them) added before dividing, so that
/// the dividend is nonnegative.  Adding whole days does not change the
/// time of day.
pub const TIME_SHIFT_MILLIS: i64 = 43_200_000_000_000_000;

/// An instant this library is prepared to do arithmetic on.
pub open spec fn valid_time_millis(t: i64) -> bool {
    -MAX_ABS_TIME_MILLIS <= t <= MAX_ABS_TIME_MILLIS
}

/// Minutes from midnight, UTC, of the instant `t` (milliseconds since the
/// Unix epoch).  The shift by a whole number of days makes the dividend
/// nonnegative without moving the time of day.
pub open spec fn time_of_day_minutes(t: int) -> int {
    ((t + TIME_SHIFT_MILLIS) / (MILLIS_PER_MINUTE as int)) % (MINUTES_PER_DAY as int)
}

/// Minutes from midnight, UTC, of the instant `t`.
pub fn tod_minutes(t: i64) -> (r: u32)
    requires
        valid_time_millis(t),
    ensures
        r == time_of_day_minutes(t as int),
        r < MINUTES_PER_DAY,
{
    let shifted: u64 = (t + TIME_SHIFT_MILLIS) as u64;
    let minutes: u64 = (shifted / 60_000u64) % 1440u64;
    minutes as u32
}

/// Moving an instant by whole minutes moves its time of day by the same
/// minutes, modulo the day.
pub proof fn lemma_time_of_day_offset(t: int, x: int)
    ensures
        time_of_day_minutes(t + x * (MILLIS_PER_MINUTE as int)) == (time_of_day_minutes(t) + x) % (
        MINUTES_PER_DAY as int),
{
    let m = MILLIS_PER_MINUTE as int;
    let d = MINUTES_PER_DAY as int;
    let s = t + TIME_SHIFT_MILLIS;
    assert((s + x * m) / m == s / m + x) by {
        vstd::arithmetic::div_mod::lemma_hoist_over_denominator(s, x, m as nat);
    }
    let q = s / m;
    assert((q + x) % d == (q % d + x) % d) by {
        vstd::arithmetic::div_mod::lemma_fundamental_div_mod(q, d);
        assert(q + x == d * (q / d) + (q % d + x));
        vstd::arithmetic::div_mod::lemma_mod_multiples_vanish(q / d, q % d + x, d);
    }
}

/// Magnitude below which every instant is representable by the date-time
/// library (about 126,000 years; its own range runs to about 262,000 years).
pub const CHRONO_SAFE_ABS_MILLIS: i64 = 4_000_000_000_000_000;

/// Magnitude above which no instant is representable by the date-time
/// library.
pub const CHRONO_MAX_ABS_MILLIS: i64 = 9_000_000_000_000_000;

/// What `chrono::DateTime::parse_from_rfc3339` returns for a string, as
/// milliseconds since the Unix epoch, UTC.
pub uninterp spec fn rfc3339_millis_of(s: Seq<char>) -> Option<i64>;

/// What `chrono::NaiveDateTime::parse_from_str` with the format
/// `"%Y-%m-%d %H:%M:%S"` returns for a string, read as UTC, as milliseconds
/// since the Unix epoch.
pub uninterp spec fn space_format_millis_of(s: Seq<char>) -> Option<i64>;

/// Whether `chrono::DateTime::from_timestamp_millis` can represent an
/// instant: its documented failure is an out-of-range count of milliseconds.
pub uninterp spec fn millis_representable(m: int) -> bool;

/// What `chrono::DateTime::to_rfc3339` prints for the instant `m`.
pub uninterp spec fn rfc3339_text_of(m: int) -> Seq<char>;

/// First instant of year 0000, milliseconds since the Unix epoch.
pub const RFC3339_MIN_MILLIS: i64 = -62_167_219_200_000;

/// Last instant of year 9999, milliseconds since the Unix epoch.
pub const RFC3339_MAX_MILLIS: i64 = 253_402_300_799_999;

/// Instants whose year has four digits, 0000 through 9999: the span RFC 3339
/// text can carry.  Outside it the writer prints the year with a sign and
/// more digits, which the RFC 3339 parser does not read back.
pub open spec fn rfc3339_printable(m: int) -> bool {
    RFC3339_MIN_MILLIS <= m <= RFC3339_MAX_MILLIS
}

/// Relies on chrono's `DateTime::parse_from_rfc3339`: the parsed instant is a
/// function of the text alone, and any instant chrono represents lies within
/// about 262,000 years of the epoch.
#[verifier::external_body]
fn parse_rfc3339_millis(s: &str) -> (r: Option<i64>)
    ensures
        r == rfc3339_millis_of(s@),
        r matches Some(m) ==> -CHRONO_MAX_ABS_MILLIS <= m <= CHRONO_MAX_ABS_MILLIS,
{
    chrono::DateTime::parse_from_rfc3339(s).ok().map(|dt| dt.with_timezone(
        &chrono::Utc,
    ).timestamp_millis())
}

/// Relies on chrono's `NaiveDateTime::parse_from_str` with the format
/// `"%Y-%m-%d %H:%M:%S"`, read as UTC: the parsed instant is a function of
/// the text alone, and lies within chrono's representable range.
#[verifier::external_body]
fn parse_space_format_millis(s: &str) -> (r: Option<i64>)
    ensures
        r == space_format_millis_of(s@),
        r matches Some(m) ==> -CHRONO_MAX_ABS_MILLIS <= m <= CHRONO_MAX_ABS_MILLIS,
{
    chrono::NaiveDateTime::parse_from_str(s, "%Y-%m-%d %H:%M:%S").ok().map(|dt| dt.and_utc()
        .timestamp_millis())
}

/// Relies on chrono's `DateTime::from_timestamp_millis`: it returns `Some`
/// exactly for the representable range, which reaches past every instant
/// within about 126,000 years of the epoch and never past 262,000 years.
#[verifier::external_body]
fn millis_in_chrono_range(m: i64) -> (r: bool)
    ensures
        r == millis_representable(m as int),
        r ==> -CHRONO_MAX_ABS_MILLIS <= m <= CHRONO_MAX_ABS_MILLIS,
        -CHRONO_SAFE_ABS_MILLIS <= m <= CHRONO_SAFE_ABS_MILLIS ==> r,
{
    chrono::DateTime::from_timestamp_millis(m).is_some()
}

/// Relies on chrono's `DateTime::from_timestamp_millis` and
/// `DateTime::to_rfc3339`: formatting is a function of the instant alone.
/// The round-trip clause holds only of four-digit years, hence the
/// `requires`: within years 0000–9999 the writer emits a plain four-digit
/// year and `parse_from_rfc3339` reads the text back to the same instant;
/// wider years are printed with a sign, which that parser does not accept.
#[verifier::external_body]
fn format_rfc3339(m: i64) -> (r: String)
    requires
        rfc3339_printable(m as int),
    ensures
        r@ == rfc3339_text_of(m as int),
        rfc3339_millis_of(r@) == Some(m),
{
    chrono::DateTime::from_timestamp_millis(m).map(|dt| dt.to_rfc3339()).unwrap_or_default()
}

/// A decimal digit, by code point.
pub open spec fn is_decimal_digit(c: char) -> bool {
    48 <= c as int <= 57
}

/// The value of a decimal digit.
pub open spec fn digit_val(c: char) -> int {
    c as int - 48
}

/// Every character a decimal digit.
pub open spec fn all_digits(s: Seq<char>) -> bool {
    forall|i: int| 0 <= i < s.len() ==> is_decimal_digit(#[trigger] s[i])
}

/// The number a string of digits denotes.
pub open spec fn digits_value(s: Seq<char>) -> int
    decreases s.len(),
{
    if s.len() == 0 {
        0
    } else {
        digits_value(s.drop_last()) * 10 + digit_val(s.last())
    }
}

/// A digit string's value is nonnegative.
proof fn lemma_digits_value_nonneg(s: Seq<char>)
    requires
        all_digits(s),
    ensures
        digits_value(s) >= 0,
    decreases s.len(),
{
    if s.len() > 0 {
        assert(all_digits(s.drop_last()));
        lemma_digits_value_nonneg(s.drop_last());
    }
}

/// Extending a digit string never shrinks its value.
proof fn lemma_digits_value_monotone(s: Seq<char>, m: int)
    requires
        all_digits(s),
        0 <= m <= s.len(),
    ensures
        digits_value(s) >= digits_value(s.take(m)),
    decreases s.len(),
{
    if m < s.len() {
        assert(all_digits(s.drop_last()));
        assert(s.drop_last().take(m) =~= s.take(m));
        lemma_digits_value_monotone(s.drop_last(), m);
        lemma_digits_value_nonneg(s.drop_last());
        assert(digits_value(s.drop_last()) * 10 >= digits_value(s.drop_last())) by (nonlinear_arith)
            requires
                digits_value(s.drop_last()) >= 0,
        ;
    } else {
        assert(s.take(m) =~= s);
    }
}

/// What parsing an optionally-signed decimal string as a 64-bit integer
/// yields: `None` for an empty digit run, a non-digit, or a value out of
/// range.
pub open spec fn decimal_i64_of(s: Seq<char>) -> Option<i64> {
    let neg = s.len() > 0 && s[0] == '-';
    let ds = if s.len() > 0 && (s[0] == '-' || s[0] == '+') {
        s.drop_first()
    } else {
        s
    };
    if ds.len() == 0 || !all_digits(ds) {
        None
    } else {
        let v = if neg {
            -digits_value(ds)
        } else {
            digits_value(ds)
        };
        if i64::MIN <= v <= i64::MAX {
            Some(v as i64)
        } else {
            None
        }
    }
}

/// Parse an optionally-signed decimal string as a 64-bit integer.
fn parse_decimal_i64(s: &str) -> (r: Option<i64>)
    ensures
        r == decimal_i64_of(s@),
{
    let n: usize = s.unicode_len();
    if n == 0 {
        return None;
    }
    let first: char = s.get_char(0);
    let neg: bool = first == '-';
    let start: usize = if first == '-' || first == '+' {
        1
    } else {
        0
    };
    let ghost ds = if first == '-' || first == '+' {
        s@.drop_first()
    } else {
        s@
    };
    proof {
        assert(ds.len() == n - start);
        assert(forall|i: int| 0 <= i < ds.len() ==> ds[i] == s@[i + start]);
    }
    if n == start {
        return None;
    }
    let limit: u64 = if neg {
        9_223_372_036_854_775_808
    } else {
        9_223_372_036_854_775_807
    };
    let mut mag: u64 = 0;
    let mut i: usize = start;
    while i < n
        invariant
            s@.len() == n,
            start <= i <= n,
            start <= 1,
            n > start,
            neg == (s@[0] == '-'),
            (start == 1) == (s@[0] == '-' || s@[0] == '+'),
            ds == (if start == 1 {
                s@.drop_first()
            } else {
                s@
            }),
            ds.len() == n - start,
            limit == (if neg {
                9_223_372_036_854_775_808u64
            } else {
                9_223_372_036_854_775_807u64
            }),
            all_digits(ds.take(i - start)),
            mag == digits_value(ds.take(i - start)),
            mag <= limit,
        decreases n - i,
    {
        let c: char = s.get_char(i);
        let u: u32 = c as u32;
        proof {
            assert(ds[i - start] == s@[i as int]);
        }
        if u < 48 || u > 57 {
            proof {
                assert(!is_decimal_digit(ds[i - start]));
                assert(!all_digits(ds));
            }
            return None;
        }
        let d: u64 = (u - 48) as u64;
        proof {
            assert(ds.take(i - start + 1).drop_last() =~= ds.take(i - start));
            assert(ds.take(i - start + 1).last() == ds[i - start]);
            assert(all_digits(ds.take(i - start + 1)));
            vstd::arithmetic::div_mod::lemma_fundamental_div_mod(limit as int - d as int, 10);
        }
        if mag > (limit - d) / 10 {
            proof {
                assert(digits_value(ds.take(i - start + 1)) == mag * 10 + d);
                assert(mag * 10 + d > limit) by (nonlinear_arith)
                    requires
                        mag > (limit - d) / 10,
                        (limit - d) == 10 * ((limit - d) / 10) + (limit - d) % 10,
                        0 <= (limit - d) % 10 < 10,
                        d <= limit,
                ;
                if all_digits(ds) {
                    lemma_digits_value_monotone(ds, i - start + 1);
                    assert(digits_value(ds) > limit);
                }
            }
            return None;
        }
        proof {
            assert(mag * 10 + d <= limit) by (nonlinear_arith)
                requires
                    mag <= (limit - d) / 10,
                    (limit - d) == 10 * ((limit - d) / 10) + (limit - d) % 10,
                    0 <= (limit - d) % 10 < 10,
            ;
            assert(digits_value(ds.take(i - start + 1)) == mag * 10 + d);
        }
        mag = mag * 10 + d;
        i = i + 1;
    }
    proof {
        assert(ds.take(n - start) =~= ds);
    }
    if neg {
        if mag == 9_223_372_036_854_775_808 {
            Some(i64::MIN)
        } else {
            Some(-(mag as i64))
        }
    } else {
        Some(mag as i64)
    }
}

/// What `parse_timestamp` recovers from a string: the first matching format
/// of, in order, RFC 3339 with offset, `"YYYY-MM-DD HH:MM:SS"` read as UTC,
/// and a decimal count of Unix milliseconds within the representable range.
pub open spec fn parsed_timestamp_millis(s: Seq<char>) -> Option<i64> {
    if rfc3339_millis_of(s) is Some {
        rfc3339_millis_of(s)
    } else if space_format_millis_of(s) is Some {
        space_format_millis_of(s)
    } else {
        match decimal_i64_of(s) {
            Some(m) => if millis_representable(m as int) {
                Some(m)
            } else {
                None
            },
            None => None,
        }
    }
}

/// Parse timestamp text into an instant (milliseconds since the Unix epoch,
/// UTC).
///
/// Formats are tried in fixed order: RFC 3339 with offset, then
/// `"YYYY-MM-DD HH:MM:SS"` as naive UTC, then a bare decimal count of Unix
/// milliseconds.  Exactly the strings matching none of the three fail, with
/// `InvalidTimestamp` carrying the rejected text: a per-record validation
/// failure, never fatal to a batch.
pub fn parse_timestamp(s: &str) -> (r: Result<i64, OrefError>)
    ensures
        (match parsed_timestamp_millis(s@) {
            Some(m) => r matches Ok(v) && v == m,
            None => r matches Err(e) && (match e {
                OrefError::InvalidTimestamp(t) => t@ == s@,
            }),
        }),
        r matches Ok(v) ==> valid_time_millis(v),
{
    if let Some(m) = parse_rfc3339_millis(s) {
        return Ok(m);
    }
    if let Some(m) = parse_space_format_millis(s) {
        return Ok(m);
    }
    if let Some(m) = parse_decimal_i64(s) {
        if millis_in_chrono_range(m) {
            return Ok(m);
        }
    }
    Err(OrefError::InvalidTimestamp(s.to_owned()))
}

/// Print an instant as RFC 3339 text.  For instants within years
/// 0000–9999 — the only years RFC 3339 text can carry — parsing the result
/// recovers the instant exactly (`parsed_timestamp_millis` of the text is
/// the instant): the round trip loses nothing, not even a millisecond.
pub fn format_timestamp(millis: i64) -> (r: String)
    requires
        rfc3339_printable(millis as int),
    ensures
        r@ == rfc3339_text_of(millis as int),
        parsed_timestamp_millis(r@) == Some(millis),
{
    let r = format_rfc3339(millis);
    proof {
        assert(rfc3339_millis_of(r@) == Some(millis));
    }
    r
}

/// Print an instant as RFC 3339 text, testing the span first: `None`
/// exactly where the instant's year falls outside 0000–9999, `Some` of the
/// round-tripping text otherwise.
pub fn format_timestamp_opt(millis: i64) -> (r: Option<String>)
    ensures
        r is Some <==> rfc3339_printable(millis as int),
        r matches Some(t) ==> t@ == rfc3339_text_of(millis as int) && parsed_timestamp_millis(t@)
            == Some(millis),
{
    if RFC3339_MIN_MILLIS <= millis && millis <= RFC3339_MAX_MILLIS {
        Some(format_timestamp(millis))
    } else {
        None
    }
}

/// The digit character of a value below ten.
pub open spec fn digit_char(d: int) -> char {
    if d == 0 { '0' }
    else if d == 1 { '1' }
    else if d == 2 { '2' }
    else if d == 3 { '3' }
    else if d == 4 { '4' }
    else if d == 5 { '5' }
    else if d == 6 { '6' }
    else if d == 7 { '7' }
    else if d == 8 { '8' }
    else { '9' }
}

/// "HH:MM:SS" text of a time of day.
pub open spec fn hms_text(hour: int, minute: int, second: int) -> Seq<char> {
    seq![
        digit_char(hour / 10),
        digit_char(hour % 10),
        ':',
        digit_char(minute / 10),
        digit_char(minute % 10),
        ':',
        digit_char(second / 10),
        digit_char(second % 10),
    ]
}

/// The one-character text of a digit.
fn digit_str(d: u32) -> (r: &'static str)
    requires
        d < 10,
    ensures
        r@ == seq![digit_char(d as int)],
{
    if d == 0 {
        proof { reveal_strlit("0"); }
        "0"
    } else if d == 1 {
        proof { reveal_strlit("1"); }
        "1"
    } else if d == 2 {
        proof { reveal_strlit("2"); }
        "2"
    } else if d == 3 {
        proof { reveal_strlit("3"); }
        "3"
    } else if d == 4 {
        proof { reveal_strlit("4"); }
        "4"
    } else if d == 5 {
        proof { reveal_strlit("5"); }
        "5"
    } else if d == 6 {
        proof { reveal_strlit("6"); }
        "6"
    } else if d == 7 {
        proof { reveal_strlit("7"); }
        "7"
    } else if d == 8 {
        proof { reveal_strlit("8"); }
        "8"
    } else {
        proof { reveal_strlit("9"); }
        "9"
    }
}

/// Print a time of day as "HH:MM:SS".
pub fn format_hms(hour: u32, minute: u32, second: u32) -> (r: String)
    requires
        hour < 24,
        minute < 60,
        second < 60,
    ensures
        r@ == hms_text(hour as int, minute as int, second as int),
{
    proof {
        reveal_strlit(":");
    }
    let mut out: String = String::new();
    out.append(digit_str(hour / 10));
    out.append(digit_str(hour % 10));
    out.append(":");
    out.append(digit_str(minute / 10));
    out.append(digit_str(minute % 10));
    out.append(":");
    out.append(digit_str(second / 10));
    out.append(digit_str(second % 10));
    proof {
        assert(out@ =~= hms_text(hour as int, minute as int, second as int));
    }
    out
}

} // verus!
