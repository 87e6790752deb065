//! Timestamps rendered as text, through `chrono`.

use crate::text::{nat_text, two_digit_str, two_digit_text};
use chrono::{TimeZone, Timelike};
use std::fmt::Write;
use vstd::prelude::*;
use vstd::string::*;

verus! {

/// What `chrono` writes for the instant `millis` (milliseconds since the
/// epoch) seen at the fixed offset `offset_secs` east of UTC, formatted with
/// the strftime-like `pattern`; `None` where `DateTime::from_timestamp_millis`
/// finds the instant out of range, or the pattern cannot be written.
pub uninterp spec fn zoned_timestamp_text(millis: i64, offset_secs: i32, pattern: Seq<char>) -> Option<
    Seq<char>,
>;

/// Calls `chrono::DateTime::from_timestamp_millis`, moves the instant to the
/// offset given by `chrono::FixedOffset::east_opt` and writes it with
/// `DateTime::format`. The contract only ties the result to the name
/// `zoned_timestamp_text` of these arguments: no clause says what the text is.
#[verifier::external_body]
pub(crate) fn format_millis_at_offset(millis: i64, offset_secs: i32, pattern: &str) -> (r: Option<String>)
    requires
        -86400 < offset_secs < 86400,
    ensures
        match r {
            Some(s) => zoned_timestamp_text(millis, offset_secs, pattern@) == Some(s@),
            None => zoned_timestamp_text(millis, offset_secs, pattern@) is None,
        },
{
    let offset = chrono::FixedOffset::east_opt(offset_secs).unwrap();
    match chrono::DateTime::from_timestamp_millis(millis) {
        Some(dt) => {
            let mut out = String::new();
            match write!(out, "{}", dt.with_timezone(&offset).format(pattern)) {
                Ok(()) => Some(out),
                Err(_) => None,
            }
        },
        None => None,
    }
}

/// Whether `chrono` can hold the instant `secs` seconds after the epoch:
/// `DateTime::from_timestamp` takes exactly the instants whose date lies in
/// the years -262143 to 262142 (its `MIN_YEAR` and `MAX_YEAR`), that is from
/// -262143-01-01 00:00:00 to 262142-12-31 23:59:59 UTC.
pub open spec fn timestamp_in_range(secs: i64) -> bool {
    -8334601228800 <= secs <= 8210266876799
}

/// Calls `chrono::Local.timestamp_opt(secs, 0).single()` and reads the hour
/// and minute of the local time. In chrono's source `timestamp_opt` gives a
/// single local time exactly when `DateTime::from_timestamp(secs, 0)` gives
/// an instant, which is when `timestamp_in_range` holds. Which hour and
/// minute come out depends on the machine's time zone, so of them the
/// contract states only the ranges that `Timelike::hour` and
/// `Timelike::minute` document. (chrono panics where the machine's time-zone
/// data yields no usable offset; no `requires` can rule that out.)
#[verifier::external_body]
pub(crate) fn local_hour_minute(secs: i64) -> (r: Option<(u32, u32)>)
    ensures
        r is Some <==> timestamp_in_range(secs),
        r matches Some(hm) ==> hm.0 < 24 && hm.1 < 60,
{
    match chrono::Local.timestamp_opt(secs, 0).single() {
        Some(dt) => Some((dt.hour(), dt.minute())),
        None => None,
    }
}

/// `hm` is an hour and minute that `local_hour_minute` can give for the
/// instant `secs`: what chrono's `Local` read on this machine for it. No
/// clause says which one (that rests on the machine's time zone); this only
/// ties a rendered time to an actual reading of that very instant.
pub closed spec fn local_time_reading(secs: i64, hm: (u32, u32)) -> bool {
    call_ensures(local_hour_minute, (secs,), Some(hm))
}

/// `HH:MM`: the hour and the minute, each on two digits.
pub open spec fn clock_text(hour: nat, minute: nat) -> Seq<char> {
    two_digit_text(hour) + ":"@ + two_digit_text(minute)
}

/// Renders an hour and a minute as `HH:MM`.
pub fn clock_str(hour: u32, minute: u32) -> (r: String)
    requires
        hour < 24,
        minute < 60,
    ensures
        r@ == clock_text(hour as nat, minute as nat),
{
    let mut r = two_digit_str(hour as u64);
    r.append(":");
    let m = two_digit_str(minute as u64);
    r.append(m.as_str());
    r
}

/// A reset time as shown, for the reset instant `reset_at` (seconds since
/// the epoch): the local wall-clock time `HH:MM` that chrono's `Local` reads
/// for that very instant, where there is one that `chrono` can hold, else
/// `--:--`. Which hour and minute depends on the machine's time zone.
pub open spec fn shown_reset(text: Seq<char>, reset_at: Option<i64>) -> bool {
    match reset_at {
        Some(t) => if timestamp_in_range(t) {
            exists|hm: (u32, u32)|
                hm.0 < 24 && hm.1 < 60 && local_time_reading(t, hm) && text == clock_text(
                    hm.0 as nat,
                    hm.1 as nat,
                )
        } else {
            text == "--:--"@
        },
        None => text == "--:--"@,
    }
}

/// The reset time as shown for the reset instant `reset_at`.
pub fn shown_reset_time(reset_at: Option<i64>) -> (r: String)
    ensures
        shown_reset(r@, reset_at),
{
    let shown = match reset_at {
        Some(secs) => format_reset_time(secs),
        None => None,
    };
    let r = reset_or_placeholder(shown);
    proof {
        reveal_strlit("--:--");
    }
    r
}

/// The reset time to show: the local time where it can be told, else
/// `--:--`.
pub fn reset_or_placeholder(reset: Option<String>) -> (r: String)
    ensures
        reset matches Some(t) ==> r == t,
        reset is None ==> r@ == "--:--"@,
{
    match reset {
        Some(t) => t,
        None => String::from_str("--:--"),
    }
}

/// The local wall-clock time of a timestamp in seconds, as `HH:MM`; `None`
/// where the instant is beyond what `chrono` can hold.
pub fn format_reset_time(reset_at: i64) -> (r: Option<String>)
    ensures
        r is Some <==> timestamp_in_range(reset_at),
        r matches Some(s) ==> exists|h: nat, m: nat| h < 24 && m < 60 && s@ == clock_text(h, m),
        r matches Some(s) ==> exists|hm: (u32, u32)|
            hm.0 < 24 && hm.1 < 60 && local_time_reading(reset_at, hm) && s@ == clock_text(
                hm.0 as nat,
                hm.1 as nat,
            ),
{
    // Called through a value, so that the reading is tied to this instant
    // (`call_ensures`, which `local_time_reading` names).
    let read = local_hour_minute;
    let reading = read(reset_at);
    match reading {
        Some(hm) => {
            let s = clock_str(hm.0, hm.1);
            assert(call_ensures(read, (reset_at,), reading));
            assert(local_time_reading(reset_at, hm));
            assert(s@ == clock_text(hm.0 as nat, hm.1 as nat));
            Some(s)
        },
        None => None,
    }
}


/// The value of a decimal digit character.
pub open spec fn digit_value(c: char) -> int {
    c as int - 48
}

/// `HH:MM` reads back as the hour and the minute it was made from: five
/// characters, the hour's two digits, a colon, the minute's two digits. So
/// two clock texts are equal only for the same hour and minute.
pub proof fn lemma_clock_text_reads_back(h: nat, m: nat)
    requires
        h < 100,
        m < 100,
    ensures
        clock_text(h, m).len() == 5,
        clock_text(h, m)[2] == ':',
        digit_value(clock_text(h, m)[0]) * 10 + digit_value(clock_text(h, m)[1]) == h,
        digit_value(clock_text(h, m)[3]) * 10 + digit_value(clock_text(h, m)[4]) == m,
{
    reveal_strlit(":");
    reveal_with_fuel(nat_text, 2);
}

/// Clock texts of different times differ.
pub proof fn lemma_clock_text_injective(h1: nat, m1: nat, h2: nat, m2: nat)
    requires
        h1 < 100,
        m1 < 100,
        h2 < 100,
        m2 < 100,
        clock_text(h1, m1) == clock_text(h2, m2),
    ensures
        h1 == h2,
        m1 == m2,
{
    lemma_clock_text_reads_back(h1, m1);
    lemma_clock_text_reads_back(h2, m2);
}

/// A reset time shown for an instant chrono can hold is the clock of a
/// reading of that very instant: five characters whose digits give back
/// the hour and minute that chrono's `Local` read for it. One shown without
/// a reset instant, or for one out of range, is `--:--`.
pub proof fn lemma_shown_reset_reads_instant(text: Seq<char>, reset_at: Option<i64>)
    requires
        shown_reset(text, reset_at),
    ensures
        (reset_at matches Some(t) && timestamp_in_range(t)) ==> exists|hm: (u32, u32)|
            local_time_reading(reset_at->0, hm) && text.len() == 5 && text[2] == ':' && digit_value(text[0])
                * 10 + digit_value(text[1]) == hm.0 && digit_value(text[3]) * 10 + digit_value(text[4])
                == hm.1,
        !(reset_at matches Some(t) && timestamp_in_range(t)) ==> text == "--:--"@,
{
    if let Some(t) = reset_at {
        if timestamp_in_range(t) {
            let hm = choose|hm: (u32, u32)|
                hm.0 < 24 && hm.1 < 60 && local_time_reading(t, hm) && text == clock_text(
                    hm.0 as nat,
                    hm.1 as nat,
                );
            lemma_clock_text_reads_back(hm.0 as nat, hm.1 as nat);
        }
    }
}

} // verus!
