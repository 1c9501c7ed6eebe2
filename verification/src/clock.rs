//! The time of a message as the window shows it: the server's RFC 3339
//! timestamp turned into the local hour and minute, `HH:MM`.
use crate::number::{digit_char, digit_text};
use chrono::Timelike;
use vstd::prelude::*;

verus! {

/// Whether `raw` is a timestamp that `chrono::DateTime::parse_from_rfc3339`
/// accepts.
pub uninterp spec fn is_rfc3339(raw: Seq<char>) -> bool;

/// Parses `raw` with `chrono::DateTime::parse_from_rfc3339`, moves it to the
/// machine's time zone with `with_timezone(&chrono::Local)` and takes
/// `Timelike::hour` and `Timelike::minute`. Trusted: there is a result
/// exactly when `raw` parses, and then an hour below 24 and a minute below
/// 60 (as chrono documents them). Which hour and minute is not stated: it
/// depends on the time zone of the machine. chrono's `Local` panics when
/// the machine's time zone data gives no usable offset; that depends on the
/// machine, not on `raw`, and is not stated either.
#[verifier::external_body]
fn local_clock(raw: &str) -> (r: Option<(u32, u32)>)
    ensures
        r is Some <==> is_rfc3339(raw@),
        r matches Some(hm) ==> hm.0 < 24 && hm.1 < 60,
{
    match chrono::DateTime::parse_from_rfc3339(raw) {
        Ok(t) => {
            let local = t.with_timezone(&chrono::Local);
            Some((local.hour(), local.minute()))
        },
        Err(_) => None,
    }
}

/// `n` (below 100) in two decimal digits, with a leading zero.
pub open spec fn two_digits(n: int) -> Seq<char> {
    seq![digit_char(n / 10), digit_char(n % 10)]
}

/// An hour and a minute as `HH:MM`.
pub open spec fn clock_text(hour: int, minute: int) -> Seq<char> {
    two_digits(hour) + seq![':'] + two_digits(minute)
}

/// Whether `shown` is how the window shows the timestamp `raw`: `HH:MM` of
/// some local hour and minute when `raw` is RFC 3339, and nothing otherwise.
pub open spec fn is_clock_of(raw: Seq<char>, shown: Seq<char>) -> bool {
    if is_rfc3339(raw) {
        exists|hour: int, minute: int|
            0 <= hour < 24 && 0 <= minute < 60 && shown == #[trigger] clock_text(hour, minute)
    } else {
        shown.len() == 0
    }
}

fn push_two_digits(out: &mut String, n: u32)
    requires
        n < 100,
    ensures
        final(out)@ == old(out)@ + two_digits(n as int),
{
    out.append(digit_text((n / 10) as u64));
    out.append(digit_text((n % 10) as u64));
    proof {
        assert(final(out)@ =~= old(out)@ + two_digits(n as int));
    }
}

/// An hour and a minute as the window shows them: `HH:MM`, each part in
/// two digits.
pub fn clock_label(hour: u32, minute: u32) -> (r: String)
    requires
        hour < 24,
        minute < 60,
    ensures
        r@ == clock_text(hour as int, minute as int),
{
    let mut r = String::new();
    push_two_digits(&mut r, hour);
    proof {
        reveal_strlit(":");
    }
    r.append(":");
    push_two_digits(&mut r, minute);
    proof {
        assert(r@ =~= clock_text(hour as int, minute as int));
    }
    r
}

/// The time of a message for the window: the local hour and minute of its
/// RFC 3339 timestamp as `clock_label` writes them, or nothing when the
/// timestamp does not parse.
pub fn message_time(raw: &str) -> (r: String)
    ensures
        is_clock_of(raw@, r@),
{
    match local_clock(raw) {
        Some((hour, minute)) => clock_label(hour, minute),
        None => String::new(),
    }
}

} // verus!
