//! Parsing of exchange instrument identifiers ("BTC-29DEC23-50000-C") and of
//! their expiry date codes ("29DEC23", "6SEP25").

use vstd::prelude::*;
use vstd::string::StrSliceExecFns;

use crate::contract::MAX_PRICE_CENTS;
use crate::side::OptionSide;
use crate::text::{all_digits, parse_u64, spec_parse_digits, str_eq};

verus! {

/// Index of the first '-' at or after `from`, or the length when none is
/// left.
pub open spec fn spec_dash_after(s: Seq<char>, from: int) -> int
    decreases s.len() - from,
{
    if from < 0 || from >= s.len() {
        s.len() as int
    } else if s[from] == '-' {
        from
    } else {
        spec_dash_after(s, from + 1)
    }
}

pub proof fn lemma_dash_after_bounds(s: Seq<char>, from: int)
    requires
        0 <= from <= s.len(),
    ensures
        from <= spec_dash_after(s, from) <= s.len(),
    decreases s.len() - from,
{
    if from < s.len() && s[from] != '-' {
        lemma_dash_after_bounds(s, from + 1);
    }
}

fn find_dash(s: &str, from: usize) -> (r: usize)
    requires
        from <= s@.len(),
    ensures
        r == spec_dash_after(s@, from as int),
        from <= r <= s@.len(),
{
    let len = s.unicode_len();
    let mut i = from;
    while i < len
        invariant
            from <= i <= len,
            len == s@.len(),
            spec_dash_after(s@, from as int) == spec_dash_after(s@, i as int),
        decreases len - i,
    {
        if s.get_char(i) == '-' {
            return i;
        }
        i += 1;
    }
    len
}

/// What an instrument identifier denotes, when it is one this service
/// tracks: tokens separated by '-', the asset code "BTC", then the expiry
/// label, then a positive whole-dollar strike within the engine's price
/// limit, then the side code "C" or "P". Tokens past the fourth are ignored.
/// The strike is returned in cents.
pub open spec fn spec_parse_instrument(s: Seq<char>) -> Option<(Seq<char>, u64, OptionSide)> {
    let i1 = spec_dash_after(s, 0);
    let i2 = spec_dash_after(s, i1 + 1);
    let i3 = spec_dash_after(s, i2 + 1);
    let i4 = spec_dash_after(s, i3 + 1);
    if i1 < s.len() && i2 < s.len() && i3 < s.len() {
        let asset = s.subrange(0, i1);
        let expiry = s.subrange(i1 + 1, i2);
        let tok = s.subrange(i2 + 1, i3);
        let side_tok = s.subrange(i3 + 1, i4);
        if asset == "BTC"@ && tok.len() > 0 && all_digits(tok) && 0 < spec_parse_digits(tok)
            && spec_parse_digits(tok) * 100 <= MAX_PRICE_CENTS {
            if side_tok == "C"@ {
                Some((expiry, (spec_parse_digits(tok) * 100) as u64, OptionSide::Call))
            } else if side_tok == "P"@ {
                Some((expiry, (spec_parse_digits(tok) * 100) as u64, OptionSide::Put))
            } else {
                None
            }
        } else {
            None
        }
    } else {
        None
    }
}

/// Splits an instrument identifier into (expiry label, strike in cents,
/// side). Identifiers that do not fit the tracked grammar give `None`.
pub fn parse_instrument_name(name: &str) -> (r: Option<(String, u64, OptionSide)>)
    ensures
        r is Some <==> spec_parse_instrument(name@) is Some,
        r is Some ==> r->Some_0.0@ == spec_parse_instrument(name@)->Some_0.0
            && r->Some_0.1 == spec_parse_instrument(name@)->Some_0.1 && r->Some_0.2
            == spec_parse_instrument(name@)->Some_0.2,
{
    let len = name.unicode_len();
    let i1 = find_dash(name, 0);
    if i1 >= len {
        return None;
    }
    let i2 = find_dash(name, i1 + 1);
    if i2 >= len {
        return None;
    }
    let i3 = find_dash(name, i2 + 1);
    if i3 >= len {
        return None;
    }
    let i4 = find_dash(name, i3 + 1);
    let asset = name.substring_char(0, i1);
    if !str_eq(asset, "BTC") {
        return None;
    }
    let tok = name.substring_char(i2 + 1, i3);
    let strike_dollars = match parse_u64(tok) {
        Some(v) => v,
        None => {
            return None;
        },
    };
    if strike_dollars == 0 || strike_dollars > MAX_PRICE_CENTS / 100 {
        return None;
    }
    let strike_cents = strike_dollars * 100;
    let side_tok = name.substring_char(i3 + 1, i4);
    let side = match OptionSide::from_code(side_tok) {
        Some(sd) => sd,
        None => {
            return None;
        },
    };
    let expiry = name.substring_char(i1 + 1, i2);
    Some((expiry.to_owned(), strike_cents, side))
}

/// Leap years under the Gregorian rules, valid away from the century
/// exceptions (1901 to 2099).
pub open spec fn spec_is_leap(y: int) -> bool {
    y % 4 == 0
}

pub open spec fn spec_days_in_month(y: int, m: int) -> int {
    if m == 2 {
        if spec_is_leap(y) {
            29
        } else {
            28
        }
    } else if m == 4 || m == 6 || m == 9 || m == 11 {
        30
    } else {
        31
    }
}

/// A calendar date the exchange could name, within the window where the
/// four-year leap rule is exact.
pub open spec fn spec_valid_date(y: int, m: int, d: int) -> bool {
    1901 <= y <= 2098 && 1 <= m <= 12 && 1 <= d <= spec_days_in_month(y, m)
}

/// Days in the months before `m` of year `y`.
pub open spec fn spec_month_days_before(y: int, m: int) -> int {
    let leap: int = if spec_is_leap(y) {
        1
    } else {
        0
    };
    if m == 1 {
        0
    } else if m == 2 {
        31
    } else if m == 3 {
        59 + leap
    } else if m == 4 {
        90 + leap
    } else if m == 5 {
        120 + leap
    } else if m == 6 {
        151 + leap
    } else if m == 7 {
        181 + leap
    } else if m == 8 {
        212 + leap
    } else if m == 9 {
        243 + leap
    } else if m == 10 {
        273 + leap
    } else if m == 11 {
        304 + leap
    } else {
        334 + leap
    }
}

/// Days from 1970-01-01 to the given date, under the four-year leap rule
/// (exact from 1901 to 2099).
pub open spec fn spec_days_from_epoch(y: int, m: int, d: int) -> int {
    365 * (y - 1970) + (y - 1969) / 4 + spec_month_days_before(y, m) + (d - 1)
}

/// The UTC timestamp, in milliseconds, of 08:00:00 on the given date: the
/// exchange's standard expiry time of day.
pub open spec fn spec_expiry_ms(y: int, m: int, d: int) -> int {
    (spec_days_from_epoch(y, m, d) * 86400 + 28800) * 1000
}

/// Relies on chrono: `NaiveDate::from_ymd_opt` accepts exactly the valid
/// proleptic-Gregorian dates, `NaiveDate::and_hms_opt(8, 0, 0)` attaches the
/// time of day, and `NaiveDateTime::and_utc().timestamp_millis()` counts
/// non-leap milliseconds since the UNIX epoch. Within 1901..=2098 the
/// Gregorian calendar has no century exception, so validity and the day
/// count follow the four-year leap rule stated here.
#[verifier::external_body]
fn civil_to_expiry_ms(year: i32, month: u32, day: u32) -> (r: Option<i64>)
    requires
        1901 <= year <= 2098,
    ensures
        r is Some <==> spec_valid_date(year as int, month as int, day as int),
        r is Some ==> r->Some_0 == spec_expiry_ms(year as int, month as int, day as int),
{
    let date = chrono::NaiveDate::from_ymd_opt(year, month, day)?;
    let dt = date.and_hms_opt(8, 0, 0)?;
    Some(dt.and_utc().timestamp_millis())
}

/// The month a three-letter exchange code names.
pub open spec fn spec_month_code(s: Seq<char>) -> Option<u32> {
    if s == "JAN"@ {
        Some(1u32)
    } else if s == "FEB"@ {
        Some(2u32)
    } else if s == "MAR"@ {
        Some(3u32)
    } else if s == "APR"@ {
        Some(4u32)
    } else if s == "MAY"@ {
        Some(5u32)
    } else if s == "JUN"@ {
        Some(6u32)
    } else if s == "JUL"@ {
        Some(7u32)
    } else if s == "AUG"@ {
        Some(8u32)
    } else if s == "SEP"@ {
        Some(9u32)
    } else if s == "OCT"@ {
        Some(10u32)
    } else if s == "NOV"@ {
        Some(11u32)
    } else {
        if s == "DEC"@ {
            Some(12u32)
        } else {
            None
        }
    }
}

fn month_code(s: &str) -> (r: Option<u32>)
    ensures
        r == spec_month_code(s@),
        r is Some ==> 1 <= r->Some_0 <= 12,
{
    proof {
        reveal_strlit("JAN");
        reveal_strlit("FEB");
        reveal_strlit("MAR");
        reveal_strlit("APR");
        reveal_strlit("MAY");
        reveal_strlit("JUN");
        reveal_strlit("JUL");
        reveal_strlit("AUG");
        reveal_strlit("SEP");
        reveal_strlit("OCT");
        reveal_strlit("NOV");
        reveal_strlit("DEC");
        assert("JAN"@[0] == 'J' && "FEB"@[0] == 'F' && "MAR"@[1] == 'A' && "APR"@[1] == 'P'
            && "MAY"@[2] == 'Y' && "JUN"@[2] == 'N' && "JUL"@[2] == 'L' && "AUG"@[0] == 'A'
            && "SEP"@[0] == 'S' && "OCT"@[0] == 'O' && "NOV"@[0] == 'N' && "DEC"@[0] == 'D');
    }
    if str_eq(s, "JAN") {
        Some(1)
    } else if str_eq(s, "FEB") {
        Some(2)
    } else if str_eq(s, "MAR") {
        Some(3)
    } else if str_eq(s, "APR") {
        Some(4)
    } else if str_eq(s, "MAY") {
        Some(5)
    } else if str_eq(s, "JUN") {
        Some(6)
    } else if str_eq(s, "JUL") {
        Some(7)
    } else if str_eq(s, "AUG") {
        Some(8)
    } else if str_eq(s, "SEP") {
        Some(9)
    } else if str_eq(s, "OCT") {
        Some(10)
    } else if str_eq(s, "NOV") {
        Some(11)
    } else if str_eq(s, "DEC") {
        Some(12)
    } else {
        None
    }
}

/// Whether an expiry label is well-formed: a one- or two-digit day, a
/// three-letter month code, a two-digit year (..49 meaning 20xx, 50..
/// meaning 19xx), naming a valid calendar date.
pub open spec fn spec_expiry_label_ok(s: Seq<char>) -> bool {
    if 6 <= s.len() <= 7 {
        let ms: int = if s.len() == 6 {
            1
        } else {
            2
        };
        let day_tok = s.take(ms);
        let month = spec_month_code(s.subrange(ms, ms + 3));
        let year_tok = s.subrange(ms + 3, ms + 5);
        all_digits(day_tok) && month is Some && all_digits(year_tok) && spec_valid_date(
            spec_label_year(s),
            month->Some_0 as int,
            spec_parse_digits(day_tok),
        )
    } else {
        false
    }
}

/// The full year an expiry label names.
pub open spec fn spec_label_year(s: Seq<char>) -> int {
    let ms: int = if s.len() == 6 {
        1
    } else {
        2
    };
    let yy = spec_parse_digits(s.subrange(ms + 3, ms + 5));
    if yy < 50 {
        2000 + yy
    } else {
        1900 + yy
    }
}

/// The expiry instant a well-formed label denotes: 08:00 UTC of its date,
/// in milliseconds.
pub open spec fn spec_expiry_label_ms(s: Seq<char>) -> int {
    let ms: int = if s.len() == 6 {
        1
    } else {
        2
    };
    spec_expiry_ms(
        spec_label_year(s),
        spec_month_code(s.subrange(ms, ms + 3))->Some_0 as int,
        spec_parse_digits(s.take(ms)),
    )
}

/// Parses an exchange expiry label to its UTC expiry instant in
/// milliseconds. Labels that are not well-formed dates give `None`.
pub fn parse_expiry_to_timestamp(expiry: &str) -> (r: Option<i64>)
    ensures
        r is Some <==> spec_expiry_label_ok(expiry@),
        r is Some ==> r->Some_0 == spec_expiry_label_ms(expiry@),
{
    let len = expiry.unicode_len();
    if len < 6 || len > 7 {
        return None;
    }
    let ms: usize = if len == 6 {
        1
    } else {
        2
    };
    let day_tok = expiry.substring_char(0, ms);
    let day = match parse_u64(day_tok) {
        Some(d) => d,
        None => {
            return None;
        },
    };
    let month = match month_code(expiry.substring_char(ms, ms + 3)) {
        Some(m) => m,
        None => {
            return None;
        },
    };
    let year_tok = expiry.substring_char(ms + 3, ms + 5);
    let yy = match parse_u64(year_tok) {
        Some(y) => y,
        None => {
            return None;
        },
    };
    proof {
        lemma_two_digits_bound(expiry@.take(ms as int));
        lemma_two_digits_bound(expiry@.subrange(ms as int + 3, ms as int + 5));
    }
    let year: u64 = if yy < 50 {
        2000 + yy
    } else {
        1900 + yy
    };
    civil_to_expiry_ms(year as i32, month, day as u32)
}

/// A string of at most two digits denotes a value below one hundred.
proof fn lemma_two_digits_bound(s: Seq<char>)
    requires
        all_digits(s),
        s.len() <= 2,
    ensures
        0 <= spec_parse_digits(s) < 100,
        s.len() <= 1 ==> spec_parse_digits(s) < 10,
    decreases s.len(),
{
    if s.len() > 0 {
        assert(all_digits(s.drop_last()));
        lemma_two_digits_bound(s.drop_last());
    }
}

} // verus!
