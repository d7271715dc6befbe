//! Fixed-point formatting of amounts and remaining lifetimes, and duration
//! strings.
//!
//! USD amounts are carried in cents, BTC amounts in satoshis.

use vstd::prelude::*;
use vstd::string::StrSliceExecFns;
use vstd::string::StringExecFns;

use crate::text::{
    dec_digit, i64_grammar_ok, parse_i64, spec_padded_string, spec_parse_i64, spec_trim,
    spec_u64_string, trim_ascii, u64_to_padded_string, u64_to_string,
};

verus! {

/// Number of decimals a BTC amount is written with.
pub const BTC_PRECISION: u32 = 8;

/// Satoshis in one BTC: 10^8.
pub const SATS_PER_BTC: u64 = 100_000_000;

/// The fixed-point scale of volatilities, probabilities and rate-like
/// multipliers: one millionth.
pub const UNIT_SCALE: u64 = 1_000_000;

/// A satoshi amount written as BTC with eight decimals, e.g. "1.00000000".
pub open spec fn spec_format_btc(sats: nat) -> Seq<char> {
    spec_u64_string(sats / (SATS_PER_BTC as nat)) + "."@ + spec_padded_string(
        sats % (SATS_PER_BTC as nat),
        BTC_PRECISION as nat,
    )
}

/// Formats a satoshi amount as a BTC decimal string with eight decimals.
pub fn format_btc(sats: u64) -> (r: String)
    ensures
        r@ == spec_format_btc(sats as nat),
{
    let mut s = u64_to_string(sats / SATS_PER_BTC);
    s.append(".");
    let frac = u64_to_padded_string(sats % SATS_PER_BTC, BTC_PRECISION);
    s.append(frac.as_str());
    s
}

/// A signed cent amount written as dollars with two decimals, e.g. "-12.05".
pub open spec fn spec_format_cents(c: int) -> Seq<char> {
    if c >= 0 {
        spec_u64_string((c / 100) as nat) + "."@ + spec_padded_string((c % 100) as nat, 2)
    } else {
        "-"@ + spec_u64_string(((-c) / 100) as nat) + "."@ + spec_padded_string(
            ((-c) % 100) as nat,
            2,
        )
    }
}

/// Formats a signed cent amount as a dollar decimal string with two
/// decimals.
pub fn format_cents(c: i64) -> (r: String)
    requires
        c != i64::MIN,
    ensures
        r@ == spec_format_cents(c as int),
{
    if c >= 0 {
        let cu = c as u64;
        let mut s = u64_to_string(cu / 100);
        s.append(".");
        let frac = u64_to_padded_string(cu % 100, 2);
        s.append(frac.as_str());
        s
    } else {
        let cu = (-c) as u64;
        let mut s = "-".to_owned();
        let whole = u64_to_string(cu / 100);
        s.append(whole.as_str());
        s.append(".");
        let frac = u64_to_padded_string(cu % 100, 2);
        s.append(frac.as_str());
        s
    }
}

/// How a remaining lifetime of `d` seconds is displayed: "EXPIRED" when no
/// time is left, else whole minutes under an hour, whole hours under a day,
/// and whole days otherwise.
pub open spec fn spec_format_remaining(d: int) -> Seq<char> {
    if d <= 0 {
        "EXPIRED"@
    } else if d < 3600 {
        spec_u64_string((d / 60) as nat) + "m"@
    } else if d < 86400 {
        spec_u64_string((d / 3600) as nat) + "h"@
    } else {
        spec_u64_string((d / 86400) as nat) + "d"@
    }
}

/// Formats the time remaining until the expiry timestamp `expires` (seconds),
/// as seen from `now` (seconds).
pub fn format_expires_timestamp(expires: i64, now: i64) -> (r: String)
    requires
        i64::MIN <= expires - now <= i64::MAX,
    ensures
        r@ == spec_format_remaining(expires - now),
{
    let d = expires - now;
    if d <= 0 {
        "EXPIRED".to_owned()
    } else {
        let du = d as u64;
        if du < 3600 {
            let mut s = u64_to_string(du / 60);
            s.append("m");
            s
        } else if du < 86400 {
            let mut s = u64_to_string(du / 3600);
            s.append("h");
            s
        } else {
            let mut s = u64_to_string(du / 86400);
            s.append("d");
            s
        }
    }
}

/// The number of seconds a duration string such as "30m", "2h" or "7d"
/// denotes: the trimmed input without its final character is read as a signed
/// decimal (0 when malformed), then scaled by the unit that the final
/// character names (unknown units give 0).
pub open spec fn spec_duration_to_seconds(s: Seq<char>) -> int {
    let t = spec_trim(s);
    let num_part = t.subrange(0, t.len() - 1);
    let unit = t[t.len() - 1];
    let n = if i64_grammar_ok(num_part) {
        spec_parse_i64(num_part)
    } else {
        0
    };
    if unit == 'm' {
        n * 60
    } else if unit == 'h' {
        n * 3600
    } else if unit == 'd' {
        n * 86400
    } else {
        0
    }
}

/// Spacing of the options-table strike ladder: $1000, in cents.
pub const STRIKE_STEP_CENTS: u64 = 100_000;

/// The spot rounded to the nearest ladder step (half rounds up).
pub open spec fn spec_ladder_center(spot: int) -> int {
    ((spot + 50_000) / 100_000) * 100_000
}

/// How many of the eleven ladder slots fall at or below zero and are left
/// out.
pub open spec fn spec_ladder_skip(center: int) -> int {
    if center >= 600_000 {
        0
    } else {
        6 - center / 100_000
    }
}

/// The strike ladder the options table quotes: the spot rounded to the
/// nearest $1000, with five steps of $1000 on either side, positive strikes
/// only, ascending.
pub fn generate_strike_ladder(spot_cents: u64) -> (r: Vec<u64>)
    requires
        spot_cents <= 100_000_000_000,
    ensures
        ({
            let center = spec_ladder_center(spot_cents as int);
            let skip = spec_ladder_skip(center);
            &&& r@.len() == 11 - skip
            &&& forall|i: int|
                0 <= i < r@.len() ==> r@[i] == center - 500_000 + (i + skip) * 100_000
        }),
{
    let center: u64 = ((spot_cents + 50_000) / 100_000) * 100_000;
    let ghost skip = spec_ladder_skip(center as int);
    proof {
        vstd::arithmetic::div_mod::lemma_div_pos_is_pos(
            spot_cents as int + 50_000,
            100_000,
        );
        vstd::arithmetic::div_mod::lemma_div_multiples_vanish(
            (spot_cents as int + 50_000) / 100_000,
            100_000,
        );
        assert(center as int == spec_ladder_center(spot_cents as int));
        assert(center % 100_000 == 0);
        assert(0 <= skip <= 6);
    }
    let mut r: Vec<u64> = Vec::new();
    let mut i: u64 = 0;
    while i < 11
        invariant
            center as int == spec_ladder_center(spot_cents as int),
            center <= 200_000_000_000,
            center % 100_000 == 0,
            skip == spec_ladder_skip(center as int),
            0 <= skip <= 6,
            i <= 11,
            r@.len() == if i <= skip {
                0int
            } else {
                i - skip
            },
            forall|j: int|
                0 <= j < r@.len() ==> r@[j] == center - 500_000 + (j + skip) * 100_000,
        decreases 11 - i,
    {
        let s = center + i * 100_000;
        if s > 500_000 {
            proof {
                vstd::arithmetic::div_mod::lemma_div_multiples_vanish(
                    center as int / 100_000,
                    100_000,
                );
                assert(center as int == (center as int / 100_000) * 100_000);
                assert(i >= skip);
            }
            r.push(s - 500_000);
        } else {
            proof {
                assert(i < skip);
            }
        }
        i += 1;
    }
    r
}

/// Converts a duration string to seconds.
pub fn duration_to_seconds(duration: &str) -> (r: i64)
    requires
        spec_trim(duration@).len() >= 1,
        i64::MIN <= spec_duration_to_seconds(duration@) <= i64::MAX,
    ensures
        r == spec_duration_to_seconds(duration@),
{
    let d = trim_ascii(duration);
    let len = d.unicode_len();
    let num_str = d.substring_char(0, len - 1);
    let unit = d.get_char(len - 1);
    let num: i64 = match parse_i64(num_str) {
        Some(v) => v,
        None => 0,
    };
    if unit == 'm' {
        num.checked_mul(60).unwrap()
    } else if unit == 'h' {
        num.checked_mul(3600).unwrap()
    } else if unit == 'd' {
        num.checked_mul(86400).unwrap()
    } else {
        0
    }
}

} // verus!
