//! Plain-text helpers: exact string comparison, decimal parsing and decimal
//! formatting over fixed-point integers.

use vstd::prelude::*;
use vstd::string::StrSliceExecFns;
use vstd::string::StringExecFns;

verus! {

/// Character-for-character equality of two string slices.
pub fn str_eq(a: &str, b: &str) -> (r: bool)
    ensures
        r == (a@ == b@),
{
    let alen = a.unicode_len();
    let blen = b.unicode_len();
    if alen != blen {
        return false;
    }
    let mut i: usize = 0;
    while i < alen
        invariant
            alen == a@.len(),
            blen == b@.len(),
            alen == blen,
            i <= alen,
            forall|j: int| 0 <= j < i ==> a@[j] == b@[j],
        decreases alen - i,
    {
        if a.get_char(i) != b.get_char(i) {
            assert(a@[i as int] != b@[i as int]);
            return false;
        }
        i += 1;
    }
    proof {
        assert(a@ =~= b@);
    }
    true
}

/// An ASCII decimal digit.
pub open spec fn is_digit(c: char) -> bool {
    48 <= c as u32 <= 57
}

/// The numeric value of an ASCII decimal digit.
pub open spec fn digit_val(c: char) -> int {
    c as u32 - 48
}

pub open spec fn all_digits(s: Seq<char>) -> bool {
    forall|i: int| 0 <= i < s.len() ==> is_digit(#[trigger] s[i])
}

/// The number that a sequence of decimal digits denotes (0 for the empty
/// sequence).
pub open spec fn spec_parse_digits(s: Seq<char>) -> int
    decreases s.len(),
{
    if s.len() == 0 {
        0
    } else {
        spec_parse_digits(s.drop_last()) * 10 + digit_val(s.last())
    }
}

pub proof fn lemma_parse_digits_nonneg(s: Seq<char>)
    requires
        all_digits(s),
    ensures
        spec_parse_digits(s) >= 0,
    decreases s.len(),
{
    if s.len() > 0 {
        assert(all_digits(s.drop_last()));
        lemma_parse_digits_nonneg(s.drop_last());
    }
}

/// A digit string denotes at least as much as any of its prefixes.
pub proof fn lemma_parse_digits_prefix_le(s: Seq<char>, i: int)
    requires
        all_digits(s),
        0 <= i <= s.len(),
    ensures
        spec_parse_digits(s.take(i)) <= spec_parse_digits(s),
    decreases s.len() - i,
{
    if i == s.len() {
        assert(s.take(i) =~= s);
    } else {
        lemma_parse_digits_prefix_le(s, i + 1);
        assert(s.take(i + 1).drop_last() =~= s.take(i));
        assert(s.take(i + 1).last() == s[i]);
        assert(all_digits(s.take(i)));
        lemma_parse_digits_nonneg(s.take(i));
        assert(spec_parse_digits(s.take(i + 1))
            == spec_parse_digits(s.take(i)) * 10 + digit_val(s[i]));
    }
}

/// Parses an unsigned decimal integer; accepts exactly one or more ASCII
/// digits denoting a value that fits in a `u64`.
pub fn parse_u64(s: &str) -> (r: Option<u64>)
    ensures
        r is Some <==> (s@.len() > 0 && all_digits(s@) && spec_parse_digits(s@) <= u64::MAX),
        r is Some ==> r->Some_0 == spec_parse_digits(s@),
{
    let len = s.unicode_len();
    if len == 0 {
        return None;
    }
    let mut acc: u64 = 0;
    let mut i: usize = 0;
    while i < len
        invariant
            len == s@.len(),
            i <= len,
            all_digits(s@.take(i as int)),
            acc == spec_parse_digits(s@.take(i as int)),
        decreases len - i,
    {
        let c = s.get_char(i);
        let u = c as u32;
        if u < 48 || u > 57 {
            assert(!is_digit(s@[i as int]));
            return None;
        }
        let d = (u - 48) as u64;
        proof {
            assert(s@.take(i + 1).drop_last() =~= s@.take(i as int));
            assert(s@.take(i + 1).last() == s@[i as int]);
            assert(all_digits(s@.take(i + 1)));
        }
        let step = match acc.checked_mul(10) {
            Some(t) => t.checked_add(d),
            None => None,
        };
        match step {
            Some(v) => {
                acc = v;
            },
            None => {
                proof {
                    if all_digits(s@) && spec_parse_digits(s@) <= u64::MAX {
                        lemma_parse_digits_prefix_le(s@, i + 1);
                    }
                }
                return None;
            },
        }
        i += 1;
    }
    proof {
        assert(s@.take(len as int) =~= s@);
    }
    Some(acc)
}

/// Whether a sequence is a well-formed signed decimal for an `i64`: an
/// optional leading minus, then one or more digits, within the `i64` range.
pub open spec fn i64_grammar_ok(s: Seq<char>) -> bool {
    if s.len() > 0 && s[0] == '-' {
        let body = s.subrange(1, s.len() as int);
        body.len() > 0 && all_digits(body) && spec_parse_digits(body) <= 0x8000_0000_0000_0000
    } else {
        s.len() > 0 && all_digits(s) && spec_parse_digits(s) <= i64::MAX
    }
}

/// The value a well-formed signed decimal denotes.
pub open spec fn spec_parse_i64(s: Seq<char>) -> int {
    if s.len() > 0 && s[0] == '-' {
        -spec_parse_digits(s.subrange(1, s.len() as int))
    } else {
        spec_parse_digits(s)
    }
}

/// Parses a signed decimal integer; accepts exactly the strings that
/// `i64_grammar_ok` allows.
pub fn parse_i64(s: &str) -> (r: Option<i64>)
    ensures
        r is Some <==> i64_grammar_ok(s@),
        r is Some ==> r->Some_0 == spec_parse_i64(s@),
{
    let len = s.unicode_len();
    if len == 0 {
        return None;
    }
    if s.get_char(0) == '-' {
        let body = s.substring_char(1, len);
        match parse_u64(body) {
            Some(mag) => {
                proof {
                    lemma_parse_digits_nonneg(body@);
                }
                if mag <= 0x7fff_ffff_ffff_ffff {
                    Some(-(mag as i64))
                } else if mag == 0x8000_0000_0000_0000 {
                    Some(i64::MIN)
                } else {
                    None
                }
            },
            None => None,
        }
    } else {
        match parse_u64(s) {
            Some(mag) => {
                if mag <= 0x7fff_ffff_ffff_ffff {
                    Some(mag as i64)
                } else {
                    None
                }
            },
            None => None,
        }
    }
}

/// The character for a decimal digit value.
pub open spec fn dec_digit(d: int) -> char {
    if d == 0 {
        '0'
    } else if d == 1 {
        '1'
    } else if d == 2 {
        '2'
    } else if d == 3 {
        '3'
    } else if d == 4 {
        '4'
    } else if d == 5 {
        '5'
    } else if d == 6 {
        '6'
    } else if d == 7 {
        '7'
    } else if d == 8 {
        '8'
    } else {
        '9'
    }
}

fn digit_str(d: u64) -> (r: &'static str)
    requires
        d < 10,
    ensures
        r@ == seq![dec_digit(d as int)],
{
    if d == 0 {
        proof {
            reveal_strlit("0");
            assert("0"@ =~= seq![dec_digit(0int)]);
        }
        "0"
    } else if d == 1 {
        proof {
            reveal_strlit("1");
            assert("1"@ =~= seq![dec_digit(1int)]);
        }
        "1"
    } else if d == 2 {
        proof {
            reveal_strlit("2");
            assert("2"@ =~= seq![dec_digit(2int)]);
        }
        "2"
    } else if d == 3 {
        proof {
            reveal_strlit("3");
            assert("3"@ =~= seq![dec_digit(3int)]);
        }
        "3"
    } else if d == 4 {
        proof {
            reveal_strlit("4");
            assert("4"@ =~= seq![dec_digit(4int)]);
        }
        "4"
    } else if d == 5 {
        proof {
            reveal_strlit("5");
            assert("5"@ =~= seq![dec_digit(5int)]);
        }
        "5"
    } else if d == 6 {
        proof {
            reveal_strlit("6");
            assert("6"@ =~= seq![dec_digit(6int)]);
        }
        "6"
    } else if d == 7 {
        proof {
            reveal_strlit("7");
            assert("7"@ =~= seq![dec_digit(7int)]);
        }
        "7"
    } else if d == 8 {
        proof {
            reveal_strlit("8");
            assert("8"@ =~= seq![dec_digit(8int)]);
        }
        "8"
    } else {
        proof {
            reveal_strlit("9");
            assert("9"@ =~= seq![dec_digit(9int)]);
        }
        "9"
    }
}

/// The decimal notation of a natural number, without leading zeros.
pub open spec fn spec_u64_string(n: nat) -> Seq<char>
    decreases n,
{
    if n < 10 {
        seq![dec_digit(n as int)]
    } else {
        spec_u64_string(n / 10) + seq![dec_digit((n % 10) as int)]
    }
}

/// Writes a number in decimal.
pub fn u64_to_string(n: u64) -> (r: String)
    ensures
        r@ == spec_u64_string(n as nat),
    decreases n,
{
    if n < 10 {
        digit_str(n).to_owned()
    } else {
        let mut s = u64_to_string(n / 10);
        s.append(digit_str(n % 10));
        s
    }
}

/// The decimal notation of a natural number, zero-padded to a fixed width
/// (only the lowest `w` digits are kept).
pub open spec fn spec_padded_string(n: nat, w: nat) -> Seq<char>
    decreases w,
{
    if w == 0 {
        Seq::empty()
    } else {
        spec_padded_string(n / 10, (w - 1) as nat) + seq![dec_digit((n % 10) as int)]
    }
}

/// Writes a number in decimal, zero-padded to `w` digits.
pub fn u64_to_padded_string(n: u64, w: u32) -> (r: String)
    ensures
        r@ == spec_padded_string(n as nat, w as nat),
    decreases w,
{
    if w == 0 {
        String::new()
    } else {
        let mut s = u64_to_padded_string(n / 10, w - 1);
        s.append(digit_str(n % 10));
        s
    }
}

/// ASCII whitespace, the only kind `trim_ascii` strips.
pub open spec fn is_space(c: char) -> bool {
    c == ' ' || c == '\t' || c == '\n' || c == '\r'
}

pub open spec fn spec_trim_front(s: Seq<char>) -> Seq<char>
    decreases s.len(),
{
    if s.len() > 0 && is_space(s[0]) {
        spec_trim_front(s.drop_first())
    } else {
        s
    }
}

pub open spec fn spec_trim_back(s: Seq<char>) -> Seq<char>
    decreases s.len(),
{
    if s.len() > 0 && is_space(s.last()) {
        spec_trim_back(s.drop_last())
    } else {
        s
    }
}

/// The input without leading and trailing ASCII whitespace.
pub open spec fn spec_trim(s: Seq<char>) -> Seq<char> {
    spec_trim_back(spec_trim_front(s))
}

fn is_space_char(c: char) -> (r: bool)
    ensures
        r == is_space(c),
{
    c == ' ' || c == '\t' || c == '\n' || c == '\r'
}

/// Strips leading and trailing ASCII whitespace.
pub fn trim_ascii(s: &str) -> (r: &str)
    ensures
        r@ == spec_trim(s@),
{
    let len = s.unicode_len();
    let mut start: usize = 0;
    proof {
        assert(s@.skip(0) =~= s@);
    }
    while start < len && is_space_char(s.get_char(start))
        invariant
            len == s@.len(),
            start <= len,
            spec_trim_front(s@) == spec_trim_front(s@.skip(start as int)),
        decreases len - start,
    {
        proof {
            assert(s@.skip(start as int).drop_first() =~= s@.skip(start as int + 1));
        }
        start += 1;
    }
    proof {
        if start == len {
            assert(s@.skip(start as int) =~= s@.subrange(start as int, start as int));
        }
        assert(spec_trim_front(s@) == s@.skip(start as int));
        assert(s@.skip(start as int) =~= s@.subrange(start as int, len as int));
    }
    let mut end: usize = len;
    while end > start && is_space_char(s.get_char(end - 1))
        invariant
            len == s@.len(),
            start <= end <= len,
            spec_trim_back(s@.subrange(start as int, len as int)) == spec_trim_back(
                s@.subrange(start as int, end as int),
            ),
        decreases end,
    {
        proof {
            assert(s@.subrange(start as int, end as int).drop_last() =~= s@.subrange(
                start as int,
                end as int - 1,
            ));
        }
        end -= 1;
    }
    proof {
        assert(spec_trim(s@) == s@.subrange(start as int, end as int));
    }
    s.substring_char(start, end)
}

} // verus!
