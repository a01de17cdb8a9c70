//! Unsigned decimal numbers in text: what `str::parse` accepts for them,
//! and its round trip with the decimal rendering of `text`.
use vstd::prelude::*;

use crate::text::{decimal, digit_char};

verus! {

/// Whether `c` is an ASCII decimal digit.
pub open spec fn is_digit(c: char) -> bool {
    '0' <= c && c <= '9'
}

/// The value of a non-empty run of ASCII digits.
pub open spec fn digits_value(s: Seq<char>) -> nat
    decreases s.len(),
{
    if s.len() == 0 {
        0
    } else {
        digits_value(s.drop_last()) * 10 + ((s.last() as int - '0' as int) as nat)
    }
}

/// The number an unsigned decimal text denotes, as `FromStr` for unsigned
/// integers documents it: an optional `+` sign followed by one or more
/// ASCII digits, nothing else.
pub open spec fn unsigned_decimal(s: Seq<char>) -> Option<nat> {
    let body = if s.len() > 0 && s[0] == '+' {
        s.drop_first()
    } else {
        s
    };
    if body.len() > 0 && forall|i: int| 0 <= i < body.len() ==> is_digit(#[trigger] body[i]) {
        Some(digits_value(body))
    } else {
        None
    }
}

/// The text of the error `str::parse::<u64>` gives for `s`.
pub uninterp spec fn u64_parse_error(s: Seq<char>) -> Seq<char>;

/// The text of the error `str::parse::<u16>` gives for `s`.
pub uninterp spec fn u16_parse_error(s: Seq<char>) -> Seq<char>;

/// Parses `s` as a `u64`.
///
/// Trusted: calls `str::parse::<u64>`, which (as `FromStr` documents)
/// accepts exactly an optional `+` followed by ASCII digits whose value
/// fits in a `u64`; its error is rendered with `Display`, and that text is
/// named by [`u64_parse_error`].
#[verifier::external_body]
pub fn parse_u64(s: &str) -> (r: Result<u64, String>)
    ensures
        match r {
            Ok(v) => unsigned_decimal(s@) == Some(v as nat),
            Err(e) => e@ == u64_parse_error(s@) && !(unsigned_decimal(s@) matches Some(n)
                && n <= u64::MAX),
        },
{
    s.parse::<u64>().map_err(|e| e.to_string())
}

/// Parses `s` as a `u16`.
///
/// Trusted: calls `str::parse::<u16>`, which accepts exactly an optional
/// `+` followed by ASCII digits whose value fits in a `u16`; its error is
/// rendered with `Display`, and that text is named by [`u16_parse_error`].
#[verifier::external_body]
pub fn parse_u16(s: &str) -> (r: Result<u16, String>)
    ensures
        match r {
            Ok(v) => unsigned_decimal(s@) == Some(v as nat),
            Err(e) => e@ == u16_parse_error(s@) && !(unsigned_decimal(s@) matches Some(n)
                && n <= u16::MAX),
        },
{
    s.parse::<u16>().map_err(|e| e.to_string())
}

proof fn lemma_digit_char(d: nat)
    requires
        d < 10,
    ensures
        digit_char(d) as int == d + 48,
        is_digit(digit_char(d)),
{
    assert(((d + 48) as u8) as int == d + 48);
}

proof fn lemma_decimal_digits(n: nat)
    ensures
        decimal(n).len() > 0,
        forall|i: int| 0 <= i < decimal(n).len() ==> is_digit(#[trigger] decimal(n)[i]),
        digits_value(decimal(n)) == n,
        decimal(n)[0] != '+',
    decreases n,
{
    lemma_digit_char(n % 10);
    assert('0' as int == 48);
    if n < 10 {
        assert(decimal(n).drop_last() =~= Seq::<char>::empty());
        assert(digits_value(decimal(n).drop_last()) == 0);
        assert(decimal(n).last() == digit_char(n));
        assert(digits_value(decimal(n)) == (digit_char(n) as int - 48) as nat);
    } else {
        lemma_decimal_digits(n / 10);
        let d = decimal(n / 10);
        assert(decimal(n) == d.push(digit_char(n % 10)));
        assert(decimal(n).drop_last() == d);
        assert(digits_value(decimal(n)) == n / 10 * 10 + ((digit_char(n % 10) as int - 48) as nat));
        assert forall|i: int| 0 <= i < decimal(n).len() implies is_digit(#[trigger] decimal(n)[i]) by {
            if i < d.len() {
                assert(decimal(n)[i] == d[i]);
            }
        }
    }
}

/// Rendering a number in decimal and parsing the text back gives the
/// number again.
pub proof fn lemma_decimal_roundtrip(n: nat)
    ensures
        unsigned_decimal(decimal(n)) == Some(n),
{
    lemma_decimal_digits(n);
}

} // verus!
