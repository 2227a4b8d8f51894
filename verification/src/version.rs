//! Reading the version numbers that the adapter announces.
//!
//! A version component is a decimal `u32`: an optional `+`, then one or more
//! decimal digits, nothing else. The text is read from left to right and the
//! first character that cannot be accepted decides the failure.

use crate::error::ParseFailure;
use vstd::prelude::*;
use vstd::string::StrSliceExecFns;

verus! {

/// A decimal digit.
pub open spec fn is_digit(c: char) -> bool {
    '0' <= c && c <= '9'
}

/// The number a decimal digit stands for.
pub open spec fn digit_value(c: char) -> nat
    recommends
        is_digit(c),
{
    (c as u32 - '0' as u32) as nat
}

/// Every character is a decimal digit.
pub open spec fn all_digits(s: Seq<char>) -> bool {
    forall|i: int| 0 <= i < s.len() ==> is_digit(#[trigger] s[i])
}

/// The number that a sequence of decimal digits denotes, the most significant
/// digit first. The empty sequence denotes zero.
pub open spec fn decimal_value(s: Seq<char>) -> nat
    decreases s.len(),
{
    if s.len() == 0 {
        0
    } else {
        decimal_value(s.drop_last()) * 10 + digit_value(s.last())
    }
}

/// What reading the digits `s` from left to right comes to: the number they
/// denote, or the failure at the first character that cannot be accepted. A
/// character that is no digit is refused before the number is looked at.
pub open spec fn read_digits(s: Seq<char>) -> Result<u32, ParseFailure>
    decreases s.len(),
{
    if s.len() == 0 {
        Ok(0)
    } else {
        match read_digits(s.drop_last()) {
            Err(e) => Err(e),
            Ok(v) => if !is_digit(s.last()) {
                Err(ParseFailure::InvalidDigit)
            } else if v * 10 + digit_value(s.last()) > u32::MAX {
                Err(ParseFailure::PosOverflow)
            } else {
                Ok((v * 10 + digit_value(s.last())) as u32)
            },
        }
    }
}

/// The text without a leading `+`.
pub open spec fn unsigned_part(s: Seq<char>) -> Seq<char> {
    if s.len() > 0 && s[0] == '+' {
        s.subrange(1, s.len() as int)
    } else {
        s
    }
}

/// What a text denotes as a version component.
pub open spec fn parse_u32_spec(s: Seq<char>) -> Result<u32, ParseFailure> {
    if s.len() == 0 {
        Err(ParseFailure::Empty)
    } else if unsigned_part(s).len() == 0 {
        Err(ParseFailure::InvalidDigit)
    } else {
        read_digits(unsigned_part(s))
    }
}

/// A failure inside a prefix is the failure of the whole.
proof fn lemma_read_digits_prefix_err(s: Seq<char>, k: int)
    requires
        0 <= k <= s.len(),
        read_digits(s.subrange(0, k)) is Err,
    ensures
        read_digits(s) == read_digits(s.subrange(0, k)),
    decreases s.len() - k,
{
    if k == s.len() {
        assert(s.subrange(0, k) =~= s);
    } else {
        let longer = s.subrange(0, k + 1);
        assert(longer.drop_last() =~= s.subrange(0, k));
        lemma_read_digits_prefix_err(s, k + 1);
    }
}

/// Reading digits succeeds exactly on a sequence of digits whose decimal value
/// fits in 32 bits, and then yields that value.
pub proof fn lemma_read_digits_ok(s: Seq<char>)
    ensures
        read_digits(s) is Ok <==> all_digits(s) && decimal_value(s) <= u32::MAX,
        read_digits(s) is Ok ==> read_digits(s)->Ok_0 == decimal_value(s),
    decreases s.len(),
{
    if s.len() > 0 {
        let init = s.drop_last();
        lemma_read_digits_ok(init);
        if all_digits(s) {
            assert forall|i: int| 0 <= i < init.len() implies is_digit(#[trigger] init[i]) by {
                assert(init[i] == s[i]);
            }
        }
        if all_digits(init) && is_digit(s.last()) {
            assert forall|i: int| 0 <= i < s.len() implies is_digit(#[trigger] s[i]) by {
                if i < init.len() {
                    assert(init[i] == s[i]);
                }
            }
        }
    }
}

/// A text is a version component exactly when, after an optional `+`, it is a
/// non-empty sequence of decimal digits whose value fits in 32 bits; the
/// component is then that value.
pub proof fn lemma_parse_u32_ok(s: Seq<char>)
    ensures
        parse_u32_spec(s) is Ok <==> unsigned_part(s).len() > 0 && all_digits(unsigned_part(s))
            && decimal_value(unsigned_part(s)) <= u32::MAX,
        parse_u32_spec(s) is Ok ==> parse_u32_spec(s)->Ok_0 == decimal_value(unsigned_part(s)),
{
    lemma_read_digits_ok(unsigned_part(s));
}

/// Reads a version component.
pub fn parse_u32(text: &str) -> (r: Result<u32, ParseFailure>)
    ensures
        r == parse_u32_spec(text@),
{
    let n: usize = text.unicode_len();
    if n == 0 {
        return Err(ParseFailure::Empty);
    }
    let start: usize = if text.get_char(0) == '+' {
        1
    } else {
        0
    };
    if start == n {
        return Err(ParseFailure::InvalidDigit);
    }
    let ghost digits = unsigned_part(text@);
    let mut value: u32 = 0;
    let mut i: usize = start;
    while i < n
        invariant
            n == text@.len(),
            start <= i <= n,
            digits == unsigned_part(text@),
            digits.len() == n - start,
            forall|j: int| 0 <= j < digits.len() ==> digits[j] == text@[j + start],
            read_digits(digits.subrange(0, i - start)) == Ok::<u32, ParseFailure>(value),
        decreases n - i,
    {
        let c: char = text.get_char(i);
        let ghost seen = digits.subrange(0, i - start);
        let ghost next = digits.subrange(0, i - start + 1);
        proof {
            assert(next.drop_last() =~= seen);
            assert(next.last() == c);
        }
        if c < '0' || c > '9' {
            proof {
                lemma_read_digits_prefix_err(digits, i - start + 1);
            }
            return Err(ParseFailure::InvalidDigit);
        }
        let d: u32 = c as u32 - '0' as u32;
        if value > (u32::MAX - d) / 10 {
            proof {
                lemma_read_digits_prefix_err(digits, i - start + 1);
            }
            return Err(ParseFailure::PosOverflow);
        }
        value = value * 10 + d;
        i = i + 1;
    }
    proof {
        assert(digits.subrange(0, i - start) =~= digits);
    }
    Ok(value)
}

/// The version block of the adapter: three numbers and the block's size tag.
#[derive(Clone, Copy, Debug, PartialEq, Eq, Structural)]
pub struct EndpointVersion {
    pub size: u32,
    pub major: u32,
    pub minor: u32,
    pub build: u32,
}

} // verus!
