use vstd::arithmetic::power::pow;
use vstd::prelude::*;

verus! {

/// The ASCII digit for `d` (meaningful for `d < 10`).
pub open spec fn digit_char(d: nat) -> char {
    ((d + 48) as u8) as char
}

/// Whether `c` is one of the ASCII digits `0`..`9`.
pub open spec fn is_digit(c: char) -> bool {
    '0' <= c && c <= '9'
}

/// Shortest decimal rendering of `n`, most significant digit first.
pub open spec fn decimal_text(n: nat) -> Seq<char>
    decreases n,
{
    if n < 10 {
        seq![digit_char(n)]
    } else {
        decimal_text(n / 10).push(digit_char(n % 10))
    }
}

/// The value of a non-empty run of ASCII digits.
pub open spec fn digits_value(s: Seq<char>) -> int
    decreases s.len(),
{
    if s.len() == 0 {
        0
    } else {
        digits_value(s.drop_last()) * 10 + (s.last() as int - '0' as int)
    }
}

/// The signed 64-bit integer that `s` spells in decimal: an optional sign
/// (`+` or `-`) followed by at least one ASCII digit and nothing else, whose
/// value fits in `i64`.
pub open spec fn i64_text_value(s: Seq<char>) -> Option<int> {
    let neg = s.len() > 0 && s[0] == '-';
    let signed = s.len() > 0 && (s[0] == '-' || s[0] == '+');
    let body = if signed {
        s.subrange(1, s.len() as int)
    } else {
        s
    };
    let v = if neg {
        -digits_value(body)
    } else {
        digits_value(body)
    };
    if body.len() > 0 && (forall|i: int| 0 <= i < body.len() ==> is_digit(#[trigger] body[i]))
        && i64::MIN <= v <= i64::MAX {
        Some(v)
    } else {
        None
    }
}

/// Relies on `usize`'s `Display` (through `ToString`): plain decimal digits,
/// with no sign, padding or separators.
#[verifier::external_body]
pub(crate) fn usize_text(n: usize) -> (r: String)
    ensures
        r@ == decimal_text(n as nat),
{
    n.to_string()
}

/// Relies on `str::parse::<i64>` (`FromStr for i64`): accepts an optional
/// sign and decimal digits, and fails on anything else or on overflow.
#[verifier::external_body]
pub(crate) fn parse_i64(s: &str) -> (r: Option<i64>)
    ensures
        match r {
            Some(v) => i64_text_value(s@) == Some(v as int),
            None => i64_text_value(s@) is None,
        },
{
    s.parse::<i64>().ok()
}

/// The lowercase hexadecimal digit for `d` (meaningful for `d < 16`).
pub open spec fn hex_char(d: nat) -> char {
    if d < 10 {
        digit_char(d)
    } else {
        ((d - 10 + 97) as u8) as char
    }
}

/// The `k`-th hexadecimal digit of `id`, counted from the most significant
/// of its 32 digits.
pub open spec fn nibble(id: u128, k: int) -> nat {
    ((id as int / pow(16, (31 - k) as nat)) % 16) as nat
}

/// The character at position `k` of the hyphenated form of `id`.
pub open spec fn hyphenated_char(id: u128, k: int) -> char {
    if k == 8 || k == 13 || k == 18 || k == 23 {
        '-'
    } else {
        let n = if k < 8 {
            k
        } else if k < 13 {
            k - 1
        } else if k < 18 {
            k - 2
        } else if k < 23 {
            k - 3
        } else {
            k - 4
        };
        hex_char(nibble(id, n))
    }
}

/// The 128-bit identifier `id` as 32 lowercase hexadecimal digits, most
/// significant first, in groups of 8-4-4-4-12 joined by hyphens.
pub open spec fn hyphenated(id: u128) -> Seq<char> {
    Seq::new(36, |k: int| hyphenated_char(id, k))
}

/// Relies on `uuid::Uuid::from_u128` (big-endian bytes of the value) and on
/// `Uuid`'s `Display`, which writes the lowercase hyphenated form.
#[verifier::external_body]
pub(crate) fn uuid_text(id: u128) -> (r: String)
    ensures
        r@ == hyphenated(id),
{
    uuid::Uuid::from_u128(id).to_string()
}

/// Whether `s` is an e-mail address by the HTML5 rule that `validator`
/// checks.
pub uninterp spec fn is_email(s: Seq<char>) -> bool;

/// Relies on `validator::validate_email`: the HTML5 address check, which
/// fails on an empty text and on one without `@`.
#[verifier::external_body]
pub(crate) fn email_valid(s: &str) -> (r: bool)
    ensures
        r == is_email(s@),
        s@.len() == 0 ==> !r,
        !s@.contains('@') ==> !r,
{
    validator::validate_email(s)
}

} // verus!
