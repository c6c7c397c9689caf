//! Small string helpers shared by the decoder and the command helpers.

use vstd::prelude::*;

verus! {

/// What `str::trim` returns on a string: the string without its leading
/// and trailing whitespace. Left abstract; the Unicode whitespace set is
/// the standard library's business.
pub uninterp spec fn trimmed(s: Seq<char>) -> Seq<char>;

/// Relies on `str::trim`: removes leading and trailing whitespace; the
/// result depends on the characters of the input alone.
#[verifier::external_body]
pub(crate) fn trim_of(s: &String) -> (r: String)
    ensures
        r@ == trimmed(s@),
{
    s.trim().to_string()
}

/// Decimal digit characters, `0 <= d <= 9`.
pub open spec fn digit_char(d: int) -> char {
    (('0' as u8) + d as u8) as char
}

/// The decimal digits of a non-negative integer, most significant first,
/// without leading zeros.
pub open spec fn decimal_nat(n: int) -> Seq<char>
    recommends
        n >= 0,
    decreases n,
{
    if n <= 9 {
        seq![digit_char(n)]
    } else {
        decimal_nat(n / 10).push(digit_char(n % 10))
    }
}

/// The standard decimal rendering of a signed 32-bit integer.
pub open spec fn decimal_i32(n: int) -> Seq<char> {
    if n < 0 {
        seq!['-'] + decimal_nat(-n)
    } else {
        decimal_nat(n)
    }
}

/// Relies on the standard `Display` formatting of `i32`: decimal digits
/// without leading zeros, preceded by `-` when negative.
#[verifier::external_body]
pub(crate) fn i32_to_string(n: i32) -> (r: String)
    ensures
        r@ == decimal_i32(n as int),
{
    format!("{}", n)
}

/// String equality, stated over the views.
pub(crate) fn string_eq(a: &String, b: &String) -> (r: bool)
    ensures
        r == (a@ == b@),
{
    *a == *b
}

/// Equality of a string against a literal, stated over the views.
pub(crate) fn is_lit(s: &String, lit: &str) -> (r: bool)
    ensures
        r == (s@ == lit@),
{
    *s == lit.to_owned()
}

} // verus!
