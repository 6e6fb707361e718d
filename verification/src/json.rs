//! The JSON texts of strings and integers, from which the canonical form of
//! every record is put together.

use vstd::prelude::*;

verus! {

/// The JSON text of a string: the string between double quotes, with the
/// quote, the backslash and the control characters escaped as `serde_json`
/// escapes them.
pub uninterp spec fn json_string_text(s: Seq<char>) -> Seq<char>;

/// The ten decimal digits, in order of value.
pub open spec fn decimal_digits() -> Seq<char> {
    seq!['0', '1', '2', '3', '4', '5', '6', '7', '8', '9']
}

/// The decimal digits of a natural number, most significant first and with no
/// leading zero.
pub open spec fn natural_text(n: nat) -> Seq<char>
    decreases n,
{
    if n < 10 {
        seq![decimal_digits()[n as int]]
    } else {
        natural_text(n / 10).push(decimal_digits()[(n % 10) as int])
    }
}

/// The decimal text of an integer: a minus sign before the digits of a
/// negative one.
pub open spec fn integer_text(v: int) -> Seq<char> {
    if v < 0 {
        seq!['-'] + natural_text((-v) as nat)
    } else {
        natural_text(v as nat)
    }
}

/// `serde_json::to_string` on a string slice. Not proved: that the text it
/// returns is a function of the characters alone, here called
/// `json_string_text`. Writing a string into memory does not fail.
#[verifier::external_body]
pub(crate) fn json_string(s: &str) -> (text: String)
    ensures
        text@ == json_string_text(s@),
{
    serde_json::to_string(s).unwrap()
}

/// `serde_json::to_string` on an integer. Not proved: that the text is the
/// integer in decimal, as `integer_text` spells it. Writing a number into
/// memory does not fail.
#[verifier::external_body]
pub(crate) fn json_integer(v: i128) -> (text: String)
    ensures
        text@ == integer_text(v as int),
{
    serde_json::to_string(&v).unwrap()
}

} // verus!
