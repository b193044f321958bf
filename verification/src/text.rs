//! Decimal rendering and the wording of local validation messages.

use vstd::prelude::*;
use vstd::string::*;
use vstd::utf8::*;

verus! {

/// The character that stands for a single decimal digit.
pub open spec fn digit_char(d: nat) -> char {
    if d == 0 {
        '0'
    } else if d == 1 {
        '1'
    } else if d == 2 {
        '2'
    } else if d == 3 {
        '3'
    } else if d == 4 {
        '4'
    } else if d == 5 {
        '5'
    } else if d == 6 {
        '6'
    } else if d == 7 {
        '7'
    } else if d == 8 {
        '8'
    } else {
        '9'
    }
}

/// The decimal numeral of `n`: most significant digit first, no leading
/// zero, `"0"` for zero.
pub open spec fn decimal_text(n: nat) -> Seq<char>
    decreases n,
{
    if n < 10 {
        seq![digit_char(n)]
    } else {
        decimal_text(n / 10).push(digit_char(n % 10))
    }
}

/// The text of a dimension complaint: which array, the length that the atom
/// count calls for, and the length that was handed in.
pub open spec fn dimension_text(what: Seq<char>, expected: nat, got: nat) -> Seq<char> {
    "Invalid dimension for "@ + what + ", expected "@ + decimal_text(expected) + ", got "@
        + decimal_text(got)
}

fn digit_str(d: u8) -> (s: &'static str)
    requires
        d < 10,
    ensures
        s@ == seq![digit_char(d as nat)],
{
    proof {
        reveal_strlit("0");
        reveal_strlit("1");
        reveal_strlit("2");
        reveal_strlit("3");
        reveal_strlit("4");
        reveal_strlit("5");
        reveal_strlit("6");
        reveal_strlit("7");
        reveal_strlit("8");
        reveal_strlit("9");
    }
    let s = if d == 0 {
        "0"
    } else if d == 1 {
        "1"
    } else if d == 2 {
        "2"
    } else if d == 3 {
        "3"
    } else if d == 4 {
        "4"
    } else if d == 5 {
        "5"
    } else if d == 6 {
        "6"
    } else if d == 7 {
        "7"
    } else if d == 8 {
        "8"
    } else {
        "9"
    };
    assert(s@ =~= seq![digit_char(d as nat)]);
    s
}

/// Renders `n` in decimal.
pub fn decimal(n: u128) -> (s: String)
    ensures
        s@ == decimal_text(n as nat),
    decreases n,
{
    if n < 10 {
        String::from_str(digit_str(n as u8))
    } else {
        let head = decimal(n / 10);
        let tail = digit_str((n % 10) as u8);
        let s = head.concat(tail);
        assert(s@ =~= decimal_text(n as nat));
        s
    }
}

/// Builds the complaint about an array whose length does not fit the atom
/// count or the fixed tensor size.
pub fn dimension_message(what: &str, expected: u128, got: usize) -> (s: String)
    ensures
        s@ == dimension_text(what@, expected as nat, got as nat),
{
    let s = String::from_str("Invalid dimension for ");
    let s = s.concat(what);
    let s = s.concat(", expected ");
    let s = s.concat(decimal(expected).as_str());
    let s = s.concat(", got ");
    let s = s.concat(decimal(got as u128).as_str());
    s
}

/// `String::from_utf8` of std: the bytes become a string exactly when they
/// are well-formed UTF-8, and the string then holds the characters that they
/// encode.
#[verifier::external_body]
pub(crate) fn utf8_string(bytes: Vec<u8>) -> (decoded: Option<String>)
    ensures
        decoded is Some <==> valid_utf8(bytes@),
        decoded matches Some(s) ==> s@ == decode_utf8(bytes@),
{
    match String::from_utf8(bytes) {
        Ok(s) => Some(s),
        Err(_) => None,
    }
}

/// Decodes bytes as UTF-8 text; `None` if they are not well-formed.
pub fn decode_text(bytes: &[u8]) -> (decoded: Option<String>)
    ensures
        decoded is Some <==> valid_utf8(bytes@),
        decoded matches Some(s) ==> s@ == decode_utf8(bytes@),
{
    utf8_string(vstd::slice::slice_to_vec(bytes))
}

} // verus!
