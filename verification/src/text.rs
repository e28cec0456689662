//! Text primitives shared by the other modules.

use vstd::prelude::*;
use vstd::utf8::*;

verus! {

/// Checks that `bytes` is well-formed UTF-8 and, if so, gives it back as text.
///
/// Trusted: wraps `std::str::from_utf8`, which succeeds exactly on valid
/// UTF-8 and then returns a string slice over the very same bytes.
#[verifier::external_body]
pub(crate) fn text_of_bytes(bytes: &[u8]) -> (r: Option<&str>)
    ensures
        r is Some <==> valid_utf8(bytes@),
        r matches Some(s) ==> s@ == decode_utf8(bytes@),
{
    match std::str::from_utf8(bytes) {
        Ok(s) => Some(s),
        Err(_) => None,
    }
}

/// An empty string with room for `capacity` bytes.
///
/// Trusted: wraps `String::with_capacity`, which returns an empty string and
/// panics only when the capacity exceeds `isize::MAX` bytes.
#[verifier::external_body]
pub(crate) fn string_with_capacity(capacity: usize) -> (s: String)
    requires
        capacity <= isize::MAX,
    ensures
        s@ == Seq::<char>::empty(),
{
    String::with_capacity(capacity)
}

/// The numeral for a single decimal digit.
pub open spec fn digit_text(digit: nat) -> Seq<char> {
    if digit == 0 {
        "0"@
    } else if digit == 1 {
        "1"@
    } else if digit == 2 {
        "2"@
    } else if digit == 3 {
        "3"@
    } else if digit == 4 {
        "4"@
    } else if digit == 5 {
        "5"@
    } else if digit == 6 {
        "6"@
    } else if digit == 7 {
        "7"@
    } else if digit == 8 {
        "8"@
    } else {
        "9"@
    }
}

/// The decimal numeral for `n`, without leading zeros.
pub open spec fn decimal_text(n: nat) -> Seq<char>
    decreases n,
{
    if n < 10 {
        digit_text(n)
    } else {
        decimal_text(n / 10) + digit_text(n % 10)
    }
}

fn digit_str(digit: u16) -> (s: &'static str)
    requires
        digit < 10,
    ensures
        s@ == digit_text(digit as nat),
{
    if digit == 0 {
        "0"
    } else if digit == 1 {
        "1"
    } else if digit == 2 {
        "2"
    } else if digit == 3 {
        "3"
    } else if digit == 4 {
        "4"
    } else if digit == 5 {
        "5"
    } else if digit == 6 {
        "6"
    } else if digit == 7 {
        "7"
    } else if digit == 8 {
        "8"
    } else {
        "9"
    }
}

/// A status code written out in decimal.
pub fn status_text(status: u16) -> (text: String)
    ensures
        text@ == decimal_text(status as nat),
    decreases status,
{
    if status < 10 {
        digit_str(status).to_string()
    } else {
        let mut text = status_text(status / 10);
        text.append(digit_str(status % 10));
        text
    }
}

} // verus!
