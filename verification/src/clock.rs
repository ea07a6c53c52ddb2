//! Today's date, as the machine's clock and time zone give it.
//!
//! Which day it is cannot be stated here. How a date is printed can: the
//! year, a hyphen, the month in two digits, a hyphen, the day in two digits.

use vstd::prelude::*;

verus! {

/// The pattern under which a date is printed: year, month and day.
pub open spec fn date_pattern() -> Seq<char> {
    "%Y-%m-%d"@
}

/// Whether `c` is one of the digits `0` to `9`.
pub open spec fn is_digit(c: char) -> bool {
    '0' <= c <= '9'
}

/// Whether `s` holds digits only.
pub open spec fn all_digits(s: Seq<char>) -> bool {
    forall|i: int| 0 <= i < s.len() ==> is_digit(#[trigger] s[i])
}

/// The number that two digits denote.
pub open spec fn two_digits(tens: char, ones: char) -> int {
    (tens as int - '0' as int) * 10 + (ones as int - '0' as int)
}

/// Whether `s` is a year as it is printed: four digits for the years from 0
/// to 9999, a sign and at least four digits for any other.
pub open spec fn is_year_text(s: Seq<char>) -> bool {
    ||| s.len() == 4 && all_digits(s)
    ||| s.len() >= 5 && (s[0] == '+' || s[0] == '-') && all_digits(s.skip(1))
}

/// Whether `s` is a date as it is printed: a year, a hyphen, a month from 01
/// to 12, a hyphen, and a day from 01 to 31.
pub open spec fn is_date_text(s: Seq<char>) -> bool {
    let n = s.len() as int;
    &&& n >= 10
    &&& is_year_text(s.take(n - 6))
    &&& s[n - 6] == '-'
    &&& is_digit(s[n - 5])
    &&& is_digit(s[n - 4])
    &&& 1 <= two_digits(s[n - 5], s[n - 4]) <= 12
    &&& s[n - 3] == '-'
    &&& is_digit(s[n - 2])
    &&& is_digit(s[n - 1])
    &&& 1 <= two_digits(s[n - 2], s[n - 1]) <= 31
}

/// Calls `chrono::Local::now` and prints the result through
/// `chrono::DateTime::format`. Printing fails on a malformed pattern, so
/// only the date pattern is admitted. Which date is printed depends on the
/// clock and on the time zone; of every date `chrono` prints under this
/// pattern the year in four digits, with a sign and four digits or more
/// outside the years 0 to 9999, then the month and the day of the month in
/// two digits each, a hyphen before either.
#[verifier::external_body]
pub(crate) fn local_time_text(pattern: &str) -> (text: String)
    requires
        pattern@ == date_pattern(),
    ensures
        is_date_text(text@),
{
    chrono::Local::now().format(pattern).to_string()
}

/// Today's local date, printed as year, month and day.
pub(crate) fn local_date() -> (date: String)
    ensures
        is_date_text(date@),
{
    local_time_text("%Y-%m-%d")
}

} // verus!
