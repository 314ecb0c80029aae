//! The local offset from UTC, read from the clock.

use vstd::prelude::*;
use vstd::string::*;
use crate::oye::IsoTimezone;

verus! {

/// Whether `c` is a decimal digit.
pub open spec fn is_digit(c: char) -> bool {
    '0' <= c <= '9'
}

/// Whether `text` is an offset from UTC as ISO 8601 writes it with a
/// colon: a sign, two digits of hours, a colon, two digits of minutes.
pub open spec fn is_utc_offset(text: Seq<char>) -> bool {
    &&& text.len() == 6
    &&& (text[0] == '+' || text[0] == '-')
    &&& is_digit(text[1])
    &&& is_digit(text[2])
    &&& text[3] == ':'
    &&& is_digit(text[4])
    &&& is_digit(text[5])
}

/// The last six characters of a time stamp. In an RFC 3339 stamp with a
/// numeric offset they are the offset from UTC, such as `+02:00`.
pub open spec fn offset_suffix(stamp: Seq<char>) -> Seq<char> {
    stamp.skip(stamp.len() - 6)
}

/// Cuts the offset from UTC off the end of an RFC 3339 time stamp.
pub fn timezone_suffix(stamp: &str) -> (r: IsoTimezone)
    requires
        stamp@.len() >= 6,
    ensures
        r@ == offset_suffix(stamp@),
{
    let n = stamp.unicode_len();
    let suffix = stamp.substring_char(n - 6, n);
    assert(suffix@ =~= offset_suffix(stamp@));
    String::from_str(suffix)
}

/// Reads the local time with `chrono::Local::now` and writes it with
/// `DateTime::to_rfc3339`. The stamp differs from call to call. Believed of
/// every stamp: it ends with the offset from UTC, written as a sign, two
/// digits, a colon and two digits.
#[verifier::external_body]
fn local_time_rfc3339() -> (r: String)
    ensures
        r@.len() >= 6,
        is_utc_offset(offset_suffix(r@)),
{
    chrono::Local::now().to_rfc3339()
}

/// The offset of local time from UTC, as it is now. Two calls may differ.
pub fn get_local_timezone() -> (r: IsoTimezone)
    ensures
        is_utc_offset(r@),
{
    let stamp = local_time_rfc3339();
    timezone_suffix(stamp.as_str())
}

} // verus!
