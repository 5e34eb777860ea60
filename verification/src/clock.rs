//! The clock.
use vstd::prelude::*;

verus! {

/// Whether the characters of `s` from `from` up to `to` are decimal digits.
pub open spec fn digits(s: Seq<char>, from: int, to: int) -> bool {
    forall|i: int| from <= i < to ==> '0' <= #[trigger] s[i] <= '9'
}

/// Whether `s` reads as an RFC 3339 time in UTC whose year takes up its first `y` characters: four
/// digits, or a sign and more digits for a year past 9999. The seconds may have a fraction of three,
/// six or nine digits.
pub open spec fn is_utc_rfc3339_with_year(s: Seq<char>, y: int) -> bool {
    let zone = s.len() - 6;
    &&& (y == 4 && digits(s, 0, 4)) || (y > 5 && s[0] == '+' && digits(s, 1, y))
    &&& zone == y + 15 || zone == y + 19 || zone == y + 22 || zone == y + 25
    &&& s[y] == '-' && digits(s, y + 1, y + 3)
    &&& s[y + 3] == '-' && digits(s, y + 4, y + 6)
    &&& s[y + 6] == 'T' && digits(s, y + 7, y + 9)
    &&& s[y + 9] == ':' && digits(s, y + 10, y + 12)
    &&& s[y + 12] == ':' && digits(s, y + 13, y + 15)
    &&& zone > y + 15 ==> s[y + 15] == '.' && digits(s, y + 16, zone)
    &&& s.skip(zone) == "+00:00"@
}

/// Whether `s` reads as an RFC 3339 time in UTC.
pub open spec fn is_utc_rfc3339(s: Seq<char>) -> bool {
    exists|y: int| is_utc_rfc3339_with_year(s, y)
}

/// The current time, by `chrono::Utc::now` and `chrono::DateTime::to_rfc3339`. Of the text, only its
/// form is claimed, which is the same at all times; which time it is, the clock of the machine
/// decides. `now` panics where that clock stands before 1970 or past the last year of chrono.
#[verifier::external_body]
pub(crate) fn utc_now_rfc3339() -> (s: String)
    ensures
        is_utc_rfc3339(s@),
{
    chrono::Utc::now().to_rfc3339()
}

} // verus!
