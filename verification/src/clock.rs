//! The boundary to `chrono`: the time of saving.

use vstd::prelude::*;

verus! {

/// Whether `text` is as long as `shape` and agrees with it sign by sign, a
/// digit standing wherever the shape has `#`.
pub open spec fn fits(text: Seq<char>, shape: Seq<char>) -> bool {
    &&& text.len() == shape.len()
    &&& forall|i: int|
        0 <= i < text.len() ==> if shape[i] == '#' {
            '0' <= #[trigger] text[i] <= '9'
        } else {
            text[i] == shape[i]
        }
}

/// Whether `text` is a date and time in UTC with the year in the given
/// shape, with no fraction of a second or one of three, six or nine digits.
pub open spec fn fits_year(text: Seq<char>, year: Seq<char>) -> bool {
    ||| fits(text, year + "-##-##T##:##:##+00:00"@)
    ||| fits(text, year + "-##-##T##:##:##.###+00:00"@)
    ||| fits(text, year + "-##-##T##:##:##.######+00:00"@)
    ||| fits(text, year + "-##-##T##:##:##.#########+00:00"@)
}

/// Whether `text` has the shape of a time in UTC as RFC 3339 writes it, such
/// as `2026-01-31T08:15:30.123+00:00`. A year beyond 9999 is written with a
/// sign before it.
pub open spec fn is_utc_timestamp(text: Seq<char>) -> bool {
    ||| fits_year(text, "####"@)
    ||| fits_year(text, "+#####"@)
    ||| fits_year(text, "+######"@)
}

/// Trusted wrapper of `chrono::Utc::now` followed by
/// `chrono::DateTime::to_rfc3339`: the current time in UTC as text. Which
/// time that is, the clock decides; the shape of the text is that of
/// [`is_utc_timestamp`]. `Utc::now` panics where the system clock stands
/// before 1970 or beyond the years that `chrono` can hold.
#[verifier::external_body]
pub(crate) fn now_rfc3339() -> (text: String)
    ensures
        is_utc_timestamp(text@),
{
    chrono::Utc::now().to_rfc3339()
}

} // verus!
