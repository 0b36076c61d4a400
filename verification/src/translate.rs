//! Translations: timestamps and name-to-id lookups.
//!
//! The service reports times as RFC 3339 strings such as
//! `"2014-10-02T12:34:23Z"`.  The library exposes them in the fixed
//! human-readable form `"2014-10-02 12:34:23"`: calendar and clock fields
//! only, with a space in place of the `T` separator and no offset marker.
//!
//! The actual calendar arithmetic is chrono's.  For the plain UTC shape the
//! service uses — twenty characters, `Z`-terminated, with a valid Gregorian
//! date — the result is pinned down exactly: it is the input with the
//! separator replaced and the `Z` dropped.

use vstd::prelude::*;
use vstd::pervasive::unreached;
use crate::json::{decode, json_of};
use crate::project::{
    ProjectError, ProjectionModel, lemma_positional_coverage, lemma_text_value, project,
    spec_project_kind, text_of,
};
use crate::schema::ResourceKind;

verus! {

/// A decimal digit character.
pub open spec fn is_digit(c: char) -> bool {
    '0' <= c && c <= '9'
}

/// The numeric value of a digit character.
pub open spec fn digit_of(c: char) -> int {
    c as int - '0' as int
}

/// The two-digit number written at `i`.
pub open spec fn num2(s: Seq<char>, i: int) -> int {
    10 * digit_of(s[i]) + digit_of(s[i + 1])
}

/// The four-digit number written at `i`.
pub open spec fn num4(s: Seq<char>, i: int) -> int {
    1000 * digit_of(s[i]) + 100 * digit_of(s[i + 1]) + 10 * digit_of(s[i + 2]) + digit_of(
        s[i + 3],
    )
}

/// A leap year of the proleptic Gregorian calendar.
pub open spec fn is_leap(y: int) -> bool {
    (y % 4 == 0 && y % 100 != 0) || y % 400 == 0
}

/// How many days the given month of the given year has.
pub open spec fn days_in_month(y: int, m: int) -> int {
    if m == 2 {
        if is_leap(y) {
            29
        } else {
            28
        }
    } else if m == 4 || m == 6 || m == 9 || m == 11 {
        30
    } else {
        31
    }
}

/// The plain UTC timestamp shape `YYYY-MM-DDTHH:MM:SSZ` with a valid
/// Gregorian date and clock reading (leap seconds excluded).
pub open spec fn is_plain_stamp(s: Seq<char>) -> bool {
    &&& s.len() == 20
    &&& forall|i: int|
        0 <= i < 19 && i != 4 && i != 7 && i != 10 && i != 13 && i != 16 ==> is_digit(#[trigger] s[i])
    &&& s[4] == '-'
    &&& s[7] == '-'
    &&& s[10] == 'T'
    &&& s[13] == ':'
    &&& s[16] == ':'
    &&& s[19] == 'Z'
    &&& 1 <= num2(s, 5) <= 12
    &&& 1 <= num2(s, 8) <= days_in_month(num4(s, 0), num2(s, 5))
    &&& num2(s, 11) <= 23
    &&& num2(s, 14) <= 59
    &&& num2(s, 17) <= 59
}

/// The fixed human-readable rendering of a plain UTC timestamp: date, one
/// space, clock reading.
pub open spec fn plain_render(s: Seq<char>) -> Seq<char> {
    s.take(10) + seq![' '] + s.subrange(11, 19)
}

/// What chrono renders for an RFC 3339 string: the result of parsing `s`
/// and formatting the fields as `YYYY-MM-DD HH:MM:SS`, or nothing when `s`
/// does not parse.
pub uninterp spec fn rendered_time(s: Seq<char>) -> Option<Seq<char>>;

/// Relies on `chrono::DateTime::parse_from_rfc3339` and chrono's
/// `%Y-%m-%d %H:%M:%S` formatting: parsing accepts exactly the RFC 3339
/// shapes with an in-range date and clock reading, and formatting a
/// `Z`-offset value writes back the parsed fields zero-padded, so for the
/// plain twenty-character UTC shape the output is the input with the `T`
/// replaced by a space and the `Z` dropped.
#[verifier::external_body]
fn chrono_render(s: &str) -> (r: Option<String>)
    ensures
        (r is Some) == (rendered_time(s@) is Some),
        r matches Some(t) ==> rendered_time(s@) == Some(t@),
        is_plain_stamp(s@) ==> r is Some,
        r matches Some(t) ==> (is_plain_stamp(s@) ==> t@ == plain_render(s@)),
{
    match chrono::DateTime::parse_from_rfc3339(s) {
        Ok(t) => Some(t.format("%Y-%m-%d %H:%M:%S").to_string()),
        Err(_) => None,
    }
}

/// Translates a user lookup response into the first matching identifier.
///
/// The caller fetches the lookup URL for a display name (see
/// [`UserData::lookup_url`](crate::UserData::lookup_url)) and hands the
/// body here; an empty match list surfaces as
/// [`ProjectError::EmptyData`], a body that is not valid JSON as
/// [`ProjectError::BadJson`].
pub fn user_id_of(body: &str) -> (r: Result<String, ProjectError>)
    ensures
        r matches Ok(s) ==> {
            &&& json_of(body@) matches Some(j)
            &&& spec_project_kind(ResourceKind::User, j) matches Ok(m)
            &&& s@ == text_of(m.values[0])
        },
        r matches Err(e) ==> match json_of(body@) {
            None => e == ProjectError::BadJson,
            Some(j) => spec_project_kind(ResourceKind::User, j) == Err::<
                ProjectionModel,
                ProjectError,
            >(e),
        },
{
    let j = match decode(body) {
        Some(j) => j,
        None => {
            return Err(ProjectError::BadJson);
        },
    };
    let p = match project(ResourceKind::User, &j) {
        Ok(p) => p,
        Err(e) => {
            return Err(e);
        },
    };
    proof {
        lemma_positional_coverage(ResourceKind::User, j);
        lemma_text_value(ResourceKind::User, j, 0);
    }
    match p.value_at(0).text() {
        Some(s) => Ok(s.clone()),
        None => unreached(),
    }
}

/// Translates an RFC 3339 timestamp into the library's fixed human-readable
/// form, or `None` when the text does not parse as a timestamp.
pub fn tl_time(s: &str) -> (r: Option<String>)
    ensures
        (r is Some) == (rendered_time(s@) is Some),
        r matches Some(t) ==> rendered_time(s@) == Some(t@),
        is_plain_stamp(s@) ==> r is Some,
        r matches Some(t) ==> (is_plain_stamp(s@) ==> t@ == plain_render(s@)),
{
    chrono_render(s)
}

} // verus!

