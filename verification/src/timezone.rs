//! IANA time zone names.
use vstd::prelude::*;

verus! {

/// Whether `chrono_tz` knows `name` as an IANA time zone.
pub uninterp spec fn iana_zone_known(name: Seq<char>) -> bool;

/// The message of `chrono_tz::ParseError`.
pub open spec fn timezone_error_text() -> Seq<char> {
    "failed to parse timezone"@
}

/// Parses `name` as a `chrono_tz::Tz` (a lookup in its compiled-in table);
/// on failure the message of its `ParseError`, which is always
/// `failed to parse timezone`.
#[verifier::external_body]
pub(crate) fn check_timezone(name: &str) -> (r: Result<(), String>)
    ensures
        r is Ok <==> iana_zone_known(name@),
        r matches Err(m) ==> m@ == timezone_error_text(),
{
    name.parse::<chrono_tz::Tz>().map(|_| ()).map_err(|e| e.to_string())
}

} // verus!
