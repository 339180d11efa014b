//! The calls into chrono, chrono-tz, url and raystack.
//!
//! Nothing in this file is proved. Each function here makes one call into
//! another crate and states what that crate's source shows of the result;
//! the rest of the library is verified against these statements.

use vstd::prelude::*;

verus! {

/// chrono's reason for rejecting a date-time text.
#[verifier::external_type_specification]
#[verifier::external_body]
pub struct ExChronoParseError(chrono::ParseError);

/// url's reason for rejecting a URL text.
#[verifier::external_type_specification]
#[verifier::external_body]
pub struct ExUrlParseError(url::ParseError);

/// raystack's reason for rejecting a reference text.
#[verifier::external_type_specification]
#[verifier::external_body]
pub struct ExParseRefError(raystack::ParseRefError);

/// What `chrono::TimeZone::datetime_from_str` on `chrono::Utc` reads from
/// `text` under the strftime pattern `format`: the instant as whole seconds
/// since the Unix epoch and nanoseconds into that second, or `None` where
/// chrono rejects the text.
pub uninterp spec fn utc_instant_from_format(text: Seq<char>, format: Seq<char>) -> Option<
    (i64, u32),
>;

/// What `chrono::DateTime::parse_from_rfc3339` reads from `text`: the instant
/// as whole seconds since the Unix epoch and nanoseconds into that second, or
/// `None` where chrono rejects the text. The offset written in the text is
/// part of the instant and is not kept apart from it.
pub uninterp spec fn rfc3339_instant(text: Seq<char>) -> Option<(i64, u32)>;

/// Whether `chrono_tz::Tz` has a time zone of exactly this name.
pub uninterp spec fn zone_is_known(name: Seq<char>) -> bool;

/// Whether `url::Url::parse` accepts `text` as an absolute URL.
pub uninterp spec fn url_is_wellformed(text: Seq<char>) -> bool;

/// Whether `raystack::Ref::new` accepts `text` as a reference.
pub uninterp spec fn ref_is_valid(text: Seq<char>) -> bool;

/// Calls `chrono::TimeZone::datetime_from_str` on `chrono::Utc`, which reads
/// `text` under `format` as UTC wall-clock time. The contract claims only
/// that the call is a function of the two texts: the seconds and nanoseconds
/// of the `DateTime` it gives are those of `utc_instant_from_format`, and it
/// fails exactly where that is `None`.
#[allow(deprecated)]
#[verifier::external_body]
pub(crate) fn parse_utc(text: &str, format: &str) -> (r: Result<(i64, u32), chrono::ParseError>)
    ensures
        match r {
            Ok(instant) => utc_instant_from_format(text@, format@) == Some(instant),
            Err(_) => utc_instant_from_format(text@, format@) is None,
        },
{
    match chrono::TimeZone::datetime_from_str(&chrono::Utc, text, format) {
        Ok(moment) => Ok((moment.timestamp(), moment.timestamp_subsec_nanos())),
        Err(err) => Err(err),
    }
}

/// Calls `chrono::DateTime::parse_from_rfc3339`. The contract claims only
/// that the call is a function of the text: the seconds and nanoseconds of
/// the `DateTime` it gives are those of `rfc3339_instant`, and it fails
/// exactly where that is `None`.
#[verifier::external_body]
pub(crate) fn parse_rfc3339(text: &str) -> (r: Result<(i64, u32), chrono::ParseError>)
    ensures
        match r {
            Ok(instant) => rfc3339_instant(text@) == Some(instant),
            Err(_) => rfc3339_instant(text@) is None,
        },
{
    match chrono::DateTime::parse_from_rfc3339(text) {
        Ok(moment) => Ok((moment.timestamp(), moment.timestamp_subsec_nanos())),
        Err(err) => Err(err),
    }
}

/// The message with which `chrono_tz::Tz` turns down a name it does not
/// have: the name between single quotes, then ` is not a valid timezone`.
pub open spec fn unknown_zone_message(name: Seq<char>) -> Seq<char> {
    "'"@ + name + "' is not a valid timezone"@
}

/// Calls the `FromStr` impl of `chrono_tz::Tz`, which matches `name` against
/// the names of the time zone database that chrono-tz was built with. The
/// contract claims that it succeeds exactly on the names `zone_is_known`
/// holds of, and that on failure the message is the one chrono-tz formats
/// from the name, `unknown_zone_message`. The zone itself is dropped: the
/// library keeps the name.
#[verifier::external_body]
pub(crate) fn resolve_zone(name: &str) -> (r: Result<(), String>)
    ensures
        r is Ok <==> zone_is_known(name@),
        r matches Err(message) ==> message@ == unknown_zone_message(name@),
{
    match name.parse::<chrono_tz::Tz>() {
        Ok(_) => Ok(()),
        Err(message) => Err(message),
    }
}

/// Calls `url::Url::parse`. The contract claims that it succeeds exactly on
/// the texts `url_is_wellformed` holds of. The parsed URL is dropped: the
/// library keeps the text.
#[verifier::external_body]
pub(crate) fn parse_url(text: &str) -> (r: Result<(), url::ParseError>)
    ensures
        r is Ok <==> url_is_wellformed(text@),
{
    match url::Url::parse(text) {
        Ok(_) => Ok(()),
        Err(err) => Err(err),
    }
}

/// Calls `raystack::Ref::new`, which keeps the string as it is where it is a
/// valid reference. The contract claims that it succeeds exactly on the texts
/// `ref_is_valid` holds of, and that the text handed back is the one given.
#[verifier::external_body]
pub(crate) fn parse_ref(text: String) -> (r: Result<String, raystack::ParseRefError>)
    ensures
        r is Ok <==> ref_is_valid(text@),
        r matches Ok(kept) ==> kept@ == text@,
{
    match raystack::Ref::new(text) {
        Ok(reference) => Ok(reference.into_string()),
        Err(err) => Err(err),
    }
}

} // verus!
