//! Wall-clock timestamps for the `last_updated` fields.
//!
//! The entities stamp themselves with the time of their construction.
//! What the clock returns depends on the moment of the call, so nothing
//! is promised of these strings: every contract in the crate treats a
//! `last_updated` field as an arbitrary string.

use vstd::prelude::*;

verus! {

/// Relies on `chrono::Utc::now` and `DateTime::to_rfc3339_opts`: the
/// current time rendered as an RFC 3339 string with second precision.
/// The result depends on the clock, so no contract is stated.
#[verifier::external_body]
pub(crate) fn now_rfc3339() -> String {
    chrono::Utc::now().to_rfc3339_opts(chrono::SecondsFormat::Secs, true)
}

/// Relies on `chrono::Utc::now` and the `Display` rendering of
/// `chrono::DateTime`: the current time in chrono's default text form.
/// The result depends on the clock, so no contract is stated.
#[verifier::external_body]
pub(crate) fn now_display() -> String {
    chrono::Utc::now().to_string()
}

} // verus!
