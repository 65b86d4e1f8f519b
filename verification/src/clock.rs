//! The wall clock.
//!
//! Nothing is known of a reading before it is taken, so the functions here
//! promise nothing of what they return. Whatever depends on the time is
//! written so that it takes the reading as an argument.

use vstd::prelude::*;

verus! {

/// The current time in whole seconds since the Unix epoch.
///
/// Calls `chrono::Utc::now` and takes the `timestamp` of the reading.
#[verifier::external_body]
pub(crate) fn unix_seconds() -> i64 {
    chrono::Utc::now().timestamp()
}

/// The current time in milliseconds since the Unix epoch.
///
/// Calls `chrono::Utc::now` and takes the `timestamp_millis` of the reading.
#[verifier::external_body]
pub(crate) fn unix_millis() -> i64 {
    chrono::Utc::now().timestamp_millis()
}

/// The current time as an RFC 3339 date-time.
///
/// Calls `chrono::Utc::now` and formats the reading with `to_rfc3339`.
#[verifier::external_body]
pub(crate) fn rfc3339_now() -> String {
    chrono::Utc::now().to_rfc3339()
}

} // verus!
