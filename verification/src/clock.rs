//! The wall clock.
//!
//! Records are stamped with a `chrono::NaiveDateTime`, which this crate
//! carries through without looking into it. Tokens count in seconds since
//! the Unix epoch.

use vstd::prelude::*;

verus! {

/// `chrono::NaiveDateTime`, a date and time without a time zone, as an
/// opaque value.
#[verifier::external_type_specification]
#[verifier::external_body]
pub struct ExNaiveDateTime(chrono::NaiveDateTime);

/// The system's date and time in UTC, as `chrono::Utc::now().naive_utc()`
/// reports it.
///
/// Nothing is claimed of the value: two calls may differ in either
/// direction. `chrono` panics where the system's clock stands before 1970.
#[verifier::external_body]
pub(crate) fn naive_now() -> chrono::NaiveDateTime {
    chrono::Utc::now().naive_utc()
}

/// The seconds from the Unix epoch to `at`, read as UTC:
/// `at.and_utc().timestamp()` of `chrono`. Nothing is claimed of the value.
#[verifier::external_body]
pub(crate) fn unix_seconds(at: &chrono::NaiveDateTime) -> i64 {
    at.and_utc().timestamp()
}

/// The system's time in seconds since the Unix epoch.
///
/// Nothing is claimed of the value: it is whatever the clock shows. What is
/// done with it is stated by the functions that take the time as an
/// argument, for every time there is.
pub(crate) fn unix_now() -> i64 {
    let at = naive_now();
    unix_seconds(&at)
}

} // verus!
