//! The instants that cards carry. They come from the `chrono` crate and pass
//! through this library unread: a date and time of day in UTC.

use chrono::{NaiveDateTime, Utc};
use vstd::prelude::*;

verus! {

/// `chrono::NaiveDateTime`, known to the verifier by name only: a value of
/// it can be stored, copied and compared in contracts, and nothing is known
/// of what it holds.
#[verifier::external_type_specification]
#[verifier::external_body]
pub struct ExNaiveDateTime(NaiveDateTime);

/// The current instant in UTC, read from the system clock by
/// `chrono::Utc::now` and stripped of its zone marker by `naive_utc`.
/// Nothing is claimed of the instant that comes back; two calls may differ.
/// `chrono` does not return where the system clock stands before 1970.
#[verifier::external_body]
pub(crate) fn utc_now() -> NaiveDateTime {
    Utc::now().naive_utc()
}

} // verus!
