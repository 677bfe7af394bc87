//! The record of one review.

use crate::rating::Rating;
use crate::state::State;
use chrono::NaiveDateTime;
use vstd::prelude::*;

verus! {

/// What is kept of one review: the rating given, and the card's figures as
/// they stood before the review changed them.
#[derive(Clone, Copy, Debug, PartialEq)]
pub struct ReviewLog {
    /// The rating that the learner gave.
    pub rating: Rating,
    /// Days since the review before this one.
    pub elapsed_days: i64,
    /// Days for which the card had been scheduled.
    pub scheduled_days: i64,
    /// The phase from which the card was reviewed.
    pub state: State,
    /// When the review took place, in UTC.
    pub reviewed_date: NaiveDateTime,
}

} // verus!
