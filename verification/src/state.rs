//! The lifecycle phase of a card and the table by which a review moves it.

use crate::rating::Rating;
use vstd::prelude::*;

verus! {

/// The phase a card is in. A card is in exactly one phase at a time.
#[derive(Clone, Copy, PartialEq, Eq, Structural, Debug)]
pub enum State {
    New,
    Learning,
    Review,
    Relearning,
}

impl State {
    /// The phase that a card in phase `self` is in after a review rated
    /// `rating`: one row of the table for each pair.
    pub open spec fn after(self, rating: Rating) -> State {
        match (self, rating) {
            (State::New, Rating::Again) => State::Learning,
            (State::New, Rating::Hard) => State::Learning,
            (State::New, Rating::Good) => State::Learning,
            (State::New, Rating::Easy) => State::Review,
            (State::Learning, Rating::Again) => State::Learning,
            (State::Learning, Rating::Hard) => State::Learning,
            (State::Learning, Rating::Good) => State::Review,
            (State::Learning, Rating::Easy) => State::Review,
            (State::Review, Rating::Again) => State::Relearning,
            (State::Review, Rating::Hard) => State::Review,
            (State::Review, Rating::Good) => State::Review,
            (State::Review, Rating::Easy) => State::Review,
            (State::Relearning, Rating::Again) => State::Relearning,
            (State::Relearning, Rating::Hard) => State::Relearning,
            (State::Relearning, Rating::Good) => State::Review,
            (State::Relearning, Rating::Easy) => State::Review,
        }
    }

    /// Whether a review rated `rating` of a card in phase `self` counts as a
    /// lapse: a failed recall of a card that is new or under review.
    pub open spec fn lapses_on(self, rating: Rating) -> bool {
        rating == Rating::Again && (self == State::New || self == State::Review)
    }
}

} // verus!
