//! The outcome that a learner reports for a card.

use vstd::prelude::*;

verus! {

/// How well a card was recalled, from a full failure (`Again`) to an
/// effortless recall (`Easy`).
#[derive(PartialEq, Eq, Structural, Hash, Copy, Clone, Debug)]
pub enum Rating {
    Again,
    Hard,
    Good,
    Easy,
}

impl Rating {
    /// Every rating once, from the worst recall to the best.
    pub open spec fn all() -> Seq<Rating> {
        seq![Rating::Again, Rating::Hard, Rating::Good, Rating::Easy]
    }

    /// The rating as a number: 1 for `Again`, 2 for `Hard`, 3 for `Good`,
    /// 4 for `Easy`. A better recall has the higher number.
    pub open spec fn spec_value(self) -> u8 {
        match self {
            Rating::Again => 1,
            Rating::Hard => 2,
            Rating::Good => 3,
            Rating::Easy => 4,
        }
    }

    /// The rating that has the number `value`, where there is one.
    pub open spec fn with_value(value: u8) -> Option<Rating> {
        if value == 1 {
            Some(Rating::Again)
        } else if value == 2 {
            Some(Rating::Hard)
        } else if value == 3 {
            Some(Rating::Good)
        } else if value == 4 {
            Some(Rating::Easy)
        } else {
            None
        }
    }

    /// The four ratings in the order of `Rating::all()`.
    pub fn iter() -> (ratings: [Rating; 4])
        ensures
            ratings@ == Rating::all(),
    {
        [Rating::Again, Rating::Hard, Rating::Good, Rating::Easy]
    }

    /// The number of this rating, from 1 to 4.
    #[verifier::when_used_as_spec(spec_value)]
    pub fn value(self) -> (value: u8)
        ensures
            value == self.spec_value(),
            1 <= value <= 4,
            Rating::with_value(value) == Some(self),
    {
        match self {
            Rating::Again => 1,
            Rating::Hard => 2,
            Rating::Good => 3,
            Rating::Easy => 4,
        }
    }
}

} // verus!
