//! The candidate cards of one review: for each rating, the card as it would
//! stand had the learner given that rating.

use crate::card::Card;
use crate::rating::Rating;
use chrono::NaiveDateTime;
use std::collections::HashMap;
use vstd::prelude::*;

verus! {

broadcast use vstd::std_specs::hash::group_hash_axioms;

/// One candidate card for each of the four ratings, and the instant for
/// which they were made.
///
/// The candidates are kept in a hash map under the number of their rating.
/// That the map holds a card under each of the four numbers is an invariant
/// of the type, so a candidate can be looked up for every rating.
pub struct ScheduledCards {
    cards: HashMap<u8, Card>,
    now: NaiveDateTime,
}

impl View for ScheduledCards {
    type V = Map<Rating, Card>;

    /// The candidates by rating; every rating has one.
    closed spec fn view(&self) -> Map<Rating, Card> {
        Map::new(|rating: Rating| true, |rating: Rating| self.cards@[rating.spec_value()])
    }
}

impl ScheduledCards {
    #[verifier::type_invariant]
    spec fn holds_every_rating(self) -> bool {
        forall|rating: Rating| #[trigger] self.cards@.contains_key(rating.spec_value())
    }

    /// The candidates of `card`: under each rating, `card` after a review
    /// with that rating.
    pub open spec fn candidates(card: Card) -> Map<Rating, Card> {
        Map::new(|rating: Rating| true, |rating: Rating| card.after_review(rating))
    }

    /// The instant for which the candidates were made.
    pub closed spec fn spec_now(&self) -> NaiveDateTime {
        self.now
    }

    /// Makes the four candidates of `card`: for each rating a copy of `card`
    /// moved by a review with that rating. `card` itself stays as it is.
    ///
    /// The lapse counter of `card` must have room for a review rated
    /// `Again`, the one candidate that may count a lapse.
    pub fn new(card: &Card, now: NaiveDateTime) -> (scheduled: Self)
        requires
            card.can_review(Rating::Again),
        ensures
            scheduled@ == Self::candidates(*card),
            scheduled.spec_now() == now,
    {
        let ratings = Rating::iter();
        assert(ratings@[0] == Rating::Again && ratings@[1] == Rating::Hard && ratings@[2]
            == Rating::Good && ratings@[3] == Rating::Easy);
        let mut cards: HashMap<u8, Card> = HashMap::new();
        let mut i: usize = 0;
        while i < 4
            invariant
                i <= 4,
                forall|k: int| 0 <= k < 4 ==> (#[trigger] ratings@[k]).spec_value() == k + 1,
                card.can_review(Rating::Again),
                forall|rating: Rating|
                    rating.spec_value() <= i ==> {
                        &&& #[trigger] cards@.contains_key(rating.spec_value())
                        &&& cards@[rating.spec_value()] == card.after_review(rating)
                    },
            decreases 4 - i,
        {
            let rating = ratings[i];
            let mut candidate = card.clone();
            candidate.update_state(rating);
            let ghost before = cards@;
            cards.insert(rating.value(), candidate);
            assert forall|other: Rating| other.spec_value() <= i + 1 implies {
                &&& #[trigger] cards@.contains_key(other.spec_value())
                &&& cards@[other.spec_value()] == card.after_review(other)
            } by {
                if other.spec_value() != i + 1 {
                    assert(before.contains_key(other.spec_value()));
                }
            }
            i += 1;
        }
        let scheduled = ScheduledCards { cards, now };
        assert forall|rating: Rating| #[trigger]
            scheduled@[rating] == Self::candidates(*card)[rating] by {
            assert(scheduled.cards@.contains_key(rating.spec_value()));
        }
        assert(scheduled@ =~= Self::candidates(*card));
        scheduled
    }

    /// A copy of the candidate for `rating`. There is one for every rating.
    pub fn select_card(&self, rating: Rating) -> (card: Card)
        ensures
            card == self@[rating],
    {
        proof {
            use_type_invariant(self);
            assert(self.cards@.contains_key(rating.spec_value()));
        }
        let key = rating.value();
        let found = self.cards.get(&key);
        found.unwrap().clone()
    }

    /// The instant for which the candidates were made.
    #[verifier::when_used_as_spec(spec_now)]
    pub fn now(&self) -> (now: NaiveDateTime)
        ensures
            now == self.spec_now(),
    {
        self.now
    }
}

} // verus!
