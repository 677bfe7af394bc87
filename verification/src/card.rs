//! A card: its memory estimate, its lifecycle phase and the review that
//! moves it from one phase to the next.

use crate::instant::utc_now;
use crate::rating::Rating;
use crate::review_log::ReviewLog;
use crate::state::State;
use chrono::NaiveDateTime;
use vstd::prelude::*;

verus! {

/// Whether `bits`, read as an IEEE 754 single-precision pattern, is a number
/// that is not below zero: a pattern with a clear sign bit up to positive
/// infinity, or negative zero. No pattern of a NaN is.
pub open spec fn spec_non_negative_bits(bits: u32) -> bool {
    bits <= 0x7F80_0000 || bits == 0x8000_0000
}

/// Tests whether `bits` is the pattern of a number that is not below zero.
#[verifier::when_used_as_spec(spec_non_negative_bits)]
pub fn non_negative_bits(bits: u32) -> (answer: bool)
    ensures
        answer == spec_non_negative_bits(bits),
{
    bits <= 0x7F80_0000 || bits == 0x8000_0000
}

/// One card under scheduling.
///
/// `stability` and `difficulty` are single-precision numbers, held as their
/// IEEE 754 bit patterns: the library carries them and never computes on
/// them.
#[derive(Clone, Copy, Debug)]
pub struct Card {
    /// When the card is next due, in UTC.
    pub due: NaiveDateTime,
    /// Bit pattern of the stability, the memory's half-life in days.
    pub stability: u32,
    /// Bit pattern of the difficulty.
    pub difficulty: u32,
    /// Days since the last review.
    pub elapsed_days: i64,
    /// Days between the last review and the due date.
    pub scheduled_days: i64,
    /// How often the card was reviewed.
    pub reps: i32,
    /// How often the card was forgotten.
    pub lapses: i32,
    /// The phase the card is in.
    pub state: State,
    /// When the card was last reviewed, in UTC.
    pub last_review: NaiveDateTime,
    /// The phase the card was in before the review in progress, as the caller
    /// noted it; this is the phase that the log of that review records.
    pub previous_state: State,
    /// The log of the most recent review, if one was saved.
    pub log: Option<ReviewLog>,
}

impl Card {
    /// The ranges that the figures of a card stay in: no count and no number
    /// of days is negative, and neither are stability and difficulty.
    pub open spec fn spec_well_formed(&self) -> bool {
        &&& non_negative_bits(self.stability)
        &&& non_negative_bits(self.difficulty)
        &&& self.elapsed_days >= 0
        &&& self.scheduled_days >= 0
        &&& self.reps >= 0
        &&& self.lapses >= 0
    }

    /// Tests whether the figures of the card are in their ranges.
    #[verifier::when_used_as_spec(spec_well_formed)]
    pub fn well_formed(&self) -> (answer: bool)
        ensures
            answer == self.spec_well_formed(),
    {
        non_negative_bits(self.stability) && non_negative_bits(self.difficulty)
            && self.elapsed_days >= 0 && self.scheduled_days >= 0 && self.reps >= 0
            && self.lapses >= 0
    }

    /// The card that was never reviewed, due at `due` and with `last_review`
    /// as the instant of its last review: every number is zero, both phases
    /// are `New` and there is no log.
    pub open spec fn unreviewed(due: NaiveDateTime, last_review: NaiveDateTime) -> Card {
        Card {
            due,
            stability: 0,
            difficulty: 0,
            elapsed_days: 0,
            scheduled_days: 0,
            reps: 0,
            lapses: 0,
            state: State::New,
            last_review,
            previous_state: State::New,
            log: None,
        }
    }

    /// The number of lapses after a review rated `rating`, as a mathematical
    /// integer: one more where the review counts as a lapse.
    pub open spec fn lapses_after(self, rating: Rating) -> int {
        if self.state.lapses_on(rating) {
            self.lapses + 1
        } else {
            self.lapses as int
        }
    }

    /// Whether the lapse counter has room for a review rated `rating`.
    pub open spec fn spec_can_review(&self, rating: Rating) -> bool {
        self.lapses_after(rating) <= i32::MAX
    }

    /// Tests whether the lapse counter has room for a review rated `rating`:
    /// it has, unless the review counts as a lapse and the counter stands at
    /// its greatest value.
    #[verifier::when_used_as_spec(spec_can_review)]
    pub fn can_review(&self, rating: Rating) -> (answer: bool)
        ensures
            answer == self.spec_can_review(rating),
            answer == !(self.state.lapses_on(rating) && self.lapses == i32::MAX),
    {
        let lapse = rating == Rating::Again && (self.state == State::New || self.state
            == State::Review);
        !lapse || self.lapses < i32::MAX
    }

    /// This card after a review rated `rating`: the phase moves by the
    /// table, the lapse is counted, and every other field stays.
    pub open spec fn after_review(self, rating: Rating) -> Card {
        Card {
            state: self.state.after(rating),
            lapses: self.lapses_after(rating) as i32,
            ..self
        }
    }

    /// A card that was never reviewed, with the instants given.
    pub fn new_at(due: NaiveDateTime, last_review: NaiveDateTime) -> (card: Card)
        ensures
            card == Card::unreviewed(due, last_review),
            card.well_formed(),
    {
        Card {
            due,
            stability: 0,
            difficulty: 0,
            elapsed_days: 0,
            scheduled_days: 0,
            reps: 0,
            lapses: 0,
            state: State::New,
            last_review,
            previous_state: State::New,
            log: None,
        }
    }

    /// A card that was never reviewed. Its due date and the instant of its
    /// last review are read from the system clock, one after the other, so
    /// the contract leaves both open and fixes every other field.
    pub fn new() -> (card: Card)
        ensures
            card == Card::unreviewed(card.due, card.last_review),
            card.well_formed(),
    {
        let due = utc_now();
        let last_review = utc_now();
        Card::new_at(due, last_review)
    }

    /// This card with the log of a review rated `rating` attached: the log
    /// holds the days and the instant of the last review as the card has
    /// them, and the phase noted in `previous_state`.
    pub open spec fn with_log(self, rating: Rating) -> Card {
        Card {
            log: Some(
                ReviewLog {
                    rating,
                    elapsed_days: self.elapsed_days,
                    scheduled_days: self.scheduled_days,
                    state: self.previous_state,
                    reviewed_date: self.last_review,
                },
            ),
            ..self
        }
    }

    /// Attaches the log of a review rated `rating`, in place of any log that
    /// the card held. Nothing else changes.
    pub fn save_log(&mut self, rating: Rating)
        ensures
            *final(self) == old(self).with_log(rating),
            old(self).well_formed() ==> final(self).well_formed(),
    {
        self.log = Some(
            ReviewLog {
                rating,
                elapsed_days: self.elapsed_days,
                scheduled_days: self.scheduled_days,
                state: self.previous_state,
                reviewed_date: self.last_review,
            },
        );
    }

    /// Whether the lapse counter has room for the reviews rated `ratings`,
    /// taken one after the other.
    pub open spec fn can_review_all(self, ratings: Seq<Rating>) -> bool
        decreases ratings.len(),
    {
        ratings.len() == 0 || (self.can_review(ratings[0]) && self.after_review(
            ratings[0],
        ).can_review_all(ratings.skip(1)))
    }

    /// This card after the reviews rated `ratings`, taken one after the
    /// other.
    pub open spec fn after_reviews(self, ratings: Seq<Rating>) -> Card
        decreases ratings.len(),
    {
        if ratings.len() == 0 {
            self
        } else {
            self.after_review(ratings[0]).after_reviews(ratings.skip(1))
        }
    }

    /// Moves the card to the phase that follows a review rated `rating`, and
    /// counts a lapse where a new card or a card under review was forgotten.
    pub fn update_state(&mut self, rating: Rating)
        requires
            old(self).can_review(rating),
        ensures
            *final(self) == old(self).after_review(rating),
            final(self).lapses >= old(self).lapses,
            old(self).well_formed() ==> final(self).well_formed(),
    {
        match self.state {
            State::New => {
                if rating == Rating::Again {
                    self.lapses += 1;
                }
                if rating == Rating::Easy {
                    self.state = State::Review;
                } else {
                    self.state = State::Learning;
                }
            },
            State::Learning | State::Relearning => {
                if rating == Rating::Good || rating == Rating::Easy {
                    self.state = State::Review
                }
            },
            State::Review => {
                if rating == Rating::Again {
                    self.lapses += 1;
                    self.state = State::Relearning;
                }
            },
        }
    }
}

} // verus!
