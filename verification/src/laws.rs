//! What holds of the card model as a whole, proved from the definitions that
//! the contracts of the functions are stated with.

use crate::card::Card;
use crate::rating::Rating;
use crate::review_log::ReviewLog;
use crate::scheduled::ScheduledCards;
use crate::state::State;
use vstd::prelude::*;

verus! {

/// Every rating occurs in `Rating::all()`, at the place one below its
/// number, and two ratings with the same number are the same rating.
pub proof fn law_ratings_complete(rating: Rating, other: Rating)
    ensures
        Rating::all().len() == 4,
        Rating::all()[rating.spec_value() - 1] == rating,
        Rating::all().contains(rating),
        Rating::with_value(rating.spec_value()) == Some(rating),
        rating.spec_value() == other.spec_value() ==> rating == other,
{
    assert(Rating::all()[rating.spec_value() - 1] == rating);
}

/// The candidate that a batch of candidates holds for a rating is the card
/// after a direct review with that rating, and there is one for every
/// rating.
pub proof fn law_candidate_is_direct_review(card: Card, rating: Rating)
    ensures
        ScheduledCards::candidates(card).contains_key(rating),
        ScheduledCards::candidates(card)[rating] == card.after_review(rating),
        ScheduledCards::candidates(card)[rating].state == card.state.after(rating),
{
}

/// The transition table read by its intent. A review never leaves a card
/// new and never makes it new. A card that is learning or relearning moves
/// to review on `Good` and `Easy` and stays otherwise. A card under review
/// moves to relearning on `Again` and stays otherwise. The lapse counter
/// rises by one on `Again` from new or from review, and stays otherwise.
pub proof fn law_transition_table(card: Card, rating: Rating)
    ensures
        card.state.after(rating) != State::New,
        card.state == State::New ==> card.state.after(rating) == (if rating == Rating::Easy {
            State::Review
        } else {
            State::Learning
        }),
        card.state == State::Learning || card.state == State::Relearning ==> card.state.after(
            rating,
        ) == (if rating == Rating::Good || rating == Rating::Easy {
            State::Review
        } else {
            card.state
        }),
        card.state == State::Review ==> card.state.after(rating) == (if rating == Rating::Again {
            State::Relearning
        } else {
            State::Review
        }),
        card.lapses_after(rating) == card.lapses + (if rating == Rating::Again && (card.state
            == State::New || card.state == State::Review) {
            1int
        } else {
            0int
        }),
        card.after_review(rating) == (Card {
            state: card.after_review(rating).state,
            lapses: card.after_review(rating).lapses,
            ..card
        }),
{
}

/// Over any run of reviews for which the lapse counter has room, the
/// number of lapses never falls, and a well-formed card stays well-formed.
pub proof fn law_lapses_never_decrease(card: Card, ratings: Seq<Rating>)
    requires
        card.can_review_all(ratings),
    ensures
        card.after_reviews(ratings).lapses >= card.lapses,
        card.well_formed() ==> card.after_reviews(ratings).well_formed(),
    decreases ratings.len(),
{
    if ratings.len() > 0 {
        law_lapses_never_decrease(card.after_review(ratings[0]), ratings.skip(1));
    }
}

/// A new card rated `Easy` is under review after that one review, and no
/// lapse is counted.
pub proof fn law_new_easy_goes_to_review(card: Card)
    requires
        card.state == State::New,
    ensures
        card.after_review(Rating::Easy).state == State::Review,
        card.after_review(Rating::Easy).lapses == card.lapses,
{
}

/// A card under review rated `Again` is relearning afterwards, with one
/// lapse more; rated anything else it keeps its phase and its lapses.
pub proof fn law_review_regression(card: Card, rating: Rating)
    requires
        card.state == State::Review,
        card.can_review(rating),
    ensures
        rating == Rating::Again ==> card.after_review(rating).state == State::Relearning
            && card.after_review(rating).lapses == card.lapses + 1,
        rating != Rating::Again ==> card.after_review(rating).state == State::Review
            && card.after_review(rating).lapses == card.lapses,
{
}

/// The log saved for a review holds the rating given and the phase noted
/// in `previous_state`, and a review that follows, whatever its rating,
/// leaves that log as it is.
pub proof fn law_log_fidelity(card: Card, rating: Rating, next: Rating)
    ensures
        card.with_log(rating).log is Some,
        card.with_log(rating).log->0.rating == rating,
        card.with_log(rating).log->0.state == card.previous_state,
        card.with_log(rating).log == Some(
            ReviewLog {
                rating,
                elapsed_days: card.elapsed_days,
                scheduled_days: card.scheduled_days,
                state: card.previous_state,
                reviewed_date: card.last_review,
            },
        ),
        card.with_log(rating).after_review(next).log == card.with_log(rating).log,
        card.after_review(next).with_log(rating).log == card.with_log(rating).log,
{
}

} // verus!
