//! Spaced-repetition card model: review ratings, the card lifecycle and the
//! candidate cards offered for one review.

pub mod card;
pub mod instant;
pub mod laws;
pub mod parameters;
pub mod rating;
pub mod review_log;
pub mod scheduled;
pub mod state;

pub use card::Card;
pub use parameters::Parameters;
pub use rating::Rating;
pub use review_log::ReviewLog;
pub use scheduled::ScheduledCards;
pub use state::State;
