//! Scheduling of a single spaced-repetition review item.
//!
//! A [`Review`] records when an item was last reviewed, when it next becomes
//! due, and an ease factor that scales how fast the review interval grows.
//! Every operation has a form that takes the current time as an argument
//! (`*_at`), with an exact contract, and a form that reads the system clock.
pub mod review;
pub mod timestamp;

pub use review::{RatingBand, Review, ReviewError};
pub use timestamp::Timestamp;
