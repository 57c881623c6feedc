use vstd::prelude::*;

use crate::timestamp::{clock_now, Timestamp, SECOND};

verus! {

/// The fixed interval used when no earlier interval can be measured, and the
/// interval after a failed recall: thirty seconds.
pub const MIN_INTERVAL: u128 = 30 * SECOND;

/// Ease factors and ratings are fixed-point numbers in thousandths.
pub const SCALE: u128 = 1000;

/// The ease of a review item built without an explicit one: 1.5.
pub const DEFAULT_EASE: u32 = 1500;

/// The recall-quality category that a rating falls into.
#[derive(Debug, Clone, Copy, PartialEq, Eq)]
pub enum RatingBand {
    /// Recalled with difficulty: a rating below -0.001.
    Hard,
    /// Not recalled: a rating in [-0.001, 0.001).
    Again,
    /// A manual adjustment of the review date: a rating in [0.001, 0.999).
    Tweak,
    /// Recalled normally: a rating in [0.999, 1.001).
    Good,
    /// Recalled effortlessly: a rating of 1.001 or more.
    Easy,
}

/// The band of a rating given in thousandths (1000 stands for 1.0).
pub open spec fn band_of(rating: i32) -> RatingBand {
    if rating < -1 {
        RatingBand::Hard
    } else if rating < 1 {
        RatingBand::Again
    } else if rating < 999 {
        RatingBand::Tweak
    } else if rating < 1001 {
        RatingBand::Good
    } else {
        RatingBand::Easy
    }
}

impl RatingBand {
    /// Whether a review with a rating of this band has a defined schedule.
    pub open spec fn is_scheduled(self) -> bool {
        self is Again || self is Good
    }

    /// Classifies a rating given in thousandths.
    pub fn of(rating: i32) -> (r: RatingBand)
        ensures
            r == band_of(rating),
    {
        if rating < -1 {
            RatingBand::Hard
        } else if rating < 1 {
            RatingBand::Again
        } else if rating < 999 {
            RatingBand::Tweak
        } else if rating < 1001 {
            RatingBand::Good
        } else {
            RatingBand::Easy
        }
    }
}

/// `interval` grown by the factor `ease` (in thousandths), rounded down.
pub open spec fn scaled(interval: int, ease: int) -> int {
    interval * ease / SCALE as int
}

proof fn lemma_scaled_split(interval: nat, ease: nat)
    ensures
        scaled(interval as int, ease as int) == (interval / 1000) * ease + (interval % 1000)
            * ease / 1000,
        (interval / 1000) * ease <= scaled(interval as int, ease as int),
{
    let q = interval / 1000;
    let m = interval % 1000;
    assert(interval == 1000 * q + m);
    assert(interval * ease == 1000 * (q * ease) + m * ease) by (nonlinear_arith)
        requires
            interval == 1000 * q + m,
    ;
    assert((1000 * (q * ease) + m * ease) / 1000 == q * ease + (m * ease) / 1000) by (
    nonlinear_arith)
        requires
            q * ease >= 0,
            m * ease >= 0,
    ;
    assert(0 <= m * ease) by (nonlinear_arith);
}

/// `interval * ease / SCALE`, or `None` where that does not fit in a `u128`.
fn scale_interval(interval: u128, ease: u32) -> (r: Option<u128>)
    ensures
        match r {
            Some(v) => v == scaled(interval as int, ease as int),
            None => scaled(interval as int, ease as int) > u128::MAX,
        },
{
    proof {
        lemma_scaled_split(interval as nat, ease as nat);
    }
    let whole: u128 = interval / SCALE;
    let rest: u128 = interval % SCALE;
    assert(rest * ease <= 999 * 0xffff_ffff) by (nonlinear_arith)
        requires
            rest < 1000,
            ease <= 0xffff_ffff,
    ;
    let part: u128 = rest * (ease as u128) / SCALE;
    match whole.checked_mul(ease as u128) {
        Some(w) => w.checked_add(part),
        None => None,
    }
}

/// Why a review or a cram left the item unchanged.
#[derive(Debug, Clone, Copy, PartialEq, Eq)]
pub enum ReviewError {
    /// The item is not due yet; `cram` reviews it early.
    NotDue,
    /// The next review time does not fit in a `Timestamp`.
    TimeOverflow,
}

/// The schedule of one review item.
#[derive(Debug, Clone, Copy, PartialEq, Eq)]
pub struct Review {
    /// When the item was last reviewed; `None` before its first review.
    pub last_review: Option<Timestamp>,
    /// When the item becomes due.
    pub next_review: Timestamp,
    /// How much the review interval grows after a successful review, in
    /// thousandths (1500 stands for 1.5).
    pub ease: u32,
}

impl Review {
    /// Whether the item is due at `now`: at or after its next review time.
    pub open spec fn is_due(self, now: Timestamp) -> bool {
        now.nanos >= self.next_review.nanos
    }

    /// The length of the interval that ends with a review at `now`: the time
    /// since the last review, or `MIN_INTERVAL` where there was none or where
    /// the recorded last review lies after `now` (a skewed clock).
    pub open spec fn elapsed(self, now: Timestamp) -> int {
        match self.last_review {
            Some(last) => if last.nanos <= now.nanos {
                now.nanos - last.nanos
            } else {
                MIN_INTERVAL as int
            },
            None => MIN_INTERVAL as int,
        }
    }

    /// The next review time that a cram at `now` schedules: `now` plus the
    /// elapsed interval grown by the ease factor.
    pub open spec fn crammed_due(self, now: Timestamp) -> int {
        now.nanos + scaled(self.elapsed(now), self.ease as int)
    }

    /// The result and the new state of a cram at `now`.
    pub open spec fn cram_outcome(self, now: Timestamp) -> (Result<(), ReviewError>, Review) {
        if self.crammed_due(now) <= u128::MAX {
            (
                Ok(()),
                Review {
                    last_review: Some(now),
                    next_review: Timestamp { nanos: self.crammed_due(now) as u128 },
                    ease: self.ease,
                },
            )
        } else {
            (Err(ReviewError::TimeOverflow), self)
        }
    }

    /// The result and the new state of a failed recall (`Again`) at `now`.
    pub open spec fn reset_outcome(self, now: Timestamp) -> (Result<(), ReviewError>, Review) {
        if now.nanos + MIN_INTERVAL <= u128::MAX {
            (
                Ok(()),
                Review {
                    last_review: Some(now),
                    next_review: Timestamp { nanos: (now.nanos + MIN_INTERVAL) as u128 },
                    ease: self.ease,
                },
            )
        } else {
            (Err(ReviewError::TimeOverflow), self)
        }
    }

    /// The result and the new state of a review rated `rating` at `now`.
    /// Meaningful where the item is not due or the band is scheduled.
    pub open spec fn review_outcome(self, now: Timestamp, rating: i32) -> (
        Result<(), ReviewError>,
        Review,
    ) {
        if !self.is_due(now) {
            (Err(ReviewError::NotDue), self)
        } else if band_of(rating) is Good {
            self.cram_outcome(now)
        } else {
            self.reset_outcome(now)
        }
    }

    /// A new item with the given ease, due at `now`, never reviewed.
    pub fn new_at(ease: u32, now: Timestamp) -> (r: Review)
        ensures
            r == (Review { last_review: None, next_review: now, ease }),
    {
        Review { last_review: None, next_review: now, ease }
    }

    /// Whether the item is due at `now`.
    pub fn should_be_reviewed_at(&self, now: Timestamp) -> (r: bool)
        ensures
            r == self.is_due(now),
            r <==> now.nanos >= self.next_review.nanos,
    {
        now.nanos >= self.next_review.nanos
    }

    /// Reviews the item at `now` whether or not it is due: the next review
    /// comes after the elapsed interval grown by the ease factor.
    pub fn cram_at(&mut self, now: Timestamp) -> (r: Result<(), ReviewError>)
        ensures
            (r, *final(self)) == old(self).cram_outcome(now),
            r is Ok <==> old(self).crammed_due(now) <= u128::MAX,
            r is Ok ==> final(self).last_review == Some(now) && final(self).ease == old(
                self,
            ).ease,
            r is Ok && old(self).last_review is None ==> final(self).next_review.nanos
                == now.nanos + scaled(MIN_INTERVAL as int, old(self).ease as int),
            r is Ok && old(self).last_review is Some && old(self).last_review->0.nanos
                <= now.nanos ==> final(self).next_review.nanos == now.nanos + scaled(
                now.nanos - old(self).last_review->0.nanos,
                old(self).ease as int,
            ),
            r is Err ==> r == Err::<(), ReviewError>(ReviewError::TimeOverflow) && *final(self)
                == *old(self),
    {
        let elapsed: u128 = match self.last_review {
            Some(last) => if last.nanos <= now.nanos {
                now.nanos - last.nanos
            } else {
                MIN_INTERVAL
            },
            None => MIN_INTERVAL,
        };
        match scale_interval(elapsed, self.ease) {
            Some(interval) => match now.nanos.checked_add(interval) {
                Some(next) => {
                    self.next_review = Timestamp { nanos: next };
                    self.last_review = Some(now);
                    Ok(())
                },
                None => Err(ReviewError::TimeOverflow),
            },
            None => Err(ReviewError::TimeOverflow),
        }
    }

    /// Performs a review rated `rating` (in thousandths) at `now`. A rating in
    /// the `Again` band resets the interval to `MIN_INTERVAL`; one in the `Good`
    /// band acts as `cram_at`. The `Hard`, `Tweak` and `Easy` bands have no
    /// schedule yet and may not be used on a due item.
    pub fn review_at(&mut self, now: Timestamp, rating: i32) -> (r: Result<(), ReviewError>)
        requires
            old(self).is_due(now) ==> band_of(rating).is_scheduled(),
        ensures
            (r, *final(self)) == old(self).review_outcome(now, rating),
            !old(self).is_due(now) ==> r == Err::<(), ReviewError>(ReviewError::NotDue)
                && *final(self) == *old(self),
            old(self).is_due(now) && band_of(rating) is Again ==> {
                &&& r is Ok <==> now.nanos + MIN_INTERVAL <= u128::MAX
                &&& r is Ok ==> final(self).last_review == Some(now)
                    && final(self).next_review.nanos == now.nanos + MIN_INTERVAL
                    && final(self).ease == old(self).ease
                &&& r is Err ==> r == Err::<(), ReviewError>(ReviewError::TimeOverflow)
                    && *final(self) == *old(self)
            },
            old(self).is_due(now) && band_of(rating) is Good ==> (r, *final(self))
                == old(self).cram_outcome(now),
    {
        if now.nanos < self.next_review.nanos {
            return Err(ReviewError::NotDue);
        }
        match RatingBand::of(rating) {
            RatingBand::Good => self.cram_at(now),
            _ => match now.nanos.checked_add(MIN_INTERVAL) {
                Some(next) => {
                    self.last_review = Some(now);
                    self.next_review = Timestamp { nanos: next };
                    Ok(())
                },
                None => Err(ReviewError::TimeOverflow),
            },
        }
    }

    /// A new item with the given ease, due now, never reviewed.
    pub fn new(ease: u32) -> (r: Review)
        ensures
            r.last_review is None,
            r.ease == ease,
    {
        Review::new_at(ease, clock_now())
    }

    /// Whether the item is due at the current time.
    pub fn should_be_reviewed(&self) -> (r: bool)
        ensures
            exists|t: Timestamp| r == self.is_due(t),
    {
        let now = clock_now();
        self.should_be_reviewed_at(now)
    }

    /// Reviews the item at the current time whether or not it is due.
    pub fn cram(&mut self) -> (r: Result<(), ReviewError>)
        ensures
            exists|t: Timestamp| (r, *final(self)) == old(self).cram_outcome(t),
    {
        let now = clock_now();
        self.cram_at(now)
    }

    /// Performs a review rated `rating` (in thousandths) at the current time.
    pub fn review(&mut self, rating: i32) -> (r: Result<(), ReviewError>)
        requires
            band_of(rating).is_scheduled(),
        ensures
            exists|t: Timestamp| (r, *final(self)) == old(self).review_outcome(t, rating),
            r == Err::<(), ReviewError>(ReviewError::NotDue) ==> *final(self) == *old(self),
    {
        let now = clock_now();
        self.review_at(now, rating)
    }
}

impl Default for Review {
    /// A new item with the default ease of 1.5, due now, never reviewed.
    fn default() -> (r: Review)
        ensures
            r.last_review is None,
            r.ease == DEFAULT_EASE,
    {
        Review::new(DEFAULT_EASE)
    }
}

/// A `Good` review of a due item leaves the same result and state as a cram
/// at the same instant.
pub proof fn lemma_good_review_is_cram(item: Review, now: Timestamp, rating: i32)
    requires
        item.is_due(now),
        band_of(rating) is Good,
    ensures
        item.review_outcome(now, rating) == item.cram_outcome(now),
{
}

/// An `Again` review of a due item schedules it exactly `MIN_INTERVAL` after
/// `now`, whatever its ease.
pub proof fn lemma_again_ignores_ease(item: Review, now: Timestamp, rating: i32, ease: u32)
    requires
        item.is_due(now),
        band_of(rating) is Again,
        now.nanos + MIN_INTERVAL <= u128::MAX,
    ensures
        item.review_outcome(now, rating).0 is Ok,
        item.review_outcome(now, rating).1.next_review.nanos == now.nanos + MIN_INTERVAL,
        (Review { ease, ..item }).review_outcome(now, rating).1.next_review
            == item.review_outcome(now, rating).1.next_review,
{
}

/// A review of an item that is not due fails with `NotDue` and changes nothing.
pub proof fn lemma_not_due_unchanged(item: Review, now: Timestamp, rating: i32)
    requires
        !item.is_due(now),
    ensures
        item.review_outcome(now, rating) == (Err::<(), ReviewError>(ReviewError::NotDue), item),
{
}

/// Two crams in a row collapse the interval: a second cram at `later` schedules
/// the item `(later - now) * ease` after `later`, so one at the same instant
/// makes it due at once.
pub proof fn lemma_repeated_cram_collapses(item: Review, now: Timestamp, later: Timestamp)
    requires
        item.cram_outcome(now).0 is Ok,
        now.nanos <= later.nanos,
    ensures
        ({
            let once = item.cram_outcome(now).1;
            &&& once.crammed_due(later) == later.nanos + scaled(
                later.nanos - now.nanos,
                item.ease as int,
            )
            &&& once.cram_outcome(now).0 is Ok
            &&& once.cram_outcome(now).1.next_review == now
        }),
{
}

} // verus!
