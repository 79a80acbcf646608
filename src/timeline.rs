use vstd::prelude::*;

use crate::error::SessionValueError;
use crate::grace_period::GracePeriod;
use crate::window::{chargeable_span, ChargeableWindow};

verus! {

/// An instant, as milliseconds since the Unix epoch.
#[derive(Debug, Clone, Copy, PartialEq, Eq, Hash, PartialOrd, Ord)]
pub struct Timestamp(i64);

impl View for Timestamp {
    type V = int;

    closed spec fn view(&self) -> int {
        self.0 as int
    }
}

impl Timestamp {
    /// Two instants with the same view are the same value.
    pub proof fn lemma_view_determines(a: Timestamp, b: Timestamp)
        requires
            a@ == b@,
        ensures
            a == b,
    {
    }

    /// The instant `millis` milliseconds after the Unix epoch.
    pub fn from_epoch_millis(millis: i64) -> (r: Self)
        ensures
            r@ == millis,
    {
        Timestamp(millis)
    }

    /// Milliseconds since the Unix epoch.
    pub fn epoch_millis(self) -> (r: i64)
        ensures
            r == self@,
    {
        self.0
    }
}

/// A validated, strictly positive span between two instants.
#[derive(Debug, Clone, Copy, PartialEq, Eq, PartialOrd, Ord)]
pub struct SessionTimeline {
    elapsed_millis: u128,
}

impl View for SessionTimeline {
    type V = nat;

    /// The elapsed milliseconds.
    closed spec fn view(&self) -> nat {
        self.elapsed_millis as nat
    }
}

/// What building a timeline from `started_at` to `ended_at` gives.
pub open spec fn timeline_from(
    started_at: Timestamp,
    ended_at: Timestamp,
    r: Result<SessionTimeline, SessionValueError>,
) -> bool {
    match r {
        Ok(t) => started_at@ < ended_at@ && t@ == ended_at@ - started_at@,
        Err(err) => ended_at@ <= started_at@ && err == (SessionValueError::InvalidTimeline {
            started_at,
            ended_at,
        }),
    }
}

impl SessionTimeline {
    #[verifier::type_invariant]
    spec fn positive_span(self) -> bool {
        0 < self.elapsed_millis <= u64::MAX
    }

    /// The span from `started_at` to `ended_at`; `InvalidTimeline` unless the
    /// end is strictly after the start.
    pub fn between(started_at: Timestamp, ended_at: Timestamp) -> (r: Result<Self, SessionValueError>)
        ensures
            timeline_from(started_at, ended_at, r),
    {
        let start = started_at.epoch_millis();
        let end = ended_at.epoch_millis();
        if end <= start {
            return Err(SessionValueError::InvalidTimeline { started_at, ended_at });
        }
        let elapsed = (end as i128) - (start as i128);
        Ok(SessionTimeline { elapsed_millis: elapsed as u128 })
    }

    /// The elapsed milliseconds; positive and within 64 bits.
    pub fn elapsed_millis(&self) -> (r: u128)
        ensures
            r == self@,
            0 < r <= u64::MAX,
    {
        proof {
            use_type_invariant(self);
        }
        self.elapsed_millis
    }

    /// The part of this span left after the free `grace` period.
    pub fn consume_grace_period(&self, grace: GracePeriod) -> (r: ChargeableWindow)
        ensures
            r.spec_total_millis() == self@,
            r.spec_chargeable_millis() == chargeable_span(self@, grace@),
            self@ <= u64::MAX,
    {
        ChargeableWindow::from_timeline(self.elapsed_millis(), grace)
    }
}

} // verus!
