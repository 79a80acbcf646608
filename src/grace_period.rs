use vstd::prelude::*;

use crate::MILLISECONDS_IN_MINUTE;

verus! {

/// A free period at the start of a session, in milliseconds.
#[derive(Debug, Clone, Copy, PartialEq, Eq)]
pub struct GracePeriod {
    millis: u128,
}

impl View for GracePeriod {
    type V = nat;

    closed spec fn view(&self) -> nat {
        self.millis as nat
    }
}

impl GracePeriod {
    /// Two free periods with the same view are the same value.
    pub proof fn lemma_view_determines(a: GracePeriod, b: GracePeriod)
        requires
            a@ == b@,
        ensures
            a == b,
    {
    }

    /// A free period of `millis` milliseconds.
    pub fn from_millis(millis: u128) -> (r: Self)
        ensures
            r@ == millis,
    {
        GracePeriod { millis }
    }

    /// A free period of `minutes` whole minutes.
    pub fn from_minutes(minutes: u128) -> (r: Self)
        requires
            minutes * MILLISECONDS_IN_MINUTE <= u128::MAX,
        ensures
            r@ == minutes * MILLISECONDS_IN_MINUTE,
    {
        GracePeriod { millis: minutes * MILLISECONDS_IN_MINUTE }
    }

    /// The length in milliseconds.
    pub fn millis(self) -> (r: u128)
        ensures
            r == self@,
    {
        self.millis
    }

    /// Whether the period is empty.
    pub fn is_zero(self) -> (r: bool)
        ensures
            r == (self@ == 0),
    {
        self.millis == 0
    }
}

} // verus!
