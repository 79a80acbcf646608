use vstd::prelude::*;

use crate::bounded::BoundedU64;
use crate::error::SessionValueError;
use crate::MAX_YEN;

verus! {

/// An amount of money in whole currency units, between zero and `MAX_YEN`.
#[derive(Debug, Clone, Copy, PartialEq, Eq, PartialOrd, Ord)]
pub struct MoneyYen(u64);

impl View for MoneyYen {
    type V = nat;

    closed spec fn view(&self) -> nat {
        self.0 as nat
    }
}

/// What building an amount from `value` units gives.
pub open spec fn money_from(value: u64, r: Result<MoneyYen, SessionValueError>) -> bool {
    match r {
        Ok(m) => value <= MAX_YEN && m@ == value,
        Err(err) => value > MAX_YEN && err == (SessionValueError::AmountOutOfRange {
            provided: value,
            max: MAX_YEN,
        }),
    }
}

/// What narrowing the wide amount `value` gives: `AmountOverflow` when it does
/// not fit in 64 bits, otherwise as for `money_from`.
pub open spec fn money_from_wide(value: u128, r: Result<MoneyYen, SessionValueError>) -> bool {
    if value > u64::MAX {
        r == Err::<MoneyYen, SessionValueError>(SessionValueError::AmountOverflow { provided: value })
    } else {
        money_from(value as u64, r)
    }
}

impl MoneyYen {
    /// Every amount lies within the per-session maximum.
    #[verifier::type_invariant]
    pub open spec fn wf(self) -> bool {
        self@ <= MAX_YEN
    }

    /// Two amounts with the same number of units are the same value.
    pub proof fn lemma_view_determines(a: MoneyYen, b: MoneyYen)
        requires
            a@ == b@,
        ensures
            a == b,
    {
    }

    /// The amount `value`, or `AmountOutOfRange` above the maximum.
    pub fn new(value: u64) -> (r: Result<Self, SessionValueError>)
        ensures
            money_from(value, r),
    {
        match BoundedU64::<MAX_YEN>::new(value) {
            Some(bounded) => Ok(MoneyYen(bounded.get())),
            None => Err(SessionValueError::AmountOutOfRange { provided: value, max: MAX_YEN }),
        }
    }

    /// The amount `value`, or `AmountOutOfRange` above the maximum.
    pub fn try_new(value: u64) -> (r: Result<Self, SessionValueError>)
        ensures
            money_from(value, r),
    {
        Self::new(value)
    }

    /// Nothing to pay.
    pub fn zero() -> (r: Self)
        ensures
            r@ == 0,
    {
        MoneyYen(0)
    }

    /// Narrows a wide amount: first to 64 bits, then into the allowed range.
    pub(crate) fn try_from_u128(value: u128) -> (r: Result<Self, SessionValueError>)
        ensures
            money_from_wide(value, r),
    {
        if value > u64::MAX as u128 {
            return Err(SessionValueError::AmountOverflow { provided: value });
        }
        Self::try_new(value as u64)
    }

    /// The amount in currency units.
    pub fn value(self) -> (r: u64)
        ensures
            r == self@,
            r <= MAX_YEN,
    {
        proof {
            use_type_invariant(&self);
        }
        self.0
    }

    /// The sum of two amounts, or `AmountOutOfRange` when it passes the maximum.
    pub fn add(self, other: Self) -> (r: Result<Self, SessionValueError>)
        ensures
            money_from((self@ + other@) as u64, r),
            self@ + other@ <= 2 * MAX_YEN,
    {
        proof {
            use_type_invariant(&self);
            use_type_invariant(&other);
        }
        match self.0.checked_add(other.0) {
            Some(sum) => Self::try_new(sum),
            None => Err(SessionValueError::AmountOverflow {
                provided: (self.0 as u128) + (other.0 as u128),
            }),
        }
    }

    /// The same as `add`: the sum is checked, never clamped.
    pub fn saturating_add(self, other: Self) -> (r: Result<Self, SessionValueError>)
        ensures
            money_from((self@ + other@) as u64, r),
            self@ + other@ <= 2 * MAX_YEN,
    {
        self.add(other)
    }

    /// Whether there is something to pay.
    pub fn is_positive(self) -> (r: bool)
        ensures
            r == (self@ > 0),
    {
        self.0 > 0
    }

    /// Whether there is nothing to pay.
    pub fn is_zero(self) -> (r: bool)
        ensures
            r == (self@ == 0),
    {
        self.0 == 0
    }
}

impl From<MoneyYen> for u64 {
    fn from(value: MoneyYen) -> (r: u64)
        ensures
            r == value@,
    {
        value.value()
    }
}

impl vstd::std_specs::convert::FromSpecImpl<MoneyYen> for u64 {
    open spec fn obeys_from_spec() -> bool {
        true
    }

    open spec fn from_spec(value: MoneyYen) -> u64 {
        value@ as u64
    }
}

} // verus!
