use vstd::prelude::*;

use crate::bounded::BoundedU64;
use crate::error::SessionValueError;
use crate::MAX_KWH_MILLI;

verus! {

/// An amount of energy in milli-kWh, between zero and `MAX_KWH_MILLI`.
#[derive(Debug, Clone, Copy, PartialEq, Eq)]
pub struct KwhMilli(u64);

impl View for KwhMilli {
    type V = nat;

    closed spec fn view(&self) -> nat {
        self.0 as nat
    }
}

/// What building an energy quantity from `value` milli-kWh gives.
pub open spec fn energy_from(value: u64, r: Result<KwhMilli, SessionValueError>) -> bool {
    match r {
        Ok(e) => value <= MAX_KWH_MILLI && e@ == value,
        Err(err) => value > MAX_KWH_MILLI && err == (SessionValueError::EnergyOutOfRange {
            provided: value,
            max: MAX_KWH_MILLI,
        }),
    }
}

impl KwhMilli {
    /// Every quantity lies within the energy limit.
    #[verifier::type_invariant]
    pub open spec fn wf(self) -> bool {
        self@ <= MAX_KWH_MILLI
    }

    /// Two quantities with the same number of milli-kWh are the same value.
    pub proof fn lemma_view_determines(a: KwhMilli, b: KwhMilli)
        requires
            a@ == b@,
        ensures
            a == b,
    {
    }

    /// The quantity `value` milli-kWh, or `EnergyOutOfRange` above the limit.
    pub fn new(value: u64) -> (r: Result<Self, SessionValueError>)
        ensures
            energy_from(value, r),
    {
        match BoundedU64::<MAX_KWH_MILLI>::new(value) {
            Some(bounded) => Ok(KwhMilli(bounded.get())),
            None => Err(SessionValueError::EnergyOutOfRange { provided: value, max: MAX_KWH_MILLI }),
        }
    }

    /// The quantity `value` milli-kWh, or `EnergyOutOfRange` above the limit.
    pub fn try_new(value: u64) -> (r: Result<Self, SessionValueError>)
        ensures
            energy_from(value, r),
    {
        Self::new(value)
    }

    /// No energy at all.
    pub fn zero() -> (r: Self)
        ensures
            r@ == 0,
    {
        KwhMilli(0)
    }

    /// A quantity the caller already knows to be within the limit.
    pub(crate) fn from_milli(value: u64) -> (r: Self)
        requires
            value <= MAX_KWH_MILLI,
        ensures
            r@ == value,
    {
        KwhMilli(value)
    }

    /// Reads a signed meter value: negative readings give `NegativeEnergy`,
    /// readings above the limit give `EnergyOutOfRange`.
    pub fn try_from_i64(value: i64) -> (r: Result<Self, SessionValueError>)
        ensures
            value < 0 ==> r == Err::<KwhMilli, SessionValueError>(
                SessionValueError::NegativeEnergy { provided: value },
            ),
            value >= 0 ==> energy_from(value as u64, r),
    {
        if value < 0 {
            return Err(SessionValueError::NegativeEnergy { provided: value });
        }
        let unsigned = value as u64;
        Self::try_new(unsigned)
    }

    /// The quantity in milli-kWh.
    pub fn value(self) -> (r: u64)
        ensures
            r == self@,
            r <= MAX_KWH_MILLI,
    {
        proof {
            use_type_invariant(&self);
        }
        self.0
    }

    /// The quantity in milli-kWh, widened for products.
    pub(crate) fn into_u128_milli(self) -> (r: u128)
        ensures
            r == self@,
            r <= MAX_KWH_MILLI,
    {
        proof {
            use_type_invariant(&self);
        }
        self.0 as u128
    }

    /// The sum of two quantities, or `EnergyOutOfRange` when it passes the limit.
    pub fn bounded_sum(self, other: Self) -> (r: Result<Self, SessionValueError>)
        ensures
            energy_from((self@ + other@) as u64, r),
            self@ + other@ <= 2 * MAX_KWH_MILLI,
    {
        proof {
            use_type_invariant(&self);
            use_type_invariant(&other);
        }
        let total = self.0.saturating_add(other.0);
        Self::try_new(total)
    }
}

impl From<KwhMilli> for u64 {
    fn from(value: KwhMilli) -> (r: u64)
        ensures
            r == value@,
    {
        value.value()
    }
}

impl vstd::std_specs::convert::FromSpecImpl<KwhMilli> for u64 {
    open spec fn obeys_from_spec() -> bool {
        true
    }

    open spec fn from_spec(value: KwhMilli) -> u64 {
        value@ as u64
    }
}

} // verus!
