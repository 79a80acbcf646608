use vstd::prelude::*;

use crate::energy::KwhMilli;
use crate::error::SessionValueError;
use crate::MAX_KWH_MILLI;

verus! {

/// `energy` scaled by `numerator / denominator`, rounded down.
pub open spec fn prorate(energy: nat, numerator: nat, denominator: nat) -> nat
    recommends
        denominator > 0,
{
    (energy * numerator) / denominator
}

/// A non-negative fraction of chargeable time over total time.
#[derive(Debug, Clone, Copy, PartialEq, Eq)]
pub struct ChargeRatio {
    numerator: u128,
    denominator: u128,
}

/// What building the ratio `numerator / denominator` gives.
pub open spec fn ratio_from(
    numerator: u128,
    denominator: u128,
    r: Result<ChargeRatio, SessionValueError>,
) -> bool {
    match r {
        Ok(ratio) => denominator != 0 && ratio.spec_numerator() == numerator
            && ratio.spec_denominator() == denominator,
        Err(err) => denominator == 0 && err == (SessionValueError::InvalidChargeRatio {
            numerator,
            denominator,
        }),
    }
}

impl ChargeRatio {
    #[verifier::type_invariant]
    spec fn nonzero_denominator(self) -> bool {
        self.denominator != 0
    }

    /// The numerator.
    pub closed spec fn spec_numerator(self) -> nat {
        self.numerator as nat
    }

    /// The denominator.
    pub closed spec fn spec_denominator(self) -> nat {
        self.denominator as nat
    }

    /// The ratio `numerator / denominator`; `InvalidChargeRatio` for a zero
    /// denominator.
    pub fn new(numerator: u128, denominator: u128) -> (r: Result<Self, SessionValueError>)
        ensures
            ratio_from(numerator, denominator, r),
    {
        if denominator == 0 {
            return Err(SessionValueError::InvalidChargeRatio { numerator, denominator });
        }
        Ok(ChargeRatio { numerator, denominator })
    }

    /// Whether the ratio is zero, so that nothing is charged.
    pub fn is_zero(&self) -> (r: bool)
        ensures
            r == (self.spec_numerator() == 0),
    {
        self.numerator == 0
    }

    /// Scales `energy` by the ratio, rounding down once.
    pub fn apply_to(&self, energy: KwhMilli) -> (r: KwhMilli)
        requires
            energy@ * self.spec_numerator() <= u128::MAX,
            prorate(energy@, self.spec_numerator(), self.spec_denominator()) <= MAX_KWH_MILLI,
        ensures
            r@ == prorate(energy@, self.spec_numerator(), self.spec_denominator()),
    {
        proof {
            use_type_invariant(self);
        }
        if self.is_zero() {
            assert(energy@ * 0 == 0);
            return KwhMilli::zero();
        }
        let energy_milli = energy.into_u128_milli();
        let billed_milli = (energy_milli * self.numerator) / self.denominator;
        KwhMilli::from_milli(billed_milli as u64)
    }

    /// The numerator.
    pub fn numerator(&self) -> (r: u128)
        ensures
            r == self.spec_numerator(),
    {
        self.numerator
    }

    /// The denominator, which is never zero.
    pub fn denominator(&self) -> (r: u128)
        ensures
            r == self.spec_denominator(),
            r != 0,
    {
        proof {
            use_type_invariant(self);
        }
        self.denominator
    }
}

} // verus!
