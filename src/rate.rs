use vstd::prelude::*;

use crate::energy::KwhMilli;
use crate::error::SessionValueError;
use crate::money::{money_from_wide, MoneyYen};

verus! {

/// The price of `energy_milli` milli-kWh at `rate` units per kWh, rounded down.
pub open spec fn price(energy_milli: nat, rate: nat) -> nat {
    (energy_milli * rate) / 1000
}

/// A price in currency units per kWh; never zero.
#[derive(Debug, Clone, Copy, PartialEq, Eq)]
pub struct RateYenPerKwh(u32);

impl View for RateYenPerKwh {
    type V = nat;

    closed spec fn view(&self) -> nat {
        self.0 as nat
    }
}

/// What building a rate from `value` gives.
pub open spec fn rate_from(value: u32, r: Result<RateYenPerKwh, SessionValueError>) -> bool {
    match r {
        Ok(rate) => value > 0 && rate@ == value,
        Err(err) => value == 0 && err == SessionValueError::NonPositiveRate,
    }
}

impl RateYenPerKwh {
    /// Two rates with the same view are the same value.
    pub proof fn lemma_view_determines(a: RateYenPerKwh, b: RateYenPerKwh)
        requires
            a@ == b@,
        ensures
            a == b,
    {
    }

    /// Every rate is positive.
    #[verifier::type_invariant]
    pub open spec fn wf(self) -> bool {
        self@ > 0
    }

    /// The rate `value` per kWh, or `NonPositiveRate` for zero.
    pub fn new(value: u32) -> (r: Result<Self, SessionValueError>)
        ensures
            rate_from(value, r),
    {
        if value == 0 {
            Err(SessionValueError::NonPositiveRate)
        } else {
            Ok(RateYenPerKwh(value))
        }
    }

    /// The rate `value` per kWh, or `NonPositiveRate` for zero.
    pub fn try_new(value: u32) -> (r: Result<Self, SessionValueError>)
        ensures
            rate_from(value, r),
    {
        Self::new(value)
    }

    /// Units per kWh.
    pub fn value(self) -> (r: u32)
        ensures
            r == self@,
            r > 0,
    {
        proof {
            use_type_invariant(&self);
        }
        self.0
    }

    /// Prices `billed_energy` at this rate, rounding down; `AmountOutOfRange`
    /// when the price passes the per-session maximum.
    pub fn charge(self, billed_energy: KwhMilli) -> (r: Result<MoneyYen, SessionValueError>)
        ensures
            money_from_wide(price(billed_energy@, self@) as u128, r),
            price(billed_energy@, self@) <= u64::MAX,
    {
        let billed_energy_milli = billed_energy.into_u128_milli();
        let rate_per_kwh = self.value() as u128;
        assert(billed_energy_milli * rate_per_kwh <= 1_000_000 * 0xffff_ffff) by (nonlinear_arith)
            requires
                billed_energy_milli <= 1_000_000,
                rate_per_kwh <= 0xffff_ffff,
        ;
        let amount = (billed_energy_milli * rate_per_kwh) / 1_000;
        MoneyYen::try_from_u128(amount)
    }
}

impl From<RateYenPerKwh> for u32 {
    fn from(value: RateYenPerKwh) -> (r: u32)
        ensures
            r == value@,
    {
        value.value()
    }
}

impl vstd::std_specs::convert::FromSpecImpl<RateYenPerKwh> for u32 {
    open spec fn obeys_from_spec() -> bool {
        true
    }

    open spec fn from_spec(value: RateYenPerKwh) -> u32 {
        value@ as u32
    }
}

} // verus!
