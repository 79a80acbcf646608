use vstd::prelude::*;

use crate::chargeable_energy::ChargeableEnergy;
use crate::energy::KwhMilli;
use crate::error::SessionValueError;
use crate::money::MoneyYen;
use crate::rate::{price, RateYenPerKwh};
use crate::{MAX_KWH_MILLI, MAX_YEN};

verus! {

/// What settling `billed` out of `total` milli-kWh at `rate` gives: the
/// priced bill, or `AmountOutOfRange` when the price passes the maximum.
pub open spec fn bill_from(total: nat, billed: nat, rate: nat, r: Result<SessionBill, SessionValueError>) -> bool {
    let amount = price(billed, rate);
    match r {
        Ok(b) => amount <= MAX_YEN && b.spec_total() == total && b.spec_billed() == billed
            && b.spec_amount() == amount,
        Err(err) => amount > MAX_YEN && err == (SessionValueError::AmountOutOfRange {
            provided: amount as u64,
            max: MAX_YEN,
        }),
    }
}

/// A settled bill: the energy split and the amount it costs.
#[derive(Debug, Clone, Copy, PartialEq, Eq)]
pub struct SessionBill {
    energy: ChargeableEnergy,
    amount: MoneyYen,
}

impl SessionBill {
    /// Milli-kWh consumed.
    pub closed spec fn spec_total(self) -> nat {
        self.energy.spec_total()
    }

    /// Milli-kWh billed.
    pub closed spec fn spec_billed(self) -> nat {
        self.energy.spec_billed()
    }

    /// The amount due.
    pub closed spec fn spec_amount(self) -> nat {
        self.amount@
    }

    /// Two bills with the same energies and amount are the same value.
    pub proof fn lemma_view_determines(a: SessionBill, b: SessionBill)
        requires
            a.spec_total() == b.spec_total(),
            a.spec_billed() == b.spec_billed(),
            a.spec_amount() == b.spec_amount(),
        ensures
            a == b,
    {
        ChargeableEnergy::lemma_view_determines(a.energy, b.energy);
        MoneyYen::lemma_view_determines(a.amount, b.amount);
    }

    /// Prices the billed part of `energy` at `rate`.
    pub fn settle(energy: ChargeableEnergy, rate: RateYenPerKwh) -> (r: Result<Self, SessionValueError>)
        ensures
            bill_from(energy.spec_total(), energy.spec_billed(), rate@, r),
    {
        let amount = match rate.charge(energy.billable()) {
            Ok(amount) => amount,
            Err(err) => return Err(err),
        };
        Ok(SessionBill { energy, amount })
    }

    /// Adds two bills: energies and amounts are summed and checked again.
    pub fn merge(self, other: Self) -> (r: Result<Self, SessionValueError>)
        ensures
            ({
                let total = self.spec_total() + other.spec_total();
                let amount = self.spec_amount() + other.spec_amount();
                match r {
                    Ok(b) => total <= MAX_KWH_MILLI && amount <= MAX_YEN && b.spec_total() == total
                        && b.spec_billed() == self.spec_billed() + other.spec_billed()
                        && b.spec_amount() == amount,
                    Err(err) => if total > MAX_KWH_MILLI {
                        err == (SessionValueError::EnergyOutOfRange { provided: total as u64, max: MAX_KWH_MILLI })
                    } else {
                        amount > MAX_YEN && err == (SessionValueError::AmountOutOfRange {
                            provided: amount as u64,
                            max: MAX_YEN,
                        })
                    },
                }
            }),
    {
        let energy = match self.energy.combine(other.energy) {
            Ok(energy) => energy,
            Err(err) => return Err(err),
        };
        let amount = match self.amount.saturating_add(other.amount) {
            Ok(amount) => amount,
            Err(err) => return Err(err),
        };
        Ok(SessionBill { energy, amount })
    }

    /// The billed energy.
    pub fn billable_energy(&self) -> (r: KwhMilli)
        ensures
            r@ == self.spec_billed(),
    {
        self.energy.billable()
    }

    /// The consumed energy.
    pub fn total_energy(&self) -> (r: KwhMilli)
        ensures
            r@ == self.spec_total(),
    {
        self.energy.total_consumed()
    }

    /// The amount due.
    pub fn amount_due(&self) -> (r: MoneyYen)
        ensures
            r@ == self.spec_amount(),
    {
        self.amount
    }
}

} // verus!
