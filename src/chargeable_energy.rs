use vstd::prelude::*;

use crate::energy::KwhMilli;
use crate::error::SessionValueError;
use crate::window::{allocated, lemma_prorate_within, ChargeableWindow};
use crate::MAX_KWH_MILLI;

verus! {

/// The energy a session consumed, next to the part of it that is billed.
#[derive(Debug, Clone, Copy, PartialEq, Eq)]
pub struct ChargeableEnergy {
    total: KwhMilli,
    billed: KwhMilli,
}

/// What pairing `total` with `billed` gives.
pub open spec fn split_from(
    total: KwhMilli,
    billed: KwhMilli,
    r: Result<ChargeableEnergy, SessionValueError>,
) -> bool {
    match r {
        Ok(e) => billed@ <= total@ && e.spec_total() == total@ && e.spec_billed() == billed@,
        Err(err) => billed@ > total@ && err == (SessionValueError::EnergyOutOfRange {
            provided: billed@ as u64,
            max: total@ as u64,
        }),
    }
}

impl ChargeableEnergy {
    /// A valid split bills no more than was consumed, and no more than the
    /// energy limit allows.
    #[verifier::type_invariant]
    pub open spec fn wf(self) -> bool {
        self.spec_billed() <= self.spec_total() <= MAX_KWH_MILLI
    }

    /// Milli-kWh consumed.
    pub closed spec fn spec_total(self) -> nat {
        self.total@
    }

    /// Milli-kWh billed.
    pub closed spec fn spec_billed(self) -> nat {
        self.billed@
    }

    /// In every valid split the billed energy is at most the total energy.
    pub proof fn lemma_billed_within_total(e: ChargeableEnergy)
        requires
            e.wf(),
        ensures
            e.spec_billed() <= e.spec_total(),
            e.spec_total() <= MAX_KWH_MILLI,
    {
    }

    /// Two splits with the same total and billed energy are the same value.
    pub proof fn lemma_view_determines(a: ChargeableEnergy, b: ChargeableEnergy)
        requires
            a.spec_total() == b.spec_total(),
            a.spec_billed() == b.spec_billed(),
        ensures
            a == b,
    {
        KwhMilli::lemma_view_determines(a.total, b.total);
        KwhMilli::lemma_view_determines(a.billed, b.billed);
    }

    /// Nothing of `total` is billed.
    pub fn free(total: KwhMilli) -> (r: Self)
        ensures
            r.spec_total() == total@,
            r.spec_billed() == 0,
    {
        proof {
            use_type_invariant(&total);
        }
        ChargeableEnergy { total, billed: KwhMilli::zero() }
    }

    /// `billed` out of `total`; `EnergyOutOfRange` when more is billed than
    /// was consumed.
    pub fn new(total: KwhMilli, billed: KwhMilli) -> (r: Result<Self, SessionValueError>)
        ensures
            split_from(total, billed, r),
    {
        proof {
            use_type_invariant(&total);
        }
        if billed.value() > total.value() {
            return Err(SessionValueError::EnergyOutOfRange { provided: billed.value(), max: total.value() });
        }
        Ok(ChargeableEnergy { total, billed })
    }

    /// Splits `total_energy` by `window`; it always succeeds.
    pub fn allocate(total_energy: KwhMilli, window: ChargeableWindow) -> (r: Result<Self, SessionValueError>)
        requires
            total_energy@ * window.spec_chargeable_millis() <= u128::MAX,
        ensures
            r matches Ok(e) && e.spec_total() == total_energy@ && e.spec_billed() == allocated(
                total_energy@,
                window.spec_chargeable_millis(),
                window.spec_total_millis(),
            ),
    {
        window.allocate_energy(total_energy)
    }

    /// Splits `total_energy` by `chargeable_millis` out of `total_millis`,
    /// counting at most the whole span as chargeable; it always succeeds.
    pub fn from_chargeable_window(total_energy: KwhMilli, chargeable_millis: u128, total_millis: u128) -> (r:
        Result<Self, SessionValueError>)
        requires
            total_energy@ * (if chargeable_millis <= total_millis {
                chargeable_millis
            } else {
                total_millis
            }) <= u128::MAX,
        ensures
            r matches Ok(e) && e.spec_total() == total_energy@ && e.spec_billed() == allocated(
                total_energy@,
                if chargeable_millis <= total_millis { chargeable_millis as nat } else { total_millis as nat },
                total_millis as nat,
            ),
    {
        if total_millis == 0 {
            return Self::new(total_energy, KwhMilli::zero());
        }
        let effective_chargeable = if chargeable_millis <= total_millis {
            chargeable_millis
        } else {
            total_millis
        };
        if effective_chargeable == 0 {
            return Self::new(total_energy, KwhMilli::zero());
        }
        let total_energy_milli = total_energy.into_u128_milli();
        let billed_milli = (total_energy_milli * effective_chargeable) / total_millis;
        proof {
            lemma_prorate_within(total_energy@, effective_chargeable as nat, total_millis as nat);
        }
        let billed = KwhMilli::from_milli(billed_milli as u64);
        Self::new(total_energy, billed)
    }

    /// The sum of two splits; `EnergyOutOfRange` when the summed total passes
    /// the energy limit.
    pub fn combine(self, other: Self) -> (r: Result<Self, SessionValueError>)
        ensures
            match r {
                Ok(e) => self.spec_total() + other.spec_total() <= MAX_KWH_MILLI
                    && e.spec_total() == self.spec_total() + other.spec_total()
                    && e.spec_billed() == self.spec_billed() + other.spec_billed(),
                Err(err) => self.spec_total() + other.spec_total() > MAX_KWH_MILLI && err == (
                SessionValueError::EnergyOutOfRange {
                    provided: (self.spec_total() + other.spec_total()) as u64,
                    max: MAX_KWH_MILLI,
                }),
            },
    {
        proof {
            use_type_invariant(&self);
            use_type_invariant(&other);
        }
        let total = match self.total.bounded_sum(other.total) {
            Ok(total) => total,
            Err(err) => return Err(err),
        };
        let billed = match self.billed.bounded_sum(other.billed) {
            Ok(billed) => billed,
            Err(err) => return Err(err),
        };
        Self::new(total, billed)
    }

    /// The billed energy.
    pub fn billable(self) -> (r: KwhMilli)
        ensures
            r@ == self.spec_billed(),
            r@ <= self.spec_total(),
    {
        proof {
            use_type_invariant(&self);
        }
        self.billed
    }

    /// The consumed energy.
    pub fn total_consumed(self) -> (r: KwhMilli)
        ensures
            r@ == self.spec_total(),
    {
        self.total
    }

    /// The billed energy.
    pub fn billed(self) -> (r: KwhMilli)
        ensures
            r@ == self.spec_billed(),
            r@ <= self.spec_total(),
    {
        self.billable()
    }

    /// The consumed energy.
    pub fn total(self) -> (r: KwhMilli)
        ensures
            r@ == self.spec_total(),
    {
        self.total_consumed()
    }
}

} // verus!
