use vstd::prelude::*;

use crate::charge_ratio::{prorate, ChargeRatio};
use crate::chargeable_energy::ChargeableEnergy;
use crate::energy::KwhMilli;
use crate::error::SessionValueError;
use crate::grace_period::GracePeriod;

verus! {

/// What remains of `elapsed` milliseconds once `grace` are free: never negative.
pub open spec fn chargeable_span(elapsed: nat, grace: nat) -> nat {
    if elapsed > grace {
        (elapsed - grace) as nat
    } else {
        0
    }
}

/// The milli-kWh of `energy` billed for `chargeable` out of `total`
/// milliseconds: nothing for a free window, otherwise the prorated share.
pub open spec fn allocated(energy: nat, chargeable: nat, total: nat) -> nat {
    if total == 0 || chargeable == 0 {
        0
    } else {
        prorate(energy, chargeable, total)
    }
}

/// The chargeable part of a session's elapsed time, next to the whole.
#[derive(Debug, Clone, Copy, PartialEq, Eq)]
pub struct ChargeableWindow {
    chargeable_millis: u128,
    total_millis: u128,
}

impl ChargeableWindow {
    #[verifier::type_invariant]
    spec fn chargeable_within_total(self) -> bool {
        self.chargeable_millis <= self.total_millis
    }

    /// The chargeable milliseconds.
    pub closed spec fn spec_chargeable_millis(self) -> nat {
        self.chargeable_millis as nat
    }

    /// The total milliseconds.
    pub closed spec fn spec_total_millis(self) -> nat {
        self.total_millis as nat
    }

    /// A window of `chargeable_millis` out of `total_millis`.
    pub fn new(chargeable_millis: u128, total_millis: u128) -> (r: Self)
        requires
            chargeable_millis <= total_millis,
        ensures
            r.spec_chargeable_millis() == chargeable_millis,
            r.spec_total_millis() == total_millis,
    {
        ChargeableWindow { chargeable_millis, total_millis }
    }

    /// The window left of `total_millis` once `grace` is taken off the start.
    pub fn from_timeline(total_millis: u128, grace: GracePeriod) -> (r: Self)
        ensures
            r.spec_chargeable_millis() == chargeable_span(total_millis as nat, grace@),
            r.spec_total_millis() == total_millis,
    {
        let chargeable_millis = total_millis.saturating_sub(grace.millis());
        Self::new(chargeable_millis, total_millis)
    }

    /// Whether nothing of the window is chargeable.
    pub fn is_free(&self) -> (r: bool)
        ensures
            r == (self.spec_chargeable_millis() == 0),
    {
        self.chargeable_millis == 0
    }

    /// The fraction of the window that is chargeable; `InvalidChargeRatio`
    /// for an empty window.
    pub fn ratio(&self) -> (r: Result<ChargeRatio, SessionValueError>)
        ensures
            match r {
                Ok(ratio) => self.spec_total_millis() != 0
                    && ratio.spec_numerator() == self.spec_chargeable_millis()
                    && ratio.spec_denominator() == self.spec_total_millis(),
                Err(err) => self.spec_total_millis() == 0 && err == (
                SessionValueError::InvalidChargeRatio {
                    numerator: self.spec_chargeable_millis() as u128,
                    denominator: 0,
                }),
            },
    {
        ChargeRatio::new(self.chargeable_millis, self.total_millis)
    }

    /// Splits `total_energy` into what this window bills and the rest; it
    /// always succeeds.
    pub fn allocate_energy(&self, total_energy: KwhMilli) -> (r: Result<ChargeableEnergy, SessionValueError>)
        requires
            total_energy@ * self.spec_chargeable_millis() <= u128::MAX,
        ensures
            r matches Ok(e) && e.spec_total() == total_energy@ && e.spec_billed() == allocated(
                total_energy@,
                self.spec_chargeable_millis(),
                self.spec_total_millis(),
            ),
    {
        proof {
            use_type_invariant(self);
        }
        if self.total_millis == 0 || self.is_free() {
            return Ok(ChargeableEnergy::free(total_energy));
        }
        let ratio = match self.ratio() {
            Ok(ratio) => ratio,
            Err(err) => return Err(err),
        };
        proof {
            use_type_invariant(&total_energy);
            lemma_prorate_within(total_energy@, self.spec_chargeable_millis(), self.spec_total_millis());
        }
        let billed = ratio.apply_to(total_energy);
        ChargeableEnergy::new(total_energy, billed)
    }

    /// The chargeable milliseconds.
    pub fn chargeable_millis(&self) -> (r: u128)
        ensures
            r == self.spec_chargeable_millis(),
            r <= self.spec_total_millis(),
    {
        proof {
            use_type_invariant(self);
        }
        self.chargeable_millis
    }

    /// The total milliseconds.
    pub fn total_millis(&self) -> (r: u128)
        ensures
            r == self.spec_total_millis(),
    {
        self.total_millis
    }
}

/// A share of `energy` never exceeds `energy` itself.
pub proof fn lemma_prorate_within(energy: nat, numerator: nat, denominator: nat)
    requires
        numerator <= denominator,
        denominator > 0,
    ensures
        prorate(energy, numerator, denominator) <= energy,
{
    assert(energy * numerator <= energy * denominator) by (nonlinear_arith)
        requires
            numerator <= denominator,
    ;
    assert((energy * numerator) / denominator <= energy) by (nonlinear_arith)
        requires
            energy * numerator <= energy * denominator,
            denominator > 0,
    ;
}

/// A longer span with at least as much energy bills at least as much energy.
pub proof fn lemma_allocated_grows(e1: nat, e2: nat, t1: nat, t2: nat, grace: nat)
    requires
        e1 <= e2,
        0 < t1 <= t2,
    ensures
        allocated(e1, chargeable_span(t1, grace), t1) <= allocated(e2, chargeable_span(t2, grace), t2),
{
    if t1 > grace {
        let c1 = (t1 - grace) as nat;
        let c2 = (t2 - grace) as nat;
        assert(c1 * t2 <= c2 * t1) by (nonlinear_arith)
            requires
                c1 == t1 - grace,
                c2 == t2 - grace,
                t1 <= t2,
        ;
        assert(e1 * c1 * t2 <= e2 * c2 * t1) by (nonlinear_arith)
            requires
                c1 * t2 <= c2 * t1,
                e1 <= e2,
        ;
        let q = (e1 * c1) / t1;
        assert(q * t1 <= e1 * c1) by (nonlinear_arith)
            requires
                t1 > 0,
                q == (e1 * c1) / t1,
        ;
        assert(q * t2 <= e2 * c2) by (nonlinear_arith)
            requires
                q * t1 <= e1 * c1,
                e1 * c1 * t2 <= e2 * c2 * t1,
                t1 > 0,
                t2 > 0,
        ;
        assert(q <= (e2 * c2) / t2) by (nonlinear_arith)
            requires
                q * t2 <= e2 * c2,
                t2 > 0,
        ;
    }
}

} // verus!
