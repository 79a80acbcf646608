use vstd::prelude::*;

use crate::session_id::SessionId;
use crate::timeline::Timestamp;

verus! {

/// Every way in which building a value or billing a session can fail.
#[derive(Debug, Clone, Copy, PartialEq, Eq)]
pub enum SessionValueError {
    /// A raw energy reading was negative.
    NegativeEnergy { provided: i64 },
    /// An energy quantity exceeded the bound that applies to it.
    EnergyOutOfRange { provided: u64, max: u64 },
    /// A rate of zero per kWh was given.
    NonPositiveRate,
    /// The end instant was not strictly after the start instant.
    InvalidTimeline { started_at: Timestamp, ended_at: Timestamp },
    /// An amount of money exceeded the per-session maximum.
    AmountOutOfRange { provided: u64, max: u64 },
    /// A wide intermediate amount did not fit in 64 bits.
    AmountOverflow { provided: u128 },
    /// The session is closed and can no longer be billed or stopped.
    AlreadyClosed { session_id: SessionId },
    /// A charge ratio was built with a zero denominator.
    InvalidChargeRatio { numerator: u128, denominator: u128 },
}

} // verus!
