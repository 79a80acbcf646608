//! Billing core for metered charging sessions.
//!
//! Every value object validates its invariants when it is built, and the
//! session state machine computes a bill exactly once, when it closes.
use vstd::prelude::*;

pub mod bill;
pub mod bounded;
pub mod charge_ratio;
pub mod chargeable_energy;
pub mod energy;
pub mod money;
pub mod rate;
pub mod error;
pub mod grace_period;
pub mod session;
pub mod session_id;
pub mod timeline;
pub mod window;

pub use bill::SessionBill;
pub use bounded::BoundedU64;
pub use charge_ratio::ChargeRatio;
pub use chargeable_energy::ChargeableEnergy;
pub use energy::KwhMilli;
pub use money::MoneyYen;
pub use rate::RateYenPerKwh;
pub use error::SessionValueError;
pub use grace_period::GracePeriod;
pub use session::Session;
pub use session_id::SessionId;
pub use timeline::{SessionTimeline, Timestamp};
pub use window::ChargeableWindow;

verus! {

/// Most energy a session may record: 1,000 kWh, in milli-kWh.
pub const MAX_KWH_MILLI: u64 = 1_000_000;

/// Most money a session may be charged, in currency units.
pub const MAX_YEN: u64 = 1_000_000;

/// Milliseconds in one minute.
pub const MILLISECONDS_IN_MINUTE: u128 = 60_000;

/// Length of the free period at the start of every session, in minutes.
pub const FREE_MINUTES: u128 = 5;

} // verus!
