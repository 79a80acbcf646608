use vstd::prelude::*;

use crate::bill::{bill_from, SessionBill};
use crate::chargeable_energy::ChargeableEnergy;
use crate::energy::KwhMilli;
use crate::error::SessionValueError;
use crate::grace_period::GracePeriod;
use crate::money::MoneyYen;
use crate::rate::{price, RateYenPerKwh};
use crate::session_id::SessionId;
use crate::timeline::{SessionTimeline, Timestamp};
use crate::window::{allocated, chargeable_span, lemma_allocated_grows};
use crate::{FREE_MINUTES, MILLISECONDS_IN_MINUTE};

verus! {

/// Length of the free period at the start of every session, in milliseconds.
pub open spec fn grace_millis() -> nat {
    (FREE_MINUTES * MILLISECONDS_IN_MINUTE) as nat
}

/// The milli-kWh billed out of `energy` for a session that ran from
/// `started_at` to `ended_at`: the share of the time after the free period.
pub open spec fn billed_energy_between(started_at: Timestamp, ended_at: Timestamp, energy: nat) -> nat {
    let elapsed = (ended_at@ - started_at@) as nat;
    allocated(energy, chargeable_span(elapsed, grace_millis()), elapsed)
}

/// What billing a session that started at `started_at` at `rate` gives when
/// it is measured at `ended_at` with `energy` consumed.
pub open spec fn bills_as(
    started_at: Timestamp,
    rate: RateYenPerKwh,
    ended_at: Timestamp,
    energy: KwhMilli,
    r: Result<SessionBill, SessionValueError>,
) -> bool {
    if ended_at@ <= started_at@ {
        r == Err::<SessionBill, SessionValueError>(
            SessionValueError::InvalidTimeline { started_at, ended_at },
        )
    } else {
        bill_from(energy@, billed_energy_between(started_at, ended_at, energy@), rate@, r)
    }
}

/// A charging session: running, or closed with its bill settled.
#[derive(Debug, Clone, PartialEq, Eq)]
pub enum Session {
    /// Charging is in progress.
    Active { id: SessionId, started_at: Timestamp, rate: RateYenPerKwh },
    /// Charging has stopped and the bill is final.
    Closed {
        id: SessionId,
        started_at: Timestamp,
        ended_at: Timestamp,
        rate: RateYenPerKwh,
        bill: SessionBill,
    },
}

impl Session {
    /// The session's identifier, in either state.
    pub open spec fn spec_id(self) -> SessionId {
        match self {
            Session::Active { id, .. } => id,
            Session::Closed { id, .. } => id,
        }
    }

    /// The final bill of a closed session.
    pub open spec fn spec_statement(self) -> Option<SessionBill> {
        match self {
            Session::Active { .. } => None,
            Session::Closed { bill, .. } => Some(bill),
        }
    }

    /// What a snapshot at `ended_at` with `energy` consumed gives: the bill
    /// an active session would have, or `AlreadyClosed` for a closed one.
    pub open spec fn snapshots_as(
        self,
        ended_at: Timestamp,
        energy: KwhMilli,
        r: Result<SessionBill, SessionValueError>,
    ) -> bool {
        match self {
            Session::Active { started_at, rate, .. } => bills_as(started_at, rate, ended_at, energy, r),
            Session::Closed { id, .. } => r == Err::<SessionBill, SessionValueError>(
                SessionValueError::AlreadyClosed { session_id: id },
            ),
        }
    }

    /// What stopping at `ended_at` with `energy` consumed gives: an active
    /// session closes with the bill a snapshot would give, or fails as that
    /// snapshot would; a closed session gives `AlreadyClosed`.
    pub open spec fn stops_as(
        self,
        ended_at: Timestamp,
        energy: KwhMilli,
        r: Result<Session, SessionValueError>,
    ) -> bool {
        match self {
            Session::Active { id, started_at, rate } => match r {
                Ok(closed) => match closed {
                    Session::Closed {
                        id: closed_id,
                        started_at: closed_start,
                        ended_at: closed_end,
                        rate: closed_rate,
                        bill,
                    } => closed_id == id && closed_start == started_at && closed_end == ended_at
                        && closed_rate == rate && bills_as(started_at, rate, ended_at, energy, Ok(bill)),
                    Session::Active { .. } => false,
                },
                Err(err) => bills_as(started_at, rate, ended_at, energy, Err(err)),
            },
            Session::Closed { id, .. } => r == Err::<Session, SessionValueError>(
                SessionValueError::AlreadyClosed { session_id: id },
            ),
        }
    }

    /// A running session.
    pub fn new_active(id: SessionId, started_at: Timestamp, rate: RateYenPerKwh) -> (r: Self)
        ensures
            r == (Session::Active { id, started_at, rate }),
    {
        Session::Active { id, started_at, rate }
    }

    /// Stops the session and settles its bill; the running session is
    /// consumed either way.
    pub fn stop(self, ended_at: Timestamp, total_energy: KwhMilli) -> (r: Result<Self, SessionValueError>)
        ensures
            self.stops_as(ended_at, total_energy, r),
    {
        match self {
            Session::Active { id, started_at, rate } => {
                let bill = match Self::bill_snapshot_for(started_at, rate, ended_at, total_energy) {
                    Ok(bill) => bill,
                    Err(err) => return Err(err),
                };
                Ok(Session::Closed { id, started_at, ended_at, rate, bill })
            },
            Session::Closed { id, .. } => Err(SessionValueError::AlreadyClosed { session_id: id }),
        }
    }

    /// The bill the session would have if it stopped at `ended_at` with
    /// `total_energy` consumed; the session itself is left as it is.
    pub fn bill_snapshot(&self, ended_at: Timestamp, total_energy: KwhMilli) -> (r: Result<
        SessionBill,
        SessionValueError,
    >)
        ensures
            self.snapshots_as(ended_at, total_energy, r),
    {
        match self {
            Session::Active { started_at, rate, .. } => {
                Self::bill_snapshot_for(*started_at, *rate, ended_at, total_energy)
            },
            Session::Closed { id, .. } => Err(SessionValueError::AlreadyClosed { session_id: *id }),
        }
    }

    /// Billing requested after the session may have stopped: a snapshot while
    /// it runs, `AlreadyClosed` once it is closed.
    pub fn bill_after_stop(&self, ended_at: Timestamp, total_energy: KwhMilli) -> (r: Result<
        SessionBill,
        SessionValueError,
    >)
        ensures
            self.snapshots_as(ended_at, total_energy, r),
    {
        match self {
            Session::Active { .. } => self.bill_snapshot(ended_at, total_energy),
            Session::Closed { id, .. } => Err(SessionValueError::AlreadyClosed { session_id: *id }),
        }
    }

    /// The session's identifier.
    pub fn identity(&self) -> (r: SessionId)
        ensures
            r == self.spec_id(),
    {
        match self {
            Session::Active { id, .. } => *id,
            Session::Closed { id, .. } => *id,
        }
    }

    /// The final bill: `None` while the session runs.
    pub fn statement(&self) -> (r: Option<&SessionBill>)
        ensures
            match self.spec_statement() {
                Some(bill) => r == Some(&bill),
                None => r is None,
            },
    {
        match self {
            Session::Active { .. } => None,
            Session::Closed { bill, .. } => Some(bill),
        }
    }

    /// The session's identifier.
    pub fn id(&self) -> (r: SessionId)
        ensures
            r == self.spec_id(),
    {
        self.identity()
    }

    /// When the session started.
    pub fn started_at(&self) -> (r: Timestamp)
        ensures
            r == match self {
                Session::Active { started_at, .. } => started_at,
                Session::Closed { started_at, .. } => started_at,
            },
    {
        match self {
            Session::Active { started_at, .. } => *started_at,
            Session::Closed { started_at, .. } => *started_at,
        }
    }

    /// When the session stopped: `None` while it runs.
    pub fn ended_at(&self) -> (r: Option<Timestamp>)
        ensures
            r == match self {
                Session::Active { .. } => None,
                Session::Closed { ended_at, .. } => Some(*ended_at),
            },
    {
        match self {
            Session::Active { .. } => None,
            Session::Closed { ended_at, .. } => Some(*ended_at),
        }
    }

    /// The price per kWh.
    pub fn rate(&self) -> (r: RateYenPerKwh)
        ensures
            r == match self {
                Session::Active { rate, .. } => rate,
                Session::Closed { rate, .. } => rate,
            },
    {
        match self {
            Session::Active { rate, .. } => *rate,
            Session::Closed { rate, .. } => *rate,
        }
    }

    /// The energy consumed by a closed session: `None` while it runs.
    pub fn total_energy(&self) -> (r: Option<KwhMilli>)
        ensures
            match self.spec_statement() {
                Some(bill) => r matches Some(e) && e@ == bill.spec_total(),
                None => r is None,
            },
    {
        match self {
            Session::Active { .. } => None,
            Session::Closed { bill, .. } => Some(bill.total_energy()),
        }
    }

    /// The energy billed to a closed session: `None` while it runs.
    pub fn billed_energy(&self) -> (r: Option<KwhMilli>)
        ensures
            match self.spec_statement() {
                Some(bill) => r matches Some(e) && e@ == bill.spec_billed(),
                None => r is None,
            },
    {
        match self {
            Session::Active { .. } => None,
            Session::Closed { bill, .. } => Some(bill.billable_energy()),
        }
    }

    /// The amount charged to a closed session: `None` while it runs.
    pub fn charged_amount(&self) -> (r: Option<MoneyYen>)
        ensures
            match self.spec_statement() {
                Some(bill) => r matches Some(m) && m@ == bill.spec_amount(),
                None => r is None,
            },
    {
        match self {
            Session::Active { .. } => None,
            Session::Closed { bill, .. } => Some(bill.amount_due()),
        }
    }

    /// The free period that every session starts with.
    fn grace_period() -> (r: GracePeriod)
        ensures
            r@ == grace_millis(),
    {
        GracePeriod::from_minutes(FREE_MINUTES)
    }

    /// The energy split for a session from `started_at` to `ended_at`.
    fn billed_energy_for(started_at: Timestamp, ended_at: Timestamp, total_energy: KwhMilli) -> (r: Result<
        ChargeableEnergy,
        SessionValueError,
    >)
        ensures
            match r {
                Ok(e) => started_at@ < ended_at@ && e.spec_total() == total_energy@ && e.spec_billed()
                    == billed_energy_between(started_at, ended_at, total_energy@),
                Err(err) => ended_at@ <= started_at@ && err == (SessionValueError::InvalidTimeline {
                    started_at,
                    ended_at,
                }),
            },
    {
        let timeline = match SessionTimeline::between(started_at, ended_at) {
            Ok(timeline) => timeline,
            Err(err) => return Err(err),
        };
        let window = timeline.consume_grace_period(Self::grace_period());
        proof {
            use_type_invariant(&total_energy);
            let c = window.spec_chargeable_millis();
            assert(c <= u64::MAX);
            assert(total_energy@ * c <= 1_000_000 * 0xffff_ffff_ffff_ffff) by (nonlinear_arith)
                requires
                    total_energy@ <= 1_000_000,
                    c <= 0xffff_ffff_ffff_ffff,
            ;
        }
        ChargeableEnergy::allocate(total_energy, window)
    }

    /// The bill for a session from `started_at` to `ended_at` at `rate`.
    fn bill_snapshot_for(
        started_at: Timestamp,
        rate: RateYenPerKwh,
        ended_at: Timestamp,
        total_energy: KwhMilli,
    ) -> (r: Result<SessionBill, SessionValueError>)
        ensures
            bills_as(started_at, rate, ended_at, total_energy, r),
    {
        let energy = match Self::billed_energy_for(started_at, ended_at, total_energy) {
            Ok(energy) => energy,
            Err(err) => return Err(err),
        };
        SessionBill::settle(energy, rate)
    }
}

/// A running session has no statement; a closed session always has one,
/// and it is the bill recorded when the session closed, whenever it is read.
pub proof fn lemma_statement_follows_state(s: Session)
    ensures
        s is Active ==> s.spec_statement() is None,
        match s {
            Session::Closed { bill, .. } => s.spec_statement() == Some(bill),
            Session::Active { .. } => true,
        },
{
}

/// Stopping records exactly the bill that a snapshot with the same end
/// instant and energy gives, and fails exactly when that snapshot fails.
pub proof fn lemma_stop_records_snapshot(
    s: Session,
    ended_at: Timestamp,
    energy: KwhMilli,
    stopped: Result<Session, SessionValueError>,
    snapshot: Result<SessionBill, SessionValueError>,
)
    requires
        s is Active,
        s.stops_as(ended_at, energy, stopped),
        s.snapshots_as(ended_at, energy, snapshot),
    ensures
        match (stopped, snapshot) {
            (Ok(closed), Ok(bill)) => closed is Closed && closed.spec_statement() == Some(bill),
            (Err(e1), Err(e2)) => e1 == e2,
            _ => false,
        },
{
    match (stopped, snapshot) {
        (Ok(closed), Ok(bill)) => {
            if let Session::Closed { bill: recorded, .. } = closed {
                SessionBill::lemma_view_determines(recorded, bill);
            }
        },
        _ => {},
    }
}

/// Snapshots are repeatable: two snapshots of one session with the same end
/// instant and energy give the same result.
pub proof fn lemma_snapshot_repeatable(
    s: Session,
    ended_at: Timestamp,
    energy: KwhMilli,
    first: Result<SessionBill, SessionValueError>,
    second: Result<SessionBill, SessionValueError>,
)
    requires
        s.snapshots_as(ended_at, energy, first),
        s.snapshots_as(ended_at, energy, second),
    ensures
        first == second,
{
    if let (Ok(a), Ok(b)) = (first, second) {
        SessionBill::lemma_view_determines(a, b);
    }
}

/// Stopping is deterministic: two running sessions with the same start and
/// rate, stopped with the same inputs, close with the same bill or fail with
/// the same error, whatever their identifiers.
pub proof fn lemma_stop_deterministic(
    a: Session,
    b: Session,
    ended_at: Timestamp,
    energy: KwhMilli,
    stopped_a: Result<Session, SessionValueError>,
    stopped_b: Result<Session, SessionValueError>,
)
    requires
        a matches Session::Active { started_at: start_a, rate: rate_a, .. } && b matches Session::Active {
            started_at: start_b,
            rate: rate_b,
            ..
        } && start_a == start_b && rate_a == rate_b,
        a.stops_as(ended_at, energy, stopped_a),
        b.stops_as(ended_at, energy, stopped_b),
    ensures
        match (stopped_a, stopped_b) {
            (Ok(x), Ok(y)) => x.spec_statement() == y.spec_statement() && x.spec_statement() is Some,
            (Err(x), Err(y)) => x == y,
            _ => false,
        },
{
    if let (Ok(x), Ok(y)) = (stopped_a, stopped_b) {
        if let (Session::Closed { bill: bx, .. }, Session::Closed { bill: by, .. }) = (x, y) {
            SessionBill::lemma_view_determines(bx, by);
        }
    }
}

/// Billing never decreases as a session goes on: for one running session, a
/// later end instant with at least as much energy bills at least as much
/// energy and money, and succeeds whenever the later snapshot succeeds.
pub proof fn lemma_billing_monotonic(
    s: Session,
    end1: Timestamp,
    energy1: KwhMilli,
    end2: Timestamp,
    energy2: KwhMilli,
    first: Result<SessionBill, SessionValueError>,
    second: Result<SessionBill, SessionValueError>,
)
    requires
        s matches Session::Active { started_at, .. } && started_at@ < end1@ <= end2@,
        energy1@ <= energy2@,
        s.snapshots_as(end1, energy1, first),
        s.snapshots_as(end2, energy2, second),
    ensures
        second is Ok ==> first is Ok,
        match (first, second) {
            (Ok(b1), Ok(b2)) => b1.spec_billed() <= b2.spec_billed() && b1.spec_amount() <= b2.spec_amount(),
            _ => true,
        },
{
    if let Session::Active { started_at, rate, .. } = s {
        let t1 = (end1@ - started_at@) as nat;
        let t2 = (end2@ - started_at@) as nat;
        lemma_allocated_grows(energy1@, energy2@, t1, t2, grace_millis());
        let billed1 = billed_energy_between(started_at, end1, energy1@);
        let billed2 = billed_energy_between(started_at, end2, energy2@);
        lemma_price_grows(billed1, billed2, rate@);
    }
}

/// A higher energy never costs less at one rate.
proof fn lemma_price_grows(billed1: nat, billed2: nat, rate: nat)
    requires
        billed1 <= billed2,
    ensures
        price(billed1, rate) <= price(billed2, rate),
{
    assert(billed1 * rate <= billed2 * rate) by (nonlinear_arith)
        requires
            billed1 <= billed2,
    ;
    assert((billed1 * rate) / 1000 <= (billed2 * rate) / 1000) by (nonlinear_arith)
        requires
            billed1 * rate <= billed2 * rate,
    ;
}

/// Within the free period nothing is billed: a snapshot that ends no later
/// than the grace period after the start succeeds with no energy and no money.
pub proof fn lemma_free_within_grace(
    s: Session,
    ended_at: Timestamp,
    energy: KwhMilli,
    r: Result<SessionBill, SessionValueError>,
)
    requires
        s matches Session::Active { started_at, .. } && started_at@ < ended_at@ <= started_at@
            + grace_millis(),
        s.snapshots_as(ended_at, energy, r),
    ensures
        r matches Ok(bill) && bill.spec_billed() == 0 && bill.spec_amount() == 0,
{
    if let Session::Active { rate, .. } = s {
        assert(price(0, rate@) == 0) by (nonlinear_arith);
    }
}

/// One millisecond past the free period, the billed energy is the consumed
/// energy divided by the elapsed milliseconds, rounded down; it is positive
/// once the energy reaches that many milli-kWh.
pub proof fn lemma_first_chargeable_millisecond(
    s: Session,
    ended_at: Timestamp,
    energy: KwhMilli,
    r: Result<SessionBill, SessionValueError>,
)
    requires
        s matches Session::Active { started_at, .. } && ended_at@ == started_at@ + grace_millis() + 1,
        energy@ >= grace_millis() + 1,
        s.snapshots_as(ended_at, energy, r),
    ensures
        s matches Session::Active { started_at, .. } && billed_energy_between(started_at, ended_at, energy@)
            == energy@ / (grace_millis() + 1) > 0,
        r matches Ok(bill) ==> bill.spec_billed() == energy@ / (grace_millis() + 1),
{
    let elapsed = grace_millis() + 1;
    assert((energy@ * 1) / elapsed == energy@ / elapsed);
    assert(energy@ / elapsed > 0) by (nonlinear_arith)
        requires
            energy@ >= elapsed,
            elapsed > 0,
    ;
}

/// A session can never end at or before its start: both stopping and taking a
/// snapshot fail with `InvalidTimeline` naming the two instants.
pub proof fn lemma_reversed_timeline_rejected(
    s: Session,
    ended_at: Timestamp,
    energy: KwhMilli,
    stopped: Result<Session, SessionValueError>,
    snapshot: Result<SessionBill, SessionValueError>,
)
    requires
        s matches Session::Active { started_at, .. } && ended_at@ <= started_at@,
        s.stops_as(ended_at, energy, stopped),
        s.snapshots_as(ended_at, energy, snapshot),
    ensures
        s matches Session::Active { started_at, .. } && stopped == Err::<Session, SessionValueError>(
            SessionValueError::InvalidTimeline { started_at, ended_at },
        ) && snapshot == Err::<SessionBill, SessionValueError>(
            SessionValueError::InvalidTimeline { started_at, ended_at },
        ),
{
}

/// A closed session refuses every further operation: stopping, taking a
/// snapshot and billing after stop all fail with `AlreadyClosed` naming it.
pub proof fn lemma_closed_rejects_billing(
    s: Session,
    ended_at: Timestamp,
    energy: KwhMilli,
    stopped: Result<Session, SessionValueError>,
    snapshot: Result<SessionBill, SessionValueError>,
)
    requires
        s is Closed,
        s.stops_as(ended_at, energy, stopped),
        s.snapshots_as(ended_at, energy, snapshot),
    ensures
        stopped == Err::<Session, SessionValueError>(SessionValueError::AlreadyClosed { session_id: s.spec_id() }),
        snapshot == Err::<SessionBill, SessionValueError>(
            SessionValueError::AlreadyClosed { session_id: s.spec_id() },
        ),
{
}

} // verus!
