use charge_billing::{
    BoundedU64, ChargeRatio, ChargeableEnergy, ChargeableWindow, GracePeriod, KwhMilli, MoneyYen, RateYenPerKwh,
    SessionBill, SessionId, SessionTimeline, SessionValueError, Timestamp,
};

fn energy(milli: u64) -> KwhMilli {
    KwhMilli::try_new(milli).unwrap()
}

fn money(units: u64) -> MoneyYen {
    MoneyYen::try_new(units).unwrap()
}

fn rate(units: u32) -> RateYenPerKwh {
    RateYenPerKwh::try_new(units).unwrap()
}

fn at(millis: i64) -> Timestamp {
    Timestamp::from_epoch_millis(millis)
}

#[test]
fn bounded_accepts_its_ceiling_and_rejects_above() {
    let top = BoundedU64::<10>::new(10).unwrap();
    assert_eq!(top.get(), 10);
    assert_eq!(u64::from(top), 10);
    assert!(BoundedU64::<10>::new(11).is_none());
    assert_eq!(BoundedU64::<10>::new(0).map(|b| b.get()), Some(0));
}

#[test]
fn energy_limits_and_errors() {
    assert_eq!(KwhMilli::new(1_000_000).map(|e| e.value()), Ok(1_000_000));
    assert_eq!(
        KwhMilli::new(1_000_001),
        Err(SessionValueError::EnergyOutOfRange { provided: 1_000_001, max: 1_000_000 })
    );
    assert_eq!(KwhMilli::try_from_i64(-1), Err(SessionValueError::NegativeEnergy { provided: -1 }));
    assert_eq!(
        KwhMilli::try_from_i64(i64::MAX),
        Err(SessionValueError::EnergyOutOfRange { provided: i64::MAX as u64, max: 1_000_000 })
    );
    assert_eq!(KwhMilli::try_from_i64(0).map(u64::from), Ok(0));
    assert_eq!(KwhMilli::try_from_i64(1_000_000).map(u64::from), Ok(1_000_000));
    assert_eq!(KwhMilli::zero().value(), 0);
}

#[test]
fn energy_sum_is_checked() {
    assert_eq!(energy(600_000).bounded_sum(energy(400_000)).map(u64::from), Ok(1_000_000));
    assert_eq!(
        energy(600_000).bounded_sum(energy(400_001)),
        Err(SessionValueError::EnergyOutOfRange { provided: 1_000_001, max: 1_000_000 })
    );
}

#[test]
fn money_limits_and_sums() {
    assert_eq!(MoneyYen::new(1_000_000).map(u64::from), Ok(1_000_000));
    assert_eq!(
        MoneyYen::new(1_000_001),
        Err(SessionValueError::AmountOutOfRange { provided: 1_000_001, max: 1_000_000 })
    );
    assert_eq!(money(300).add(money(200)).map(u64::from), Ok(500));
    assert_eq!(
        money(600_000).add(money(400_001)),
        Err(SessionValueError::AmountOutOfRange { provided: 1_000_001, max: 1_000_000 })
    );
    assert_eq!(money(999_999).saturating_add(money(1)).map(u64::from), Ok(1_000_000));
    assert!(money(1).is_positive());
    assert!(!MoneyYen::zero().is_positive());
    assert!(MoneyYen::zero().is_zero());
    assert!(!money(1).is_zero());
}

#[test]
fn rate_must_be_positive() {
    assert_eq!(RateYenPerKwh::new(0), Err(SessionValueError::NonPositiveRate));
    assert_eq!(RateYenPerKwh::try_new(0), Err(SessionValueError::NonPositiveRate));
    assert_eq!(rate(30).value(), 30);
    assert_eq!(u32::from(rate(u32::MAX)), u32::MAX);
}

#[test]
fn rate_charges_floor_of_energy_times_rate() {
    assert_eq!(rate(50).charge(energy(400)).map(u64::from), Ok(20));
    assert_eq!(rate(30).charge(energy(91_666)).map(u64::from), Ok(2_749));
    assert_eq!(rate(1).charge(energy(999)).map(u64::from), Ok(0));
    assert_eq!(rate(1_000).charge(energy(1_000_000)).map(u64::from), Ok(1_000_000));
    assert_eq!(
        rate(1_001).charge(energy(999_002)),
        Err(SessionValueError::AmountOutOfRange { provided: 1_000_001, max: 1_000_000 })
    );
    assert_eq!(
        rate(u32::MAX).charge(energy(1_000_000)),
        Err(SessionValueError::AmountOutOfRange { provided: 4_294_967_295_000, max: 1_000_000 })
    );
}

#[test]
fn session_id_bits() {
    assert!(SessionId::new(0).is_nil());
    assert!(!SessionId::new(1).is_nil());
    assert_eq!(SessionId::new(u128::MAX).value(), u128::MAX);
}

#[test]
fn timestamp_round_trip() {
    assert_eq!(at(-5).epoch_millis(), -5);
    assert_eq!(at(1_700_000_000_000).epoch_millis(), 1_700_000_000_000);
}

#[test]
fn timeline_needs_end_after_start() {
    assert_eq!(SessionTimeline::between(at(0), at(360_000)).map(|t| t.elapsed_millis()), Ok(360_000));
    assert_eq!(
        SessionTimeline::between(at(5), at(5)),
        Err(SessionValueError::InvalidTimeline { started_at: at(5), ended_at: at(5) })
    );
    assert_eq!(
        SessionTimeline::between(at(10), at(9)),
        Err(SessionValueError::InvalidTimeline { started_at: at(10), ended_at: at(9) })
    );
    assert_eq!(
        SessionTimeline::between(at(i64::MIN), at(i64::MAX)).map(|t| t.elapsed_millis()),
        Ok(u64::MAX as u128)
    );
}

#[test]
fn grace_period_lengths() {
    let grace = GracePeriod::from_minutes(5);
    assert_eq!(grace.millis(), 300_000);
    assert!(!grace.is_zero());
    assert!(GracePeriod::from_millis(0).is_zero());
}

#[test]
fn consuming_the_grace_period() {
    let grace = GracePeriod::from_minutes(5);
    let window = SessionTimeline::between(at(0), at(360_000)).unwrap().consume_grace_period(grace);
    assert_eq!(window.chargeable_millis(), 60_000);
    assert_eq!(window.total_millis(), 360_000);
    assert!(!window.is_free());

    let free = SessionTimeline::between(at(0), at(300_000)).unwrap().consume_grace_period(grace);
    assert_eq!(free.chargeable_millis(), 0);
    assert!(free.is_free());

    let short = ChargeableWindow::from_timeline(200_000, grace);
    assert_eq!(short.chargeable_millis(), 0);
    assert_eq!(short.total_millis(), 200_000);
}

#[test]
fn window_ratio_and_allocation() {
    let window = ChargeableWindow::new(60_000, 360_000);
    let ratio = window.ratio().unwrap();
    assert_eq!(ratio.numerator(), 60_000);
    assert_eq!(ratio.denominator(), 360_000);

    let split = window.allocate_energy(energy(2_400)).unwrap();
    assert_eq!(split.billable().value(), 400);
    assert_eq!(split.total_consumed().value(), 2_400);

    let free = ChargeableWindow::new(0, 300_000).allocate_energy(energy(3_000)).unwrap();
    assert_eq!(free.billable().value(), 0);
    assert_eq!(free.total_consumed().value(), 3_000);

    let empty = ChargeableWindow::new(0, 0);
    assert_eq!(empty.ratio(), Err(SessionValueError::InvalidChargeRatio { numerator: 0, denominator: 0 }));
    assert_eq!(empty.allocate_energy(energy(10)).map(|e| e.billed().value()), Ok(0));
}

#[test]
fn charge_ratio_rounds_down_once() {
    assert_eq!(ChargeRatio::new(1, 0), Err(SessionValueError::InvalidChargeRatio { numerator: 1, denominator: 0 }));
    assert_eq!(ChargeRatio::new(1, 6).unwrap().apply_to(energy(2_400)).value(), 400);
    assert_eq!(ChargeRatio::new(1, 3).unwrap().apply_to(energy(1_000)).value(), 333);
    assert_eq!(ChargeRatio::new(55, 60).unwrap().apply_to(energy(100_000)).value(), 91_666);
    let zero = ChargeRatio::new(0, 6).unwrap();
    assert!(zero.is_zero());
    assert_eq!(zero.apply_to(energy(2_400)).value(), 0);
    assert!(!ChargeRatio::new(1, 6).unwrap().is_zero());
}

#[test]
fn chargeable_energy_pairs() {
    assert_eq!(
        ChargeableEnergy::new(energy(100), energy(101)),
        Err(SessionValueError::EnergyOutOfRange { provided: 101, max: 100 })
    );
    let equal = ChargeableEnergy::new(energy(100), energy(100)).unwrap();
    assert_eq!(equal.billed().value(), 100);
    assert_eq!(equal.total().value(), 100);

    let free = ChargeableEnergy::free(energy(700));
    assert_eq!(free.billed().value(), 0);
    assert_eq!(free.total().value(), 700);

    let window = ChargeableWindow::new(60_000, 360_000);
    let allocated = ChargeableEnergy::allocate(energy(2_400), window).unwrap();
    assert_eq!(allocated.billable().value(), 400);
}

#[test]
fn chargeable_energy_from_window_millis() {
    let long = ChargeableEnergy::from_chargeable_window(energy(100_000), 3_300_000, 3_600_000).unwrap();
    assert_eq!(long.billed().value(), 91_666);
    assert_eq!(long.total().value(), 100_000);

    let clamped = ChargeableEnergy::from_chargeable_window(energy(1_000), 10, 5).unwrap();
    assert_eq!(clamped.billed().value(), 1_000);

    let huge = ChargeableEnergy::from_chargeable_window(energy(2), u128::MAX, 1).unwrap();
    assert_eq!(huge.billed().value(), 2);
    assert_eq!(huge.total().value(), 2);

    let empty = ChargeableEnergy::from_chargeable_window(energy(1_000), 0, 0).unwrap();
    assert_eq!(empty.billed().value(), 0);

    let free = ChargeableEnergy::from_chargeable_window(energy(1_000), 0, 300_000).unwrap();
    assert_eq!(free.billed().value(), 0);
}

#[test]
fn chargeable_energy_combines() {
    let a = ChargeableEnergy::new(energy(100), energy(50)).unwrap();
    let b = ChargeableEnergy::new(energy(200), energy(70)).unwrap();
    let sum = a.combine(b).unwrap();
    assert_eq!(sum.total().value(), 300);
    assert_eq!(sum.billed().value(), 120);

    let big = ChargeableEnergy::new(energy(600_000), energy(0)).unwrap();
    let more = ChargeableEnergy::new(energy(400_001), energy(1)).unwrap();
    assert_eq!(big.combine(more), Err(SessionValueError::EnergyOutOfRange { provided: 1_000_001, max: 1_000_000 }));
}

#[test]
fn session_bill_settles_and_merges() {
    let split = ChargeableEnergy::new(energy(2_400), energy(400)).unwrap();
    let bill = SessionBill::settle(split, rate(50)).unwrap();
    assert_eq!(bill.billable_energy().value(), 400);
    assert_eq!(bill.total_energy().value(), 2_400);
    assert_eq!(bill.amount_due().value(), 20);

    let other = SessionBill::settle(ChargeableEnergy::new(energy(1_000), energy(600)).unwrap(), rate(50)).unwrap();
    let merged = bill.merge(other).unwrap();
    assert_eq!(merged.total_energy().value(), 3_400);
    assert_eq!(merged.billable_energy().value(), 1_000);
    assert_eq!(merged.amount_due().value(), 50);

    let over = ChargeableEnergy::new(energy(500_000), energy(500_000)).unwrap();
    assert_eq!(
        SessionBill::settle(over, rate(2_001)),
        Err(SessionValueError::AmountOutOfRange { provided: 1_000_500, max: 1_000_000 })
    );

    let max_bill = SessionBill::settle(over, rate(2_000)).unwrap();
    assert_eq!(max_bill.amount_due().value(), 1_000_000);
    let small = SessionBill::settle(ChargeableEnergy::new(energy(1_000), energy(1_000)).unwrap(), rate(2_000)).unwrap();
    assert_eq!(
        max_bill.merge(small),
        Err(SessionValueError::AmountOutOfRange { provided: 1_002_000, max: 1_000_000 })
    );
    let heavy = SessionBill::settle(ChargeableEnergy::new(energy(600_000), energy(0)).unwrap(), rate(1)).unwrap();
    assert_eq!(
        heavy.merge(heavy),
        Err(SessionValueError::EnergyOutOfRange { provided: 1_200_000, max: 1_000_000 })
    );
}
