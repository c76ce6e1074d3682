use aesynx::bytecode::{
    Fuel, FuelError, MAX_FUEL, UncheckedOffset, UncheckedTarget, Verifier, VerifyError,
};

#[test]
fn consume_decrements_fuel_until_exhausted() {
    let mut fuel = match Fuel::new(2) {
        Ok(fuel) => fuel,
        Err(error) => return assert_eq!(error, FuelError::ExceedsLimit),
    };

    assert_eq!(fuel.consume(), Ok(()));
    assert_eq!(fuel.remaining(), 1);
    assert_eq!(fuel.consume(), Ok(()));
    assert_eq!(fuel.remaining(), 0);
    assert_eq!(fuel.consume(), Err(FuelError::Exhausted));
}

#[test]
fn fuel_rejects_values_above_limit() {
    assert_eq!(Fuel::new(MAX_FUEL + 1), Err(FuelError::ExceedsLimit));
}

#[test]
fn verifier_bounds_branch_targets_before_execution() {
    assert_eq!(
        Verifier::verify_target(UncheckedTarget::new(1), 2).map(|target| target.get()),
        Ok(1)
    );
    assert_eq!(
        Verifier::verify_target(UncheckedTarget::new(2), 2),
        Err(VerifyError::TargetOutOfRange)
    );
}

#[test]
fn verifier_bounds_offsets_before_execution() {
    assert_eq!(
        Verifier::verify_offset(UncheckedOffset::new(0), 8).map(|offset| offset.get()),
        Ok(0)
    );
    assert_eq!(
        Verifier::verify_offset(UncheckedOffset::new(1), 8),
        Err(VerifyError::OffsetOutOfRange)
    );
    assert_eq!(
        Verifier::verify_offset(UncheckedOffset::new(u16::MAX), u16::MAX as u64),
        Err(VerifyError::OffsetOutOfRange)
    );
}

#[test]
fn fuel_accepts_the_limit_and_stays_exhausted() {
    let mut fuel = Fuel::new(MAX_FUEL).unwrap();
    assert_eq!(fuel.remaining(), 1_000_000);
    let mut empty = Fuel::new(0).unwrap();
    assert_eq!(empty.consume(), Err(FuelError::Exhausted));
    assert_eq!(empty.remaining(), 0);
    assert_eq!(fuel.consume(), Ok(()));
    assert_eq!(fuel.remaining(), 999_999);
}

#[test]
fn verified_offsets_leave_room_for_the_whole_access() {
    assert_eq!(Verifier::verify_offset(UncheckedOffset::new(8), 16).map(|o| o.get()), Ok(8));
    assert_eq!(
        Verifier::verify_offset(UncheckedOffset::new(9), 16),
        Err(VerifyError::OffsetOutOfRange)
    );
    assert_eq!(
        Verifier::verify_target(UncheckedTarget::new(0), 0),
        Err(VerifyError::TargetOutOfRange)
    );
}
