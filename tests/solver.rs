use link_budget::solver::{plan_cycle, CycleStep};
use link_budget::units::CalculationTarget;

#[test]
fn finite_error_goes_to_snr() {
    assert_eq!(plan_cycle(CalculationTarget::Snr, true), CycleStep::AddToSnr);
}

#[test]
fn finite_error_goes_to_tx_power() {
    assert_eq!(plan_cycle(CalculationTarget::TxPower, true), CycleStep::SubtractFromTxPower);
}

#[test]
fn finite_error_goes_to_distance() {
    assert_eq!(plan_cycle(CalculationTarget::Distance, true), CycleStep::RefitDistance);
}

#[test]
fn non_finite_error_changes_nothing() {
    for target in [CalculationTarget::Snr, CalculationTarget::Distance, CalculationTarget::TxPower] {
        assert_eq!(plan_cycle(target, false), CycleStep::Hold);
    }
}

#[test]
fn zero_bandwidth_cycle_holds() {
    // A zero bandwidth puts the noise floor at minus infinity.
    let noise_floor_dbm = 10.0 * (1.380649e-23_f64 * 290.0 * 0.0 * 1000.0).log10();
    let error = 30.0 - (noise_floor_dbm + 100.0);
    assert!(!error.is_finite());
    assert_eq!(plan_cycle(CalculationTarget::Snr, error.is_finite()), CycleStep::Hold);
}
