use link_budget::units::{CalculationTarget, PowerUnit};

#[test]
fn power_unit_labels() {
    assert_eq!(PowerUnit::DbMilliwatt.label(), "dBm");
    assert_eq!(PowerUnit::DbWatt.label(), "dBW");
    assert_eq!(PowerUnit::Milliwatt.label(), "mW");
    assert_eq!(PowerUnit::Watt.label(), "W");
}

#[test]
fn defaults() {
    assert_eq!(PowerUnit::default(), PowerUnit::DbMilliwatt);
    assert_eq!(CalculationTarget::default(), CalculationTarget::Snr);
}
