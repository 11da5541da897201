use vstd::prelude::*;

verus! {

/// The single quantity that absorbs the closure error of a budget cycle.
#[derive(Clone, Copy, Debug, PartialEq, Eq, Structural)]
pub enum CalculationTarget {
    Snr,
    Distance,
    TxPower,
}

impl Default for CalculationTarget {
    fn default() -> (r: Self)
        ensures
            r == CalculationTarget::Snr,
    {
        CalculationTarget::Snr
    }
}

/// The unit in which a power value is shown and entered; the stored value is
/// always in dBm.
#[derive(Clone, Copy, Debug, PartialEq, Eq, Structural)]
pub enum PowerUnit {
    DbMilliwatt,
    DbWatt,
    Milliwatt,
    Watt,
}

impl Default for PowerUnit {
    fn default() -> (r: Self)
        ensures
            r == PowerUnit::DbMilliwatt,
    {
        PowerUnit::DbMilliwatt
    }
}

/// The symbol under which a power unit is shown.
pub open spec fn unit_label(u: PowerUnit) -> Seq<char> {
    match u {
        PowerUnit::DbMilliwatt => "dBm"@,
        PowerUnit::DbWatt => "dBW"@,
        PowerUnit::Milliwatt => "mW"@,
        PowerUnit::Watt => "W"@,
    }
}

impl PowerUnit {
    /// The unit's symbol: `dBm`, `dBW`, `mW` or `W`.
    pub fn label(&self) -> (r: &'static str)
        ensures
            r@ == unit_label(*self),
    {
        match self {
            PowerUnit::DbMilliwatt => "dBm",
            PowerUnit::DbWatt => "dBW",
            PowerUnit::Milliwatt => "mW",
            PowerUnit::Watt => "W",
        }
    }
}

} // verus!
