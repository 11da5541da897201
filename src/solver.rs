use vstd::prelude::*;

use crate::units::CalculationTarget;

verus! {

/// What one budget cycle does with the closure error (surplus minus demand,
/// in dB).
#[derive(Clone, Copy, Debug, PartialEq, Eq, Structural)]
pub enum CycleStep {
    /// Leave every parameter as it is.
    Hold,
    /// Add the error to the SNR.
    AddToSnr,
    /// Subtract the error from the transmit power (dBm).
    SubtractFromTxPower,
    /// Add the error to the current path loss and take as the new distance
    /// the one at which the propagation model reaches that loss.
    RefitDistance,
}

/// The step owed to a cycle whose target is `target`: none at all when the
/// closure error is not a finite number, else the one adjustment of the
/// target's own field.
pub open spec fn step_for(target: CalculationTarget, error_is_finite: bool) -> CycleStep {
    if !error_is_finite {
        CycleStep::Hold
    } else {
        match target {
            CalculationTarget::Snr => CycleStep::AddToSnr,
            CalculationTarget::Distance => CycleStep::RefitDistance,
            CalculationTarget::TxPower => CycleStep::SubtractFromTxPower,
        }
    }
}

/// Decides how one cycle applies its closure error: a non-finite error (a
/// degenerate input such as a zero bandwidth) changes nothing, and a finite
/// one goes whole into the field that `target` names.
pub fn plan_cycle(target: CalculationTarget, error_is_finite: bool) -> (r: CycleStep)
    ensures
        r == step_for(target, error_is_finite),
        !error_is_finite <==> r == CycleStep::Hold,
{
    if !error_is_finite {
        return CycleStep::Hold;
    }
    match target {
        CalculationTarget::Snr => CycleStep::AddToSnr,
        CalculationTarget::Distance => CycleStep::RefitDistance,
        CalculationTarget::TxPower => CycleStep::SubtractFromTxPower,
    }
}

} // verus!
