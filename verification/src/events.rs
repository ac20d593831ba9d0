//! The facts that the operations report, for whoever keeps the log.

use vstd::prelude::*;

use crate::identity::Identity;
use crate::ledger::Tranche;

verus! {

/// A deposit was accepted.
#[derive(Clone, Copy, Debug, PartialEq, Eq)]
pub struct Deposited {
    pub user: Identity,
    pub tranche: Tranche,
    pub amount_usd_fp: u128,
    pub shares_minted: u128,
}

/// Yield was split between the tranches.
#[derive(Clone, Copy, Debug, PartialEq, Eq, Structural)]
pub struct YieldDistributed {
    /// What the senior tranche gained.
    pub senior_gain_fp: u128,
    /// What the junior tranche gained.
    pub junior_gain_fp: u128,
    /// The most the senior tranche could have gained from this event.
    pub senior_capped_gain_fp: u128,
    /// What went past the senior tranche; always the junior gain.
    pub surplus_to_junior_fp: u128,
}

/// A loss was taken out of the tranches.
#[derive(Clone, Copy, Debug, PartialEq, Eq, Structural)]
pub struct LossApplied {
    /// The loss as it was reported, covered or not.
    pub total_loss_fp: u128,
    pub absorbed_by_junior_fp: u128,
    pub absorbed_by_senior_fp: u128,
}

/// The authority simulated yield of this amount.
#[derive(Clone, Copy, Debug, PartialEq, Eq, Structural)]
pub struct SimulatedYield {
    pub amount_usd_fp: u128,
}

/// The authority simulated a loss of this amount.
#[derive(Clone, Copy, Debug, PartialEq, Eq, Structural)]
pub struct SimulatedLoss {
    pub amount_usd_fp: u128,
}

} // verus!
