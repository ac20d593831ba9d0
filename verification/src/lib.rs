//! Share-based accounting for a pool split into a senior and a junior tranche.
//!
//! The senior tranche earns at most a capped share of each yield event and is
//! hit by losses only after the junior tranche is exhausted; the junior tranche
//! takes every surplus and every first loss. All amounts are USD in fixed point,
//! scaled by [`FP_SCALE`].

pub mod authority;
pub mod deposit;
pub mod error;
pub mod events;
pub mod fixed_point;
pub mod identity;
pub mod init;
pub mod ledger;
pub mod loss_waterfall;
pub mod yield_waterfall;

pub use authority::AuthOnly;
pub use deposit::{deposit, deposit_junior, deposit_senior, price_per_share, quote_shares, Deposit};
pub use error::TrancheError;
pub use events::{Deposited, LossApplied, SimulatedLoss, SimulatedYield, YieldDistributed};
pub use fixed_point::{checked_mul_div, BPS_DENOM, FP_SCALE};
pub use identity::Identity;
pub use init::{initialize_vault, InitializeVault};
pub use ledger::{ensure_owner, Tranche, TrancheVault, UserPosition};
pub use loss_waterfall::{simulate_loss, split_loss};
pub use yield_waterfall::{
    apply_yield, distribute_yield, simulate_yield_surplus, split_yield, OnlyVaultMut,
};
