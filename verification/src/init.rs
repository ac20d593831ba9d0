//! Setting up the vault of a new pool.

use vstd::prelude::*;

use crate::error::TrancheError;
use crate::identity::Identity;
use crate::ledger::TrancheVault;

verus! {

/// What initialization works on: the record of the new vault, whatever it
/// holds, and the bump seed that its address was found with.
#[derive(Clone, Copy, Debug, PartialEq, Eq)]
pub struct InitializeVault {
    pub vault: TrancheVault,
    pub bump: u8,
}

/// Makes `ctx.vault` an empty vault under `authority`, with the given cap on
/// the senior tranche's share of a yield event. The cap is taken as it comes:
/// whoever calls keeps it within 0 to 10,000 basis points.
pub fn initialize_vault(ctx: &mut InitializeVault, authority: Identity, senior_apy_cap_bps: u16) -> (r:
    Result<(), TrancheError>)
    ensures
        r == Ok::<(), TrancheError>(()),
        final(ctx).vault == TrancheVault::fresh(authority, senior_apy_cap_bps, old(ctx).bump),
        final(ctx).bump == old(ctx).bump,
{
    ctx.vault.authority = authority;
    ctx.vault.senior_total_deposits = 0;
    ctx.vault.junior_total_deposits = 0;
    ctx.vault.senior_shares_supply = 0;
    ctx.vault.junior_shares_supply = 0;
    ctx.vault.senior_nav = 0;
    ctx.vault.junior_nav = 0;
    ctx.vault.senior_apy_cap_bps = senior_apy_cap_bps;
    ctx.vault.last_yield_ts = 0;
    ctx.vault.bump = ctx.bump;
    Ok(())
}

} // verus!
