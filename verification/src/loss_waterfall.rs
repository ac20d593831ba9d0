//! Taking a loss out of the tranches: out of the junior tranche first, and out
//! of the senior tranche only once the junior one is worth nothing.

use vstd::prelude::*;

use crate::authority::AuthOnly;
use crate::error::TrancheError;
use crate::events::{LossApplied, SimulatedLoss};
use crate::ledger::TrancheVault;

verus! {

/// The junior tranche's part of a loss: all of it, up to what the tranche is
/// worth.
pub open spec fn junior_absorbed(junior_nav: int, loss: int) -> int {
    if loss <= junior_nav {
        loss
    } else {
        junior_nav
    }
}

/// The senior tranche's part of a loss: what the junior tranche could not
/// cover, up to what the senior tranche is worth.
pub open spec fn senior_absorbed(junior_nav: int, senior_nav: int, loss: int) -> int {
    let remaining = loss - junior_absorbed(junior_nav, loss);
    if remaining <= senior_nav {
        remaining
    } else {
        senior_nav
    }
}

/// What [`split_loss`] returns.
pub open spec fn spec_split_loss(junior_nav: u128, senior_nav: u128, loss: u128) -> LossApplied {
    LossApplied {
        total_loss_fp: loss,
        absorbed_by_junior_fp: junior_absorbed(junior_nav as int, loss as int) as u128,
        absorbed_by_senior_fp: senior_absorbed(
            junior_nav as int,
            senior_nav as int,
            loss as int,
        ) as u128,
    }
}

/// What [`simulate_loss`] does: a loss of zero is refused first, then a caller
/// who is not the vault's authority. Any other loss is taken out of the two
/// values; what they cannot cover is dropped and recorded nowhere.
pub open spec fn spec_simulate_loss(ctx: AuthOnly, loss: u128) -> Result<
    (AuthOnly, LossApplied, SimulatedLoss),
    TrancheError,
> {
    if loss == 0 {
        Err(TrancheError::InvalidAmount)
    } else if !ctx.is_authorized() {
        Err(TrancheError::Unauthorized)
    } else {
        let fact = spec_split_loss(ctx.vault.junior_nav, ctx.vault.senior_nav, loss);
        Ok(
            (
                AuthOnly {
                    vault: TrancheVault {
                        junior_nav: (ctx.vault.junior_nav - fact.absorbed_by_junior_fp) as u128,
                        senior_nav: (ctx.vault.senior_nav - fact.absorbed_by_senior_fp) as u128,
                        ..ctx.vault
                    },
                    authority: ctx.authority,
                },
                fact,
                SimulatedLoss { amount_usd_fp: loss },
            ),
        )
    }
}

/// Splits a loss between a junior tranche worth `junior_nav`, which takes it
/// first, and a senior tranche worth `senior_nav`.
pub fn split_loss(junior_nav: u128, senior_nav: u128, total_loss_fp: u128) -> (fact: LossApplied)
    ensures
        fact == spec_split_loss(junior_nav, senior_nav, total_loss_fp),
        fact.absorbed_by_junior_fp <= junior_nav,
        fact.absorbed_by_senior_fp <= senior_nav,
{
    let junior: u128 = if total_loss_fp <= junior_nav {
        total_loss_fp
    } else {
        junior_nav
    };
    let remaining: u128 = total_loss_fp - junior;
    let senior: u128 = if remaining <= senior_nav {
        remaining
    } else {
        senior_nav
    };
    LossApplied {
        total_loss_fp,
        absorbed_by_junior_fp: junior,
        absorbed_by_senior_fp: senior,
    }
}

/// For the vault's authority only: takes a loss of `total_loss_fp` out of the
/// junior tranche and then, for what is left, out of the senior tranche. On
/// any error nothing is changed.
pub fn simulate_loss(ctx: &mut AuthOnly, total_loss_fp: u128) -> (r: Result<
    (LossApplied, SimulatedLoss),
    TrancheError,
>)
    ensures
        match r {
            Ok((fact, simulated)) => spec_simulate_loss(*old(ctx), total_loss_fp) == Ok::<
                (AuthOnly, LossApplied, SimulatedLoss),
                TrancheError,
            >((*final(ctx), fact, simulated)),
            Err(e) => {
                &&& spec_simulate_loss(*old(ctx), total_loss_fp) == Err::<
                    (AuthOnly, LossApplied, SimulatedLoss),
                    TrancheError,
                >(e)
                &&& *final(ctx) == *old(ctx)
            },
        },
{
    if total_loss_fp == 0 {
        return Err(TrancheError::InvalidAmount);
    }
    if !ctx.caller_is_authority() {
        return Err(TrancheError::Unauthorized);
    }
    let fact: LossApplied = split_loss(ctx.vault.junior_nav, ctx.vault.senior_nav, total_loss_fp);
    ctx.vault.junior_nav = ctx.vault.junior_nav - fact.absorbed_by_junior_fp;
    ctx.vault.senior_nav = ctx.vault.senior_nav - fact.absorbed_by_senior_fp;
    Ok((fact, SimulatedLoss { amount_usd_fp: total_loss_fp }))
}

/// A loss hits the junior tranche first: the senior tranche gives nothing up
/// before the junior tranche is worth nothing. Each tranche gives up at most
/// what it is worth, so neither value goes below zero, and together they give
/// up the loss or all they are worth, whichever is less.
pub proof fn lemma_loss_hits_junior_first(junior_nav: int, senior_nav: int, loss: int)
    requires
        0 <= junior_nav,
        0 <= senior_nav,
        0 <= loss,
    ensures
        junior_absorbed(junior_nav, loss) == vstd::math::min(loss, junior_nav),
        senior_absorbed(junior_nav, senior_nav, loss) == vstd::math::min(
            loss - junior_absorbed(junior_nav, loss),
            senior_nav,
        ),
        0 <= junior_nav - junior_absorbed(junior_nav, loss),
        0 <= senior_nav - senior_absorbed(junior_nav, senior_nav, loss),
        senior_absorbed(junior_nav, senior_nav, loss) > 0 ==> junior_nav - junior_absorbed(
            junior_nav,
            loss,
        ) == 0,
        junior_absorbed(junior_nav, loss) + senior_absorbed(junior_nav, senior_nav, loss)
            == vstd::math::min(loss, junior_nav + senior_nav),
{
}

/// An accepted loss leaves each tranche with its value less its part of the
/// loss, and touches nothing else in the vault: no share, no record of
/// deposits, not the timestamp.
pub proof fn lemma_loss_touches_only_the_values(ctx: AuthOnly, loss: u128)
    ensures
        spec_simulate_loss(ctx, loss) is Ok <==> loss != 0 && ctx.is_authorized(),
        spec_simulate_loss(ctx, loss) matches Ok((after, fact, simulated)) ==> {
            &&& fact == spec_split_loss(ctx.vault.junior_nav, ctx.vault.senior_nav, loss)
            &&& after.vault.junior_nav == ctx.vault.junior_nav - junior_absorbed(
                ctx.vault.junior_nav as int,
                loss as int,
            )
            &&& after.vault.senior_nav == ctx.vault.senior_nav - senior_absorbed(
                ctx.vault.junior_nav as int,
                ctx.vault.senior_nav as int,
                loss as int,
            )
            &&& after.vault == TrancheVault {
                junior_nav: after.vault.junior_nav,
                senior_nav: after.vault.senior_nav,
                ..ctx.vault
            }
            &&& after.authority == ctx.authority
            &&& simulated.amount_usd_fp == loss
        },
{
}

} // verus!
