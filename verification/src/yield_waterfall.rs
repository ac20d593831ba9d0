//! Splitting yield: the senior tranche takes its capped share, the junior
//! tranche takes the rest.

use vstd::prelude::*;

use crate::authority::AuthOnly;
use crate::error::TrancheError;
use crate::events::{SimulatedYield, YieldDistributed};
use crate::fixed_point::{
    checked_mul_div, lemma_floor_bounds, lemma_quotient_fits, mul_div_floor,
    spec_checked_mul_div, BPS_DENOM,
};
use crate::ledger::TrancheVault;

verus! {

/// What a yield event works on: the vault alone.
#[derive(Clone, Copy, Debug, PartialEq, Eq)]
pub struct OnlyVaultMut {
    pub vault: TrancheVault,
}

/// The most that one yield event adds to a senior tranche worth `senior_nav`:
/// `cap_bps` basis points of it, rounded down. The cap is per event and on the
/// tranche's value at that moment, so it compounds.
pub open spec fn senior_cap(senior_nav: int, cap_bps: int) -> int {
    mul_div_floor(senior_nav, cap_bps, BPS_DENOM as int)
}

/// The senior tranche's part of a yield: all of it up to the cap.
pub open spec fn senior_gain(senior_nav: int, cap_bps: int, yield_fp: int) -> int {
    if yield_fp <= senior_cap(senior_nav, cap_bps) {
        yield_fp
    } else {
        senior_cap(senior_nav, cap_bps)
    }
}

/// The junior tranche's part of a yield: what the senior tranche leaves.
pub open spec fn junior_gain(senior_nav: int, cap_bps: int, yield_fp: int) -> int {
    yield_fp - senior_gain(senior_nav, cap_bps, yield_fp)
}

/// What [`split_yield`] returns.
pub open spec fn spec_split_yield(senior_nav: u128, cap_bps: u16, yield_fp: u128) -> Result<
    YieldDistributed,
    TrancheError,
> {
    if yield_fp == 0 {
        Err(TrancheError::InvalidAmount)
    } else {
        match spec_checked_mul_div(senior_nav, cap_bps as u128, BPS_DENOM) {
            Err(e) => Err(e),
            Ok(cap) => {
                let senior = senior_gain(senior_nav as int, cap_bps as int, yield_fp as int);
                let junior = junior_gain(senior_nav as int, cap_bps as int, yield_fp as int);
                Ok(
                    YieldDistributed {
                        senior_gain_fp: senior as u128,
                        junior_gain_fp: junior as u128,
                        senior_capped_gain_fp: cap,
                        surplus_to_junior_fp: junior as u128,
                    },
                )
            },
        }
    }
}

/// The vault after a yield of `yield_fp` at time `now`, with the fact to
/// report, or the reason why nothing happens: the split is refused, or one of
/// the tranches' values would leave the 128-bit range.
pub open spec fn spec_apply_yield(vault: TrancheVault, yield_fp: u128, now: i64) -> Result<
    (TrancheVault, YieldDistributed),
    TrancheError,
> {
    match spec_split_yield(vault.senior_nav, vault.senior_apy_cap_bps, yield_fp) {
        Err(e) => Err(e),
        Ok(fact) => if vault.senior_nav + fact.senior_gain_fp > u128::MAX || vault.junior_nav
            + fact.junior_gain_fp > u128::MAX {
            Err(TrancheError::MathOverflow)
        } else {
            Ok(
                (
                    TrancheVault {
                        senior_nav: (vault.senior_nav + fact.senior_gain_fp) as u128,
                        junior_nav: (vault.junior_nav + fact.junior_gain_fp) as u128,
                        last_yield_ts: now,
                        ..vault
                    },
                    fact,
                ),
            )
        },
    }
}

/// What [`simulate_yield_surplus`] does: an amount of zero is refused first,
/// then a caller who is not the vault's authority, then what
/// [`spec_apply_yield`] refuses.
pub open spec fn spec_simulate_yield_surplus(ctx: AuthOnly, amount: u128, now: i64) -> Result<
    (AuthOnly, SimulatedYield, YieldDistributed),
    TrancheError,
> {
    if amount == 0 {
        Err(TrancheError::InvalidAmount)
    } else if !ctx.is_authorized() {
        Err(TrancheError::Unauthorized)
    } else {
        match spec_apply_yield(ctx.vault, amount, now) {
            Err(e) => Err(e),
            Ok((vault, fact)) => Ok(
                (
                    AuthOnly { vault, authority: ctx.authority },
                    SimulatedYield { amount_usd_fp: amount },
                    fact,
                ),
            ),
        }
    }
}

/// Splits a yield of `yield_fp` between a senior tranche worth `senior_nav`,
/// capped at `cap_bps` basis points of that, and the junior tranche.
pub fn split_yield(senior_nav: u128, cap_bps: u16, yield_fp: u128) -> (r: Result<
    YieldDistributed,
    TrancheError,
>)
    ensures
        r == spec_split_yield(senior_nav, cap_bps, yield_fp),
{
    if yield_fp == 0 {
        return Err(TrancheError::InvalidAmount);
    }
    let cap: u128 = match checked_mul_div(senior_nav, cap_bps as u128, BPS_DENOM) {
        Ok(cap) => cap,
        Err(e) => {
            return Err(e);
        },
    };
    let senior: u128 = if yield_fp <= cap {
        yield_fp
    } else {
        cap
    };
    let junior: u128 = yield_fp - senior;
    Ok(
        YieldDistributed {
            senior_gain_fp: senior,
            junior_gain_fp: junior,
            senior_capped_gain_fp: cap,
            surplus_to_junior_fp: junior,
        },
    )
}

/// Adds a yield of `yield_fp` to the vault and records `now` as the time of
/// the event. On any error nothing is changed.
pub fn apply_yield(vault: &mut TrancheVault, yield_fp: u128, now: i64) -> (r: Result<
    YieldDistributed,
    TrancheError,
>)
    ensures
        match r {
            Ok(fact) => spec_apply_yield(*old(vault), yield_fp, now) == Ok::<
                (TrancheVault, YieldDistributed),
                TrancheError,
            >((*final(vault), fact)),
            Err(e) => {
                &&& spec_apply_yield(*old(vault), yield_fp, now) == Err::<
                    (TrancheVault, YieldDistributed),
                    TrancheError,
                >(e)
                &&& *final(vault) == *old(vault)
            },
        },
{
    let fact: YieldDistributed = match split_yield(
        vault.senior_nav,
        vault.senior_apy_cap_bps,
        yield_fp,
    ) {
        Ok(fact) => fact,
        Err(e) => {
            return Err(e);
        },
    };
    let senior_nav: u128 = match vault.senior_nav.checked_add(fact.senior_gain_fp) {
        Some(sum) => sum,
        None => {
            return Err(TrancheError::MathOverflow);
        },
    };
    let junior_nav: u128 = match vault.junior_nav.checked_add(fact.junior_gain_fp) {
        Some(sum) => sum,
        None => {
            return Err(TrancheError::MathOverflow);
        },
    };
    vault.senior_nav = senior_nav;
    vault.junior_nav = junior_nav;
    vault.last_yield_ts = now;
    Ok(fact)
}

/// Distributes a yield of `yield_fp` that came in at time `now`: to the senior
/// tranche up to its cap, the rest to the junior tranche. On any error nothing
/// is changed.
pub fn distribute_yield(ctx: &mut OnlyVaultMut, yield_fp: u128, now: i64) -> (r: Result<
    YieldDistributed,
    TrancheError,
>)
    ensures
        match r {
            Ok(fact) => spec_apply_yield(old(ctx).vault, yield_fp, now) == Ok::<
                (TrancheVault, YieldDistributed),
                TrancheError,
            >((final(ctx).vault, fact)),
            Err(e) => {
                &&& spec_apply_yield(old(ctx).vault, yield_fp, now) == Err::<
                    (TrancheVault, YieldDistributed),
                    TrancheError,
                >(e)
                &&& *final(ctx) == *old(ctx)
            },
        },
{
    apply_yield(&mut ctx.vault, yield_fp, now)
}

/// For the vault's authority only: distributes `amount_usd_fp` as
/// [`distribute_yield`] would. On any error nothing is changed.
pub fn simulate_yield_surplus(ctx: &mut AuthOnly, amount_usd_fp: u128, now: i64) -> (r: Result<
    (SimulatedYield, YieldDistributed),
    TrancheError,
>)
    ensures
        match r {
            Ok((simulated, fact)) => spec_simulate_yield_surplus(*old(ctx), amount_usd_fp, now)
                == Ok::<(AuthOnly, SimulatedYield, YieldDistributed), TrancheError>(
                (*final(ctx), simulated, fact),
            ),
            Err(e) => {
                &&& spec_simulate_yield_surplus(*old(ctx), amount_usd_fp, now) == Err::<
                    (AuthOnly, SimulatedYield, YieldDistributed),
                    TrancheError,
                >(e)
                &&& *final(ctx) == *old(ctx)
            },
        },
{
    if amount_usd_fp == 0 {
        return Err(TrancheError::InvalidAmount);
    }
    if !ctx.caller_is_authority() {
        return Err(TrancheError::Unauthorized);
    }
    match apply_yield(&mut ctx.vault, amount_usd_fp, now) {
        Ok(fact) => Ok((SimulatedYield { amount_usd_fp }, fact)),
        Err(e) => Err(e),
    }
}

/// The senior tranche gains the whole yield up to its cap and never more, and
/// the two gains add up to the yield exactly: nothing is lost to rounding and
/// nothing is made up. Over the integers this holds of every value, cap and
/// yield.
pub proof fn lemma_yield_is_capped_and_conserved(senior_nav: int, cap_bps: int, yield_fp: int)
    requires
        0 <= senior_nav,
        0 <= cap_bps,
        0 <= yield_fp,
    ensures
        senior_gain(senior_nav, cap_bps, yield_fp) == vstd::math::min(
            yield_fp,
            (senior_nav * cap_bps) / 10_000,
        ),
        senior_gain(senior_nav, cap_bps, yield_fp) + junior_gain(senior_nav, cap_bps, yield_fp)
            == yield_fp,
        0 <= senior_gain(senior_nav, cap_bps, yield_fp) <= yield_fp,
        0 <= junior_gain(senior_nav, cap_bps, yield_fp) <= yield_fp,
{
    assert(0 <= senior_nav * cap_bps) by (nonlinear_arith)
        requires
            0 <= senior_nav,
            0 <= cap_bps,
    ;
    lemma_floor_bounds(senior_nav * cap_bps, 10_000);
}

/// The fact that a split reports holds those very gains, and a split is
/// refused only for a yield of zero or a cap that cannot be computed in 128
/// bits.
pub proof fn lemma_split_yield_reports_the_gains(senior_nav: u128, cap_bps: u16, yield_fp: u128)
    ensures
        spec_split_yield(senior_nav, cap_bps, yield_fp) is Ok <==> yield_fp != 0 && senior_nav
            * cap_bps <= u128::MAX,
        spec_split_yield(senior_nav, cap_bps, yield_fp) matches Ok(fact) ==> {
            &&& fact.senior_gain_fp == senior_gain(
                senior_nav as int,
                cap_bps as int,
                yield_fp as int,
            )
            &&& fact.junior_gain_fp == junior_gain(
                senior_nav as int,
                cap_bps as int,
                yield_fp as int,
            )
            &&& fact.senior_capped_gain_fp == senior_cap(senior_nav as int, cap_bps as int)
            &&& fact.surplus_to_junior_fp == fact.junior_gain_fp
            &&& fact.senior_gain_fp + fact.junior_gain_fp == yield_fp
        },
{
    if senior_nav * cap_bps <= u128::MAX {
        lemma_quotient_fits(senior_nav * cap_bps, BPS_DENOM as int);
        lemma_yield_is_capped_and_conserved(senior_nav as int, cap_bps as int, yield_fp as int);
    }
}

/// An accepted yield has added each gain to its tranche exactly, and has
/// touched nothing but the two values and the timestamp. And a yield is
/// refused for overflow exactly when it is not zero and the cap's product, or
/// one of the two sums, leaves the 128-bit range.
pub proof fn lemma_yield_overflow_is_rejected(vault: TrancheVault, yield_fp: u128, now: i64)
    ensures
        spec_apply_yield(vault, yield_fp, now) matches Ok((after, fact)) ==> {
            &&& after.senior_nav == vault.senior_nav + fact.senior_gain_fp
            &&& after.junior_nav == vault.junior_nav + fact.junior_gain_fp
            &&& after.senior_nav + after.junior_nav == vault.senior_nav + vault.junior_nav
                + yield_fp
            &&& after == TrancheVault {
                senior_nav: after.senior_nav,
                junior_nav: after.junior_nav,
                last_yield_ts: now,
                ..vault
            }
        },
        spec_apply_yield(vault, yield_fp, now) == Err::<
            (TrancheVault, YieldDistributed),
            TrancheError,
        >(TrancheError::MathOverflow) <==> {
            let nav = vault.senior_nav as int;
            let bps = vault.senior_apy_cap_bps as int;
            &&& yield_fp != 0
            &&& {
                ||| nav * bps > u128::MAX
                ||| nav + senior_gain(nav, bps, yield_fp as int) > u128::MAX
                ||| vault.junior_nav + junior_gain(nav, bps, yield_fp as int) > u128::MAX
            }
        },
{
    lemma_split_yield_reports_the_gains(vault.senior_nav, vault.senior_apy_cap_bps, yield_fp);
}

} // verus!
