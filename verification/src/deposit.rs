//! Deposits: pricing a tranche's shares, minting them, and crediting vault and
//! position in one step that either happens in full or not at all.

use vstd::prelude::*;

use crate::error::TrancheError;
use crate::events::Deposited;
use crate::fixed_point::{
    checked_mul_div, lemma_floor_bounds, lemma_floor_is_greatest, lemma_quotient_fits,
    mul_div_floor, spec_checked_mul_div, FP_SCALE,
};
use crate::identity::Identity;
use crate::ledger::{ensure_owner, spec_ensure_owner, Tranche, TrancheVault, UserPosition};

verus! {

/// What a deposit works on: the vault, the depositor's position in it, and the
/// depositor.
#[derive(Clone, Copy, Debug, PartialEq, Eq)]
pub struct Deposit {
    pub vault: TrancheVault,
    pub position: UserPosition,
    /// The depositor, as the caller has verified it.
    pub user: Identity,
}

/// The price of one share in fixed point: par while no share exists, and
/// otherwise the tranche's value per share, rounded down.
pub open spec fn share_price(nav: int, shares_supply: int) -> int {
    if shares_supply == 0 {
        FP_SCALE as int
    } else {
        mul_div_floor(nav, FP_SCALE as int, shares_supply)
    }
}

/// The shares that `amount` buys at `price`, rounded down.
pub open spec fn shares_for(amount: int, price: int) -> int {
    mul_div_floor(amount, FP_SCALE as int, price)
}

/// What [`price_per_share`] returns.
pub open spec fn spec_price_per_share(nav: u128, shares_supply: u128) -> Result<
    u128,
    TrancheError,
> {
    if shares_supply == 0 {
        Ok(FP_SCALE)
    } else {
        spec_checked_mul_div(nav, FP_SCALE, shares_supply)
    }
}

/// What [`quote_shares`] returns. The checks come in this order: the amount is
/// not zero; the price can be computed; the price is not zero; the amount can
/// be scaled; at least one share comes out.
pub open spec fn spec_quote_shares(nav: u128, shares_supply: u128, amount: u128) -> Result<
    u128,
    TrancheError,
> {
    if amount == 0 {
        Err(TrancheError::InvalidAmount)
    } else {
        match spec_price_per_share(nav, shares_supply) {
            Err(e) => Err(e),
            Ok(price) => match spec_checked_mul_div(amount, FP_SCALE, price) {
                Err(e) => Err(e),
                Ok(shares) => if shares == 0 {
                    Err(TrancheError::ZeroShares)
                } else {
                    Ok(shares)
                },
            },
        }
    }
}

/// Whether `amount` and `shares` can be added to a tranche of the vault
/// without leaving the 128-bit range.
pub open spec fn vault_can_take(vault: TrancheVault, tranche: Tranche, amount: u128, shares: u128)
    -> bool {
    &&& vault.total_deposits(tranche) + amount <= u128::MAX
    &&& vault.nav(tranche) + amount <= u128::MAX
    &&& vault.shares_supply(tranche) + shares <= u128::MAX
}

/// What a deposit of `amount` into `tranche` does: the new state and the fact
/// to report, or the reason why nothing happens. After the pricing checks of
/// [`spec_quote_shares`] come, in this order: the vault's sums stay in range;
/// the depositor owns the position or takes it; the position's balance stays
/// in range.
pub open spec fn spec_deposit(ctx: Deposit, tranche: Tranche, amount: u128) -> Result<
    (Deposit, Deposited),
    TrancheError,
> {
    match spec_quote_shares(ctx.vault.nav(tranche), ctx.vault.shares_supply(tranche), amount) {
        Err(e) => Err(e),
        Ok(shares) => if !vault_can_take(ctx.vault, tranche, amount, shares) {
            Err(TrancheError::MathOverflow)
        } else {
            match spec_ensure_owner(ctx.position, ctx.user) {
                Err(e) => Err(e),
                Ok(bound) => if bound.shares(tranche) + shares > u128::MAX {
                    Err(TrancheError::MathOverflow)
                } else {
                    Ok(
                        (
                            Deposit {
                                vault: ctx.vault.credited(tranche, amount, shares),
                                position: bound.credited(tranche, shares),
                                user: ctx.user,
                            },
                            Deposited {
                                user: ctx.user,
                                tranche,
                                amount_usd_fp: amount,
                                shares_minted: shares,
                            },
                        ),
                    )
                },
            }
        },
    }
}

/// The price of one share of a tranche with the given value and supply.
pub fn price_per_share(nav: u128, shares_supply: u128) -> (r: Result<u128, TrancheError>)
    ensures
        r == spec_price_per_share(nav, shares_supply),
        r matches Ok(price) ==> price == share_price(nav as int, shares_supply as int),
{
    if shares_supply == 0 {
        Ok(FP_SCALE)
    } else {
        checked_mul_div(nav, FP_SCALE, shares_supply)
    }
}

/// The shares that a deposit of `amount` buys in a tranche with the given
/// value and supply.
pub fn quote_shares(nav: u128, shares_supply: u128, amount: u128) -> (r: Result<
    u128,
    TrancheError,
>)
    ensures
        r == spec_quote_shares(nav, shares_supply, amount),
        r matches Ok(shares) ==> {
            &&& shares > 0
            &&& shares == shares_for(
                amount as int,
                share_price(nav as int, shares_supply as int),
            )
        },
{
    if amount == 0 {
        return Err(TrancheError::InvalidAmount);
    }
    let price: u128 = match price_per_share(nav, shares_supply) {
        Ok(price) => price,
        Err(e) => {
            return Err(e);
        },
    };
    let shares: u128 = match checked_mul_div(amount, FP_SCALE, price) {
        Ok(shares) => shares,
        Err(e) => {
            return Err(e);
        },
    };
    if shares == 0 {
        return Err(TrancheError::ZeroShares);
    }
    Ok(shares)
}

/// Deposits `amount` into `tranche` for `ctx.user`: mints shares at the
/// tranche's current price and credits the vault and the position. On any
/// error nothing is changed.
pub fn deposit(ctx: &mut Deposit, tranche: Tranche, amount: u128) -> (r: Result<
    Deposited,
    TrancheError,
>)
    ensures
        match r {
            Ok(fact) => spec_deposit(*old(ctx), tranche, amount) == Ok::<
                (Deposit, Deposited),
                TrancheError,
            >((*final(ctx), fact)),
            Err(e) => {
                &&& spec_deposit(*old(ctx), tranche, amount) == Err::<
                    (Deposit, Deposited),
                    TrancheError,
                >(e)
                &&& *final(ctx) == *old(ctx)
            },
        },
{
    let (deposits, nav, supply): (u128, u128, u128) = match tranche {
        Tranche::Senior => (
            ctx.vault.senior_total_deposits,
            ctx.vault.senior_nav,
            ctx.vault.senior_shares_supply,
        ),
        Tranche::Junior => (
            ctx.vault.junior_total_deposits,
            ctx.vault.junior_nav,
            ctx.vault.junior_shares_supply,
        ),
    };
    let shares: u128 = match quote_shares(nav, supply, amount) {
        Ok(shares) => shares,
        Err(e) => {
            return Err(e);
        },
    };
    let new_deposits: u128 = match deposits.checked_add(amount) {
        Some(sum) => sum,
        None => {
            return Err(TrancheError::MathOverflow);
        },
    };
    let new_nav: u128 = match nav.checked_add(amount) {
        Some(sum) => sum,
        None => {
            return Err(TrancheError::MathOverflow);
        },
    };
    let new_supply: u128 = match supply.checked_add(shares) {
        Some(sum) => sum,
        None => {
            return Err(TrancheError::MathOverflow);
        },
    };
    let mut position: UserPosition = ctx.position;
    match ensure_owner(&mut position, ctx.user) {
        Ok(_) => {},
        Err(e) => {
            return Err(e);
        },
    }
    let held: u128 = match tranche {
        Tranche::Senior => position.senior_shares,
        Tranche::Junior => position.junior_shares,
    };
    let new_held: u128 = match held.checked_add(shares) {
        Some(sum) => sum,
        None => {
            return Err(TrancheError::MathOverflow);
        },
    };
    match tranche {
        Tranche::Senior => {
            ctx.vault.senior_total_deposits = new_deposits;
            ctx.vault.senior_nav = new_nav;
            ctx.vault.senior_shares_supply = new_supply;
            position.senior_shares = new_held;
        },
        Tranche::Junior => {
            ctx.vault.junior_total_deposits = new_deposits;
            ctx.vault.junior_nav = new_nav;
            ctx.vault.junior_shares_supply = new_supply;
            position.junior_shares = new_held;
        },
    }
    ctx.position = position;
    Ok(Deposited { user: ctx.user, tranche, amount_usd_fp: amount, shares_minted: shares })
}

/// Deposits `amount_usd_fp` into the senior tranche. See [`deposit`].
pub fn deposit_senior(ctx: &mut Deposit, amount_usd_fp: u128) -> (r: Result<
    Deposited,
    TrancheError,
>)
    ensures
        match r {
            Ok(fact) => spec_deposit(*old(ctx), Tranche::Senior, amount_usd_fp) == Ok::<
                (Deposit, Deposited),
                TrancheError,
            >((*final(ctx), fact)),
            Err(e) => {
                &&& spec_deposit(*old(ctx), Tranche::Senior, amount_usd_fp) == Err::<
                    (Deposit, Deposited),
                    TrancheError,
                >(e)
                &&& *final(ctx) == *old(ctx)
            },
        },
{
    deposit(ctx, Tranche::Senior, amount_usd_fp)
}

/// Deposits `amount_usd_fp` into the junior tranche. See [`deposit`].
pub fn deposit_junior(ctx: &mut Deposit, amount_usd_fp: u128) -> (r: Result<
    Deposited,
    TrancheError,
>)
    ensures
        match r {
            Ok(fact) => spec_deposit(*old(ctx), Tranche::Junior, amount_usd_fp) == Ok::<
                (Deposit, Deposited),
                TrancheError,
            >((*final(ctx), fact)),
            Err(e) => {
                &&& spec_deposit(*old(ctx), Tranche::Junior, amount_usd_fp) == Err::<
                    (Deposit, Deposited),
                    TrancheError,
                >(e)
                &&& *final(ctx) == *old(ctx)
            },
        },
{
    deposit(ctx, Tranche::Junior, amount_usd_fp)
}

/// A deposit into a tranche without shares is priced at par: it mints as many
/// shares as the amount has units, whatever the tranche is worth. It is
/// refused only for an amount of zero or one too large to be scaled.
pub proof fn lemma_first_deposit_is_par(nav: u128, amount: u128)
    ensures
        spec_quote_shares(nav, 0, amount) == (if amount == 0 {
            Err::<u128, TrancheError>(TrancheError::InvalidAmount)
        } else if amount * FP_SCALE > u128::MAX {
            Err::<u128, TrancheError>(TrancheError::MathOverflow)
        } else {
            Ok::<u128, TrancheError>(amount)
        }),
{
    if amount != 0 && amount * FP_SCALE <= u128::MAX {
        vstd::arithmetic::div_mod::lemma_div_multiples_vanish(amount as int, FP_SCALE as int);
        assert(amount * FP_SCALE == FP_SCALE * amount) by (nonlinear_arith);
    }
}

/// An accepted deposit into a tranche without shares mints exactly the amount
/// in shares, to the vault and to the position.
pub proof fn lemma_first_deposit_mints_par(ctx: Deposit, tranche: Tranche, amount: u128)
    requires
        ctx.vault.shares_supply(tranche) == 0,
    ensures
        spec_deposit(ctx, tranche, amount) matches Ok((after, fact)) ==> {
            &&& fact.shares_minted == amount
            &&& after.vault.shares_supply(tranche) == amount
            &&& after.vault.nav(tranche) == ctx.vault.nav(tranche) + amount
            &&& after.position.shares(tranche) == ctx.position.shares(tranche) + amount
        },
{
    lemma_first_deposit_is_par(ctx.vault.nav(tranche), amount);
}

/// A deposit never lowers the price of a share: whoever held shares before
/// holds at least the same value per share afterwards. Rounding works for the
/// holders, never for the depositor.
pub proof fn lemma_deposit_never_dilutes(nav: u128, shares_supply: u128, amount: u128, shares: u128)
    requires
        spec_quote_shares(nav, shares_supply, amount) == Ok::<u128, TrancheError>(shares),
    ensures
        share_price(nav + amount, shares_supply + shares) >= share_price(
            nav as int,
            shares_supply as int,
        ),
{
    let f = FP_SCALE as int;
    let price = share_price(nav as int, shares_supply as int);
    let supply_after = shares_supply + shares;
    lemma_floor_bounds(amount * f, price);
    assert(shares * price <= amount * f);
    if shares_supply > 0 {
        lemma_floor_bounds(nav * f, shares_supply as int);
        assert(price * shares_supply <= nav * f);
    }
    assert(price * supply_after <= (nav + amount) * f) by (nonlinear_arith)
        requires
            shares * price <= amount * f,
            price * shares_supply <= nav * f,
            supply_after == shares_supply + shares,
    ;
    assert(0 <= (nav + amount) * f) by (nonlinear_arith)
        requires
            0 <= nav + amount,
            0 <= f,
    ;
    lemma_floor_is_greatest((nav + amount) * f, supply_after, price);
}

/// A deposit raises the price of a share by at most one unit of fixed point,
/// provided that the price before it is no more than the shares outstanding
/// before it plus twice the shares it mints. (Without that bound the amount
/// lost to rounding, spread over few shares, can move the price further.)
pub proof fn lemma_deposit_keeps_price_within_one_unit(
    nav: u128,
    shares_supply: u128,
    amount: u128,
    shares: u128,
)
    requires
        shares_supply > 0,
        spec_quote_shares(nav, shares_supply, amount) == Ok::<u128, TrancheError>(shares),
        share_price(nav as int, shares_supply as int) <= shares_supply + 2 * shares,
    ensures
        share_price(nav as int, shares_supply as int) <= share_price(
            nav + amount,
            shares_supply + shares,
        ) <= share_price(nav as int, shares_supply as int) + 1,
{
    lemma_deposit_never_dilutes(nav, shares_supply, amount, shares);
    let f = FP_SCALE as int;
    let price = share_price(nav as int, shares_supply as int);
    let supply_after = shares_supply + shares;
    lemma_floor_bounds(nav * f, shares_supply as int);
    lemma_floor_bounds(amount * f, price);
    assert((nav + amount) * f < (price + 2) * supply_after) by (nonlinear_arith)
        requires
            nav * f < (price + 1) * shares_supply,
            amount * f < (shares + 1) * price,
            price <= shares_supply + 2 * shares,
            supply_after == shares_supply + shares,
    ;
    assert(0 <= (nav + amount) * f) by (nonlinear_arith)
        requires
            0 <= nav + amount,
            0 <= f,
    ;
    lemma_floor_is_greatest((nav + amount) * f, supply_after, price + 2);
}

/// An accepted deposit has computed every product and sum exactly: nothing
/// wrapped. And a deposit is refused for overflow exactly when it has an
/// amount and one of its products or sums leaves the 128-bit range before any
/// other check refuses it.
pub proof fn lemma_deposit_overflow_is_rejected(ctx: Deposit, tranche: Tranche, amount: u128)
    ensures
        spec_deposit(ctx, tranche, amount) matches Ok((after, fact)) ==> {
            &&& fact.shares_minted == shares_for(
                amount as int,
                share_price(ctx.vault.nav(tranche) as int, ctx.vault.shares_supply(tranche) as int),
            )
            &&& after.vault.total_deposits(tranche) == ctx.vault.total_deposits(tranche) + amount
            &&& after.vault.nav(tranche) == ctx.vault.nav(tranche) + amount
            &&& after.vault.shares_supply(tranche) == ctx.vault.shares_supply(tranche)
                + fact.shares_minted
            &&& after.position.shares(tranche) == ctx.position.shares(tranche)
                + fact.shares_minted
        },
        spec_deposit(ctx, tranche, amount) == Err::<(Deposit, Deposited), TrancheError>(
            TrancheError::MathOverflow,
        ) <==> {
            let nav = ctx.vault.nav(tranche);
            let supply = ctx.vault.shares_supply(tranche);
            let price = share_price(nav as int, supply as int);
            let shares = shares_for(amount as int, price);
            let price_overflows = supply != 0 && nav * FP_SCALE > u128::MAX;
            let priced = !price_overflows && price != 0 && amount * FP_SCALE <= u128::MAX
                && shares != 0;
            &&& amount != 0
            &&& {
                ||| price_overflows
                ||| !price_overflows && price != 0 && amount * FP_SCALE > u128::MAX
                ||| priced && !vault_can_take(ctx.vault, tranche, amount, shares as u128)
                ||| priced && spec_ensure_owner(ctx.position, ctx.user) is Ok
                    && ctx.position.shares(tranche) + shares > u128::MAX
            }
        },
{
    let nav = ctx.vault.nav(tranche);
    let supply = ctx.vault.shares_supply(tranche);
    if amount != 0 && spec_price_per_share(nav, supply) is Ok {
        let price = spec_price_per_share(nav, supply)->Ok_0;
        if supply != 0 {
            lemma_quotient_fits(nav * FP_SCALE, supply as int);
        }
        assert(price == share_price(nav as int, supply as int));
        if price != 0 && amount * FP_SCALE <= u128::MAX {
            lemma_quotient_fits(amount * FP_SCALE, price as int);
        }
    }
}

/// The owner of a position, once set, stays: a deposit by anybody else is
/// refused and changes nothing. It is refused as unauthorized unless the
/// pricing or the vault's sums refuse it first.
pub proof fn lemma_owner_is_never_replaced(ctx: Deposit, tranche: Tranche, amount: u128)
    requires
        !ctx.position.owner.is_unset(),
        ctx.user != ctx.position.owner,
    ensures
        spec_deposit(ctx, tranche, amount) is Err,
        spec_quote_shares(ctx.vault.nav(tranche), ctx.vault.shares_supply(tranche), amount)
            matches Ok(shares) && vault_can_take(ctx.vault, tranche, amount, shares)
            ==> spec_deposit(ctx, tranche, amount) == Err::<(Deposit, Deposited), TrancheError>(
            TrancheError::Unauthorized,
        ),
{
}

/// After an accepted deposit the position belongs to the depositor: a position
/// without an owner has taken the depositor as its owner, and one with an
/// owner had the depositor as its owner all along.
pub proof fn lemma_deposit_binds_owner(ctx: Deposit, tranche: Tranche, amount: u128)
    ensures
        spec_deposit(ctx, tranche, amount) matches Ok((after, fact)) ==> {
            &&& after.position.owner == ctx.user
            &&& fact.user == ctx.user
            &&& after.user == ctx.user
            &&& !ctx.position.owner.is_unset() ==> after.position.owner == ctx.position.owner
        },
{
}

/// A deposit touches one tranche only: the other tranche's value, shares and
/// record of deposits stay as they were, in the vault and in the position, and
/// so do the vault's authority, cap, timestamp and bump seed. In the tranche
/// it goes to, nothing ever shrinks.
pub proof fn lemma_deposit_touches_one_tranche(
    ctx: Deposit,
    tranche: Tranche,
    other: Tranche,
    amount: u128,
)
    requires
        other != tranche,
    ensures
        spec_deposit(ctx, tranche, amount) matches Ok((after, fact)) ==> {
            &&& after.vault.nav(other) == ctx.vault.nav(other)
            &&& after.vault.shares_supply(other) == ctx.vault.shares_supply(other)
            &&& after.vault.total_deposits(other) == ctx.vault.total_deposits(other)
            &&& after.position.shares(other) == ctx.position.shares(other)
            &&& after.vault.authority == ctx.vault.authority
            &&& after.vault.senior_apy_cap_bps == ctx.vault.senior_apy_cap_bps
            &&& after.vault.last_yield_ts == ctx.vault.last_yield_ts
            &&& after.vault.bump == ctx.vault.bump
            &&& after.vault.nav(tranche) > ctx.vault.nav(tranche)
            &&& after.vault.shares_supply(tranche) > ctx.vault.shares_supply(tranche)
            &&& after.vault.total_deposits(tranche) > ctx.vault.total_deposits(tranche)
            &&& after.position.shares(tranche) > ctx.position.shares(tranche)
        },
{
}

} // verus!
