//! The two records the engine works on: the vault of a pool and the position
//! of one depositor in it.

use vstd::prelude::*;

use crate::error::TrancheError;
use crate::identity::Identity;

verus! {

/// One of the two classes of risk and return that share a pool.
#[derive(Clone, Copy, Debug, PartialEq, Eq, Structural)]
pub enum Tranche {
    /// Capped return, hit by losses last.
    Senior,
    /// Uncapped return, hit by losses first.
    Junior,
}

/// The state of one pool. There is one vault per pool.
///
/// Nothing ties a tranche's value to its supply of shares: a full loss leaves
/// shares outstanding over a value of zero.
#[derive(Clone, Copy, Debug, PartialEq, Eq)]
pub struct TrancheVault {
    /// Who may simulate losses and surplus yield.
    pub authority: Identity,
    /// Everything ever deposited into the senior tranche. Not used in pricing.
    pub senior_total_deposits: u128,
    /// Everything ever deposited into the junior tranche. Not used in pricing.
    pub junior_total_deposits: u128,
    /// Senior shares outstanding.
    pub senior_shares_supply: u128,
    /// Junior shares outstanding.
    pub junior_shares_supply: u128,
    /// Current value of the senior tranche.
    pub senior_nav: u128,
    /// Current value of the junior tranche.
    pub junior_nav: u128,
    /// The most that one yield event may add to the senior tranche, in basis
    /// points of its value.
    pub senior_apy_cap_bps: u16,
    /// When yield was last distributed, as the caller told it.
    pub last_yield_ts: i64,
    /// The bump seed of the vault's address.
    pub bump: u8,
}

impl TrancheVault {
    /// The vault as it is right after initialization.
    pub open spec fn fresh(authority: Identity, senior_apy_cap_bps: u16, bump: u8) -> TrancheVault {
        TrancheVault {
            authority,
            senior_total_deposits: 0,
            junior_total_deposits: 0,
            senior_shares_supply: 0,
            junior_shares_supply: 0,
            senior_nav: 0,
            junior_nav: 0,
            senior_apy_cap_bps,
            last_yield_ts: 0,
            bump,
        }
    }

    /// The value of a tranche.
    pub open spec fn nav(self, tranche: Tranche) -> u128 {
        match tranche {
            Tranche::Senior => self.senior_nav,
            Tranche::Junior => self.junior_nav,
        }
    }

    /// The shares outstanding in a tranche.
    pub open spec fn shares_supply(self, tranche: Tranche) -> u128 {
        match tranche {
            Tranche::Senior => self.senior_shares_supply,
            Tranche::Junior => self.junior_shares_supply,
        }
    }

    /// Everything ever deposited into a tranche.
    pub open spec fn total_deposits(self, tranche: Tranche) -> u128 {
        match tranche {
            Tranche::Senior => self.senior_total_deposits,
            Tranche::Junior => self.junior_total_deposits,
        }
    }

    /// This vault after `amount` came into `tranche` and bought `shares`.
    pub open spec fn credited(self, tranche: Tranche, amount: u128, shares: u128) -> TrancheVault
        recommends
            self.total_deposits(tranche) + amount <= u128::MAX,
            self.nav(tranche) + amount <= u128::MAX,
            self.shares_supply(tranche) + shares <= u128::MAX,
    {
        match tranche {
            Tranche::Senior => TrancheVault {
                senior_total_deposits: (self.senior_total_deposits + amount) as u128,
                senior_nav: (self.senior_nav + amount) as u128,
                senior_shares_supply: (self.senior_shares_supply + shares) as u128,
                ..self
            },
            Tranche::Junior => TrancheVault {
                junior_total_deposits: (self.junior_total_deposits + amount) as u128,
                junior_nav: (self.junior_nav + amount) as u128,
                junior_shares_supply: (self.junior_shares_supply + shares) as u128,
                ..self
            },
        }
    }
}

/// What one depositor holds in one pool. There is one position per pool and
/// depositor; its owner is set by the first deposit and never changes.
#[derive(Clone, Copy, Debug, PartialEq, Eq)]
pub struct UserPosition {
    /// The holder, or the unset identity before the first deposit.
    pub owner: Identity,
    /// Senior shares held.
    pub senior_shares: u128,
    /// Junior shares held.
    pub junior_shares: u128,
}

impl UserPosition {
    /// The shares held in a tranche.
    pub open spec fn shares(self, tranche: Tranche) -> u128 {
        match tranche {
            Tranche::Senior => self.senior_shares,
            Tranche::Junior => self.junior_shares,
        }
    }

    /// This position with `shares` more in `tranche`.
    pub open spec fn credited(self, tranche: Tranche, shares: u128) -> UserPosition
        recommends
            self.shares(tranche) + shares <= u128::MAX,
    {
        match tranche {
            Tranche::Senior => UserPosition {
                senior_shares: (self.senior_shares + shares) as u128,
                ..self
            },
            Tranche::Junior => UserPosition {
                junior_shares: (self.junior_shares + shares) as u128,
                ..self
            },
        }
    }
}

/// The position after `user` has been checked against its owner: a position
/// without an owner takes `user` as its owner, one owned by `user` stays as it
/// is, and any other is refused.
pub open spec fn spec_ensure_owner(pos: UserPosition, user: Identity) -> Result<
    UserPosition,
    TrancheError,
> {
    if pos.owner.is_unset() {
        Ok(UserPosition { owner: user, ..pos })
    } else if pos.owner == user {
        Ok(pos)
    } else {
        Err(TrancheError::Unauthorized)
    }
}

/// Binds a position without an owner to `owner`, and otherwise checks that
/// `owner` is the one it is bound to. Share balances are never touched.
pub fn ensure_owner(pos: &mut UserPosition, owner: Identity) -> (r: Result<(), TrancheError>)
    ensures
        match r {
            Ok(_) => spec_ensure_owner(*old(pos), owner) == Ok::<UserPosition, TrancheError>(
                *final(pos),
            ),
            Err(e) => {
                &&& spec_ensure_owner(*old(pos), owner) == Err::<UserPosition, TrancheError>(e)
                &&& *final(pos) == *old(pos)
            },
        },
{
    let unset: Identity = Identity::default();
    proof {
        Identity::lemma_unset_is_unique(unset, pos.owner);
    }
    if pos.owner == unset {
        pos.owner = owner;
        return Ok(());
    }
    if pos.owner != owner {
        return Err(TrancheError::Unauthorized);
    }
    Ok(())
}

} // verus!
