//! Operations that only the vault's authority may ask for.

use vstd::prelude::*;

use crate::identity::Identity;
use crate::ledger::TrancheVault;

verus! {

/// What an operation of the authority works on: the vault, and the caller who
/// claims to be its authority, as verified.
#[derive(Clone, Copy, Debug, PartialEq, Eq)]
pub struct AuthOnly {
    pub vault: TrancheVault,
    pub authority: Identity,
}

impl AuthOnly {
    /// Whether the caller is the authority that the vault was set up with.
    pub open spec fn is_authorized(self) -> bool {
        self.authority == self.vault.authority
    }

    /// Whether the caller is the authority that the vault was set up with.
    pub fn caller_is_authority(&self) -> (r: bool)
        ensures
            r == self.is_authorized(),
    {
        self.authority == self.vault.authority
    }
}

} // verus!
