//! The ways an operation on the vault can be rejected.

use vstd::prelude::*;

verus! {

/// Why an operation was rejected. A rejected operation leaves every ledger
/// untouched, so it can always be issued again.
#[derive(Clone, Copy, Debug, PartialEq, Eq, Structural)]
pub enum TrancheError {
    /// An amount was zero, or a divisor came out as zero.
    InvalidAmount,
    /// The caller is neither the owner of the position nor the vault's authority.
    Unauthorized,
    /// A sum or product left the 128-bit range.
    MathOverflow,
    /// The deposit is too small to buy a single share at the current price.
    ZeroShares,
    /// Reserved for a check of the senior cap; no operation returns it.
    CapExceeded,
}

} // verus!
