//! Errors surfaced by the staking entry points.

use vstd::prelude::*;

verus! {

/// Why a `stake` or `unstake` call was rejected. Every error leaves the
/// ledger entry and every balance exactly as they were before the call.
#[derive(Clone, Copy, Debug, PartialEq, Eq, Structural)]
pub enum Errors {
    /// `stake` on a ledger entry that already has an open position.
    AlreadyStaked,
    /// `unstake` on a ledger entry with no open position.
    NotStaked,
    /// `stake` or `unstake` of a zero amount.
    ZeroAmount,
    /// The decimal scaling multiplication does not fit in 64 bits.
    ArithmeticOverflow,
    /// The asset-transfer capability could not complete a transfer: the
    /// source balance cannot cover the debit, or the destination balance
    /// cannot receive the credit.
    TransferFailed,
    /// The reward vault cannot cover the computed reward.
    InsufficientVaultBalance,
}

} // verus!
