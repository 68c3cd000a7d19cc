//! The records the state machine reads and writes.
//!
//! Balances are explicit, independently addressable records passed by
//! reference into the state machine; the asset-transfer capability and the
//! per-user storage provisioning of the host environment stay outside.

use vstd::prelude::*;

verus! {

/// What the staking logic reads from the mint: its decimal precision.
#[derive(Clone, Copy, Debug, PartialEq, Eq, Structural)]
pub struct Mint {
    pub decimals: u8,
}

/// A custodial token balance, in base units.
#[derive(Clone, Copy, Debug, PartialEq, Eq, Structural)]
pub struct TokenAccount {
    pub amount: u64,
}

/// The per-user stake ledger entry: the authoritative record of staking
/// status and start slot. Created lazily on a user's first `stake` and
/// reused, never recreated, across stake/unstake cycles.
#[derive(Clone, Copy, Debug, PartialEq, Eq, Structural)]
pub struct StakeInfo {
    /// Slot at which the current position began accruing reward.
    /// Meaningful only while `is_staked` is true.
    pub stake_at_slot: u64,
    /// True iff the user currently has an open stake position.
    pub is_staked: bool,
}

impl StakeInfo {
    /// The state of a ledger entry before any successful `stake`.
    pub open spec fn spec_unstaked() -> StakeInfo {
        StakeInfo { stake_at_slot: 0, is_staked: false }
    }

    /// A fresh, unstaked ledger entry.
    pub fn new_unstaked() -> (info: StakeInfo)
        ensures
            info == StakeInfo::spec_unstaked(),
    {
        StakeInfo { stake_at_slot: 0, is_staked: false }
    }
}

/// Everything `initialize` touches: the global reward vault record.
#[derive(Clone, Copy, Debug, PartialEq, Eq, Structural)]
pub struct Initialize {
    /// The caller provisioning the vault.
    pub signer: u64,
    /// Whether the reward vault record exists yet.
    pub vault_provisioned: bool,
    /// The global reward vault balance.
    pub token_vault_account: TokenAccount,
    /// The mint the vault holds.
    pub mint_account: Mint,
}

/// Everything `stake` touches, for one user.
#[derive(Clone, Copy, Debug, PartialEq, Eq, Structural)]
pub struct Stake {
    /// The staking user, who signs the deposit out of their own wallet.
    pub signer: u64,
    /// The user's stake ledger entry.
    pub stake_info_account: StakeInfo,
    /// The user's escrow balance, holding the staked principal.
    pub stake_account: TokenAccount,
    /// The user's own available balance.
    pub user_token_account: TokenAccount,
    /// The mint being staked.
    pub mint_account: Mint,
}

/// Everything `unstake` touches, for one user.
#[derive(Clone, Copy, Debug, PartialEq, Eq, Structural)]
pub struct Unstake {
    /// The unstaking user.
    pub signer: u64,
    /// The user's stake ledger entry.
    pub stake_info_account: StakeInfo,
    /// The user's escrow balance, holding the staked principal.
    pub stake_account: TokenAccount,
    /// The user's own available balance.
    pub user_token_account: TokenAccount,
    /// The shared reward vault balance.
    pub token_vault_account: TokenAccount,
    /// The mint being unstaked.
    pub mint_account: Mint,
}

} // verus!
