//! The multi-user ledger: every per-user record plus the shared vault.
//!
//! Per-user records live in a map keyed by user identity, created lazily on
//! first access and never deleted. The reward vault balance is the one
//! record shared across users; calls against different users touch only
//! their own entry and, on unstake, that single counter. Calls are applied
//! one at a time, each all-or-nothing, which serializes debits against the
//! vault; the slot handed to each call must not run backwards, as the
//! external clock is monotonic.

use std::collections::HashMap;

use vstd::prelude::*;

use crate::accounts::{Mint, Stake, StakeInfo, TokenAccount, Unstake};
use crate::errors::Errors;
use crate::staking;
use crate::staking::{stake_step, unstake_step};

verus! {

broadcast use vstd::std_specs::hash::group_hash_axioms;

/// Everything the ledger keeps for one user: the stake ledger entry, the
/// escrow holding the staked principal, and the user's available balance.
#[derive(Clone, Copy, Debug, PartialEq, Eq, Structural)]
pub struct UserAccount {
    pub stake_info: StakeInfo,
    pub escrow: u64,
    pub wallet: u64,
}

impl UserAccount {
    /// A user's state before any record has been provisioned: unstaked,
    /// with empty balances.
    pub open spec fn spec_fresh() -> UserAccount {
        UserAccount { stake_info: StakeInfo::spec_unstaked(), escrow: 0, wallet: 0 }
    }

    /// Provisions a fresh user record.
    pub fn new_fresh() -> (acct: UserAccount)
        ensures
            acct == UserAccount::spec_fresh(),
    {
        UserAccount { stake_info: StakeInfo::new_unstaked(), escrow: 0, wallet: 0 }
    }
}

/// The whole system: one mint, the shared reward vault, and one record per
/// user who has ever been seen.
pub struct StakingLedger {
    /// Decimal precision of the one staked mint.
    pub mint_decimals: u8,
    /// Whether `initialize` has provisioned the reward vault yet.
    pub vault_provisioned: bool,
    /// The shared reward vault balance, in base units.
    pub vault: u64,
    /// Per-user records, keyed by user identity.
    pub accounts: HashMap<u64, UserAccount>,
    /// The latest slot any call has observed; no call may hand in an
    /// earlier one, since the external clock is monotonic.
    pub last_slot: u64,
}

impl StakingLedger {
    /// The record for `user`: fresh and unstaked while none has been
    /// provisioned yet.
    pub open spec fn spec_account(&self, user: u64) -> UserAccount {
        if self.accounts@.contains_key(user) {
            self.accounts@[user]
        } else {
            UserAccount::spec_fresh()
        }
    }

    /// Every open position started at or before the latest observed slot,
    /// so a later call never measures a negative staking duration.
    pub open spec fn wf(&self) -> bool {
        forall|u: u64|
            #[trigger] self.accounts@.contains_key(u) ==> (self.accounts@[u].stake_info.is_staked
                ==> self.accounts@[u].stake_info.stake_at_slot <= self.last_slot)
    }

    /// An empty ledger for a mint with the given decimal precision: no
    /// users, no vault funds, vault not yet provisioned.
    pub fn new(mint_decimals: u8) -> (ledger: StakingLedger)
        ensures
            ledger.wf(),
            ledger.mint_decimals == mint_decimals,
            !ledger.vault_provisioned,
            ledger.vault == 0,
            ledger.accounts@ == Map::<u64, UserAccount>::empty(),
            ledger.last_slot == 0,
    {
        StakingLedger {
            mint_decimals,
            vault_provisioned: false,
            vault: 0,
            accounts: HashMap::new(),
            last_slot: 0,
        }
    }

    /// Provisions the reward vault: idempotent, a no-op when it already
    /// exists, and never fails.
    pub fn initialize(&mut self) -> (r: Result<(), Errors>)
        requires
            old(self).wf(),
        ensures
            final(self).wf(),
            r is Ok,
            final(self).vault_provisioned,
            final(self).mint_decimals == old(self).mint_decimals,
            final(self).vault == old(self).vault,
            final(self).accounts@ == old(self).accounts@,
            final(self).last_slot == old(self).last_slot,
    {
        self.vault_provisioned = true;
        Ok(())
    }

    /// Pre-funds the reward pool with `amount` base units. Fails with
    /// `TransferFailed` when the vault is not provisioned yet or cannot
    /// receive the credit; nothing changes on failure.
    pub fn fund_vault(&mut self, amount: u64) -> (r: Result<(), Errors>)
        requires
            old(self).wf(),
        ensures
            final(self).wf(),
            final(self).mint_decimals == old(self).mint_decimals,
            final(self).vault_provisioned == old(self).vault_provisioned,
            final(self).accounts@ == old(self).accounts@,
            final(self).last_slot == old(self).last_slot,
            r is Ok <==> old(self).vault_provisioned && old(self).vault + amount <= u64::MAX,
            r is Ok ==> final(self).vault == old(self).vault + amount,
            r is Err ==> r == Err::<(), Errors>(Errors::TransferFailed) && final(self).vault
                == old(self).vault,
    {
        if !self.vault_provisioned {
            return Err(Errors::TransferFailed);
        }
        match self.vault.checked_add(amount) {
            Some(v) => {
                self.vault = v;
                Ok(())
            },
            None => Err(Errors::TransferFailed),
        }
    }

    /// Credits `amount` base units to `user`'s available balance,
    /// provisioning the user's record on first access. Fails with
    /// `TransferFailed` when the wallet cannot receive the credit; nothing
    /// changes on failure.
    pub fn deposit(&mut self, user: u64, amount: u64) -> (r: Result<(), Errors>)
        requires
            old(self).wf(),
        ensures
            final(self).wf(),
            final(self).mint_decimals == old(self).mint_decimals,
            final(self).vault_provisioned == old(self).vault_provisioned,
            final(self).vault == old(self).vault,
            final(self).last_slot == old(self).last_slot,
            r is Ok <==> old(self).spec_account(user).wallet + amount <= u64::MAX,
            r is Ok ==> final(self).accounts@ == old(self).accounts@.insert(
                user,
                (UserAccount {
                    wallet: (old(self).spec_account(user).wallet + amount) as u64,
                    ..old(self).spec_account(user)
                }),
            ),
            r is Err ==> r == Err::<(), Errors>(Errors::TransferFailed) && final(self).accounts@
                == old(self).accounts@,
    {
        let acct = match self.accounts.get(&user) {
            Some(a) => *a,
            None => UserAccount::new_fresh(),
        };
        match acct.wallet.checked_add(amount) {
            Some(w) => {
                self.accounts.insert(user, UserAccount { wallet: w, ..acct });
                Ok(())
            },
            None => Err(Errors::TransferFailed),
        }
    }

    /// The stake call `user` would issue against this ledger, as the core
    /// state machine sees it.
    pub open spec fn spec_stake_ctx(&self, user: u64) -> Stake {
        Stake {
            signer: user,
            stake_info_account: self.spec_account(user).stake_info,
            stake_account: TokenAccount { amount: self.spec_account(user).escrow },
            user_token_account: TokenAccount { amount: self.spec_account(user).wallet },
            mint_account: Mint { decimals: self.mint_decimals },
        }
    }

    /// The unstake call `user` would issue against this ledger, as the
    /// core state machine sees it.
    pub open spec fn spec_unstake_ctx(&self, user: u64) -> Unstake {
        Unstake {
            signer: user,
            stake_info_account: self.spec_account(user).stake_info,
            stake_account: TokenAccount { amount: self.spec_account(user).escrow },
            user_token_account: TokenAccount { amount: self.spec_account(user).wallet },
            token_vault_account: TokenAccount { amount: self.vault },
            mint_account: Mint { decimals: self.mint_decimals },
        }
    }

    /// Opens a stake position for `user` at slot `now`, provisioning the
    /// user's record on first access. The result and the user's record
    /// after the call are exactly those of the core `stake_step`
    /// transition; no other user's record, and never the vault, changes,
    /// and on error nothing changes at all.
    pub fn stake(&mut self, user: u64, amount: u64, now: u64) -> (r: Result<(), Errors>)
        requires
            old(self).wf(),
            now >= old(self).last_slot,
        ensures
            final(self).wf(),
            final(self).mint_decimals == old(self).mint_decimals,
            final(self).vault_provisioned == old(self).vault_provisioned,
            final(self).vault == old(self).vault,
            ({
                let (ctx, res) = stake_step(old(self).spec_stake_ctx(user), amount, now);
                &&& r == res
                &&& r is Ok ==> final(self).accounts@ == old(self).accounts@.insert(
                    user,
                    (UserAccount {
                        stake_info: ctx.stake_info_account,
                        escrow: ctx.stake_account.amount,
                        wallet: ctx.user_token_account.amount,
                    }),
                ) && final(self).last_slot == now
                &&& r is Err ==> final(self).accounts@ == old(self).accounts@ && final(self).last_slot == old(self).last_slot
            }),
    {
        let acct = match self.accounts.get(&user) {
            Some(a) => *a,
            None => UserAccount::new_fresh(),
        };
        let mut ctx = Stake {
            signer: user,
            stake_info_account: acct.stake_info,
            stake_account: TokenAccount { amount: acct.escrow },
            user_token_account: TokenAccount { amount: acct.wallet },
            mint_account: Mint { decimals: self.mint_decimals },
        };
        let r = staking::stake(&mut ctx, amount, now);
        if r.is_ok() {
            self.accounts.insert(
                user,
                UserAccount {
                    stake_info: ctx.stake_info_account,
                    escrow: ctx.stake_account.amount,
                    wallet: ctx.user_token_account.amount,
                },
            );
            self.last_slot = now;
        }
        r
    }

    /// Unstakes `requested_amount` base units for `user` at slot `now`.
    /// The result, the user's record and the vault after the call are
    /// exactly those of the core `unstake_step` transition; no other
    /// user's record changes, and on error nothing changes at all.
    pub fn unstake(&mut self, user: u64, requested_amount: u64, now: u64) -> (r: Result<
        (),
        Errors,
    >)
        requires
            old(self).wf(),
            now >= old(self).last_slot,
        ensures
            final(self).wf(),
            final(self).mint_decimals == old(self).mint_decimals,
            final(self).vault_provisioned == old(self).vault_provisioned,
            ({
                let (ctx, res) = unstake_step(old(self).spec_unstake_ctx(user), requested_amount, now);
                &&& r == res
                &&& r is Ok ==> final(self).accounts@ == old(self).accounts@.insert(
                    user,
                    (UserAccount {
                        stake_info: ctx.stake_info_account,
                        escrow: ctx.stake_account.amount,
                        wallet: ctx.user_token_account.amount,
                    }),
                ) && final(self).vault == ctx.token_vault_account.amount && final(self).last_slot
                    == now
                &&& r is Err ==> final(self).accounts@ == old(self).accounts@ && final(self).vault
                    == old(self).vault && final(self).last_slot == old(self).last_slot
            }),
    {
        let acct = match self.accounts.get(&user) {
            Some(a) => *a,
            None => UserAccount::new_fresh(),
        };
        let mut ctx = Unstake {
            signer: user,
            stake_info_account: acct.stake_info,
            stake_account: TokenAccount { amount: acct.escrow },
            user_token_account: TokenAccount { amount: acct.wallet },
            token_vault_account: TokenAccount { amount: self.vault },
            mint_account: Mint { decimals: self.mint_decimals },
        };
        let r = staking::unstake(&mut ctx, requested_amount, now);
        if r.is_ok() {
            self.accounts.insert(
                user,
                UserAccount {
                    stake_info: ctx.stake_info_account,
                    escrow: ctx.stake_account.amount,
                    wallet: ctx.user_token_account.amount,
                },
            );
            self.vault = ctx.token_vault_account.amount;
            self.last_slot = now;
        }
        r
    }

    /// The reward vault balance, in base units.
    pub fn vault_balance(&self) -> (v: u64)
        ensures
            v == self.vault,
    {
        self.vault
    }

    /// Whether `user` currently has an open stake position.
    pub fn is_staked(&self, user: u64) -> (b: bool)
        ensures
            b == self.spec_account(user).stake_info.is_staked,
    {
        match self.accounts.get(&user) {
            Some(a) => a.stake_info.is_staked,
            None => false,
        }
    }

    /// The slot at which `user`'s open position started, or `None` when
    /// the position is closed.
    pub fn stake_started_at(&self, user: u64) -> (s: Option<u64>)
        ensures
            self.spec_account(user).stake_info.is_staked ==> s == Some(
                self.spec_account(user).stake_info.stake_at_slot,
            ),
            !self.spec_account(user).stake_info.is_staked ==> s is None,
    {
        match self.accounts.get(&user) {
            Some(a) => {
                if a.stake_info.is_staked {
                    Some(a.stake_info.stake_at_slot)
                } else {
                    None
                }
            },
            None => None,
        }
    }

    /// `user`'s escrow balance, in base units.
    pub fn escrow_balance(&self, user: u64) -> (v: u64)
        ensures
            v == self.spec_account(user).escrow,
    {
        match self.accounts.get(&user) {
            Some(a) => a.escrow,
            None => 0,
        }
    }

    /// `user`'s available balance, in base units.
    pub fn wallet_balance(&self, user: u64) -> (v: u64)
        ensures
            v == self.spec_account(user).wallet,
    {
        match self.accounts.get(&user) {
            Some(a) => a.wallet,
            None => 0,
        }
    }

    /// The latest slot any call has observed.
    pub fn latest_slot(&self) -> (s: u64)
        ensures
            s == self.last_slot,
    {
        self.last_slot
    }
}

} // verus!
