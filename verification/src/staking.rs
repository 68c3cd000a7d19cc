//! The staking state machine.
//!
//! Per user the position is either open or closed. `stake` opens it and
//! moves the scaled principal into escrow; `unstake` pays the time-linear
//! reward from the shared vault, returns the requested principal from
//! escrow, and closes the position when the escrow reaches zero. Each call
//! is all-or-nothing: on any error the ledger entry and every balance are
//! left exactly as they were.
//!
//! Deliberate asymmetry of the contract surface: `stake`'s `amount` is a
//! whole-token count and is scaled by `10^decimals`, while `unstake`'s
//! `requested_amount` is consumed as raw base units, unscaled.

use vstd::prelude::*;

use crate::accounts::{Initialize, Stake, StakeInfo, TokenAccount, Unstake};
use crate::authority::{
    derive_escrow_authority, derive_reward_vault_authority, spec_may_debit, Authority, BalanceId,
    SeedTag,
};
use crate::errors::Errors;
use crate::math::{base_units, pow10, reward_amount, scale_to_base_units};

verus! {

/// What `stake` does: the state after the call and its result.
///
/// Errors are checked in this order: an already-open position, a zero
/// amount, decimal scaling that does not fit in 64 bits, and a deposit the
/// wallet cannot cover or the escrow cannot receive. On success the ledger
/// entry records an open position starting at `now` and the scaled amount
/// has moved from the user's wallet into escrow.
pub open spec fn stake_step(ctx: Stake, amount: u64, now: u64) -> (Stake, Result<(), Errors>) {
    let d = ctx.mint_account.decimals;
    if ctx.stake_info_account.is_staked {
        (ctx, Err(Errors::AlreadyStaked))
    } else if amount == 0 {
        (ctx, Err(Errors::ZeroAmount))
    } else if pow10(d as nat) > u64::MAX || base_units(amount, d) > u64::MAX {
        (ctx, Err(Errors::ArithmeticOverflow))
    } else if ctx.user_token_account.amount < base_units(amount, d) || ctx.stake_account.amount
        + base_units(amount, d) > u64::MAX {
        (ctx, Err(Errors::TransferFailed))
    } else {
        (
            Stake {
                signer: ctx.signer,
                stake_info_account: StakeInfo { stake_at_slot: now, is_staked: true },
                stake_account: TokenAccount {
                    amount: (ctx.stake_account.amount + base_units(amount, d)) as u64,
                },
                user_token_account: TokenAccount {
                    amount: (ctx.user_token_account.amount - base_units(amount, d)) as u64,
                },
                mint_account: ctx.mint_account,
            },
            Ok(()),
        )
    }
}

/// What `unstake` does: the state after the call and its result.
///
/// The reward is `(now - stake_at_slot) * 10^decimals` base units,
/// independent of the staked principal. Errors are checked in this order:
/// no open position, a zero request, a reward that does not fit in 64
/// bits, a vault that cannot cover the reward, and a withdrawal the escrow
/// cannot cover or the wallet cannot receive. On success the reward has
/// moved from the vault and `requested_amount` from the escrow into the
/// user's wallet, the position stays open exactly when escrow remains, and
/// the start slot is reset to `now` either way.
pub open spec fn unstake_step(ctx: Unstake, requested_amount: u64, now: u64) -> (
    Unstake,
    Result<(), Errors>,
) {
    let d = ctx.mint_account.decimals;
    let start = ctx.stake_info_account.stake_at_slot;
    if !ctx.stake_info_account.is_staked {
        (ctx, Err(Errors::NotStaked))
    } else if requested_amount == 0 {
        (ctx, Err(Errors::ZeroAmount))
    } else if pow10(d as nat) > u64::MAX || reward_amount(start, now, d) > u64::MAX {
        (ctx, Err(Errors::ArithmeticOverflow))
    } else if ctx.token_vault_account.amount < reward_amount(start, now, d) {
        (ctx, Err(Errors::InsufficientVaultBalance))
    } else if ctx.stake_account.amount < requested_amount || ctx.user_token_account.amount
        + reward_amount(start, now, d) + requested_amount > u64::MAX {
        (ctx, Err(Errors::TransferFailed))
    } else {
        let escrow_after = (ctx.stake_account.amount - requested_amount) as u64;
        (
            Unstake {
                signer: ctx.signer,
                stake_info_account: StakeInfo {
                    stake_at_slot: now,
                    is_staked: escrow_after != 0,
                },
                stake_account: TokenAccount { amount: escrow_after },
                user_token_account: TokenAccount {
                    amount: (ctx.user_token_account.amount + reward_amount(start, now, d)
                        + requested_amount) as u64,
                },
                token_vault_account: TokenAccount {
                    amount: (ctx.token_vault_account.amount - reward_amount(start, now, d)) as u64,
                },
                mint_account: ctx.mint_account,
            },
            Ok(()),
        )
    }
}

/// Moves `amount` base units from `from` to `to`.
///
/// Stands in for the external asset-transfer capability on a debit that is
/// already known to be funded and receivable: the state machine checks
/// both sides before moving anything, so that a later failure can never
/// leave an earlier transfer committed. The debit must carry the one
/// authority derived for the source balance.
fn transfer_exact(
    from: &mut TokenAccount,
    to: &mut TokenAccount,
    amount: u64,
    auth: &Authority,
    from_id: &BalanceId,
)
    requires
        spec_may_debit(*auth, *from_id),
        old(from).amount >= amount,
        old(to).amount + amount <= u64::MAX,
    ensures
        final(from).amount == old(from).amount - amount,
        final(to).amount == old(to).amount + amount,
{
    from.amount = from.amount - amount;
    to.amount = to.amount + amount;
}

/// Provisions the global reward vault: idempotent, a no-op when the vault
/// already exists, and never fails.
pub fn initialize(ctx: &mut Initialize) -> (r: Result<(), Errors>)
    ensures
        r is Ok,
        final(ctx).vault_provisioned,
        final(ctx).signer == old(ctx).signer,
        final(ctx).mint_account == old(ctx).mint_account,
        old(ctx).vault_provisioned ==> *final(ctx) == *old(ctx),
        !old(ctx).vault_provisioned ==> final(ctx).token_vault_account == (TokenAccount {
            amount: 0,
        }),
{
    if !ctx.vault_provisioned {
        ctx.token_vault_account = TokenAccount { amount: 0 };
        ctx.vault_provisioned = true;
    }
    Ok(())
}

/// Opens a stake position: records the start slot, marks the position
/// open, scales `amount` into base units and moves them from the user's
/// wallet into escrow, authorized by the user's own signature.
pub fn stake(ctx: &mut Stake, amount: u64, now: u64) -> (r: Result<(), Errors>)
    ensures
        (*final(ctx), r) == stake_step(*old(ctx), amount, now),
        r is Err ==> *final(ctx) == *old(ctx),
{
    if ctx.stake_info_account.is_staked {
        return Err(Errors::AlreadyStaked);
    }
    if amount == 0 {
        return Err(Errors::ZeroAmount);
    }
    let staking_amt = match scale_to_base_units(amount, ctx.mint_account.decimals) {
        Some(b) => b,
        None => {
            return Err(Errors::ArithmeticOverflow);
        },
    };
    if ctx.user_token_account.amount < staking_amt || ctx.stake_account.amount > u64::MAX
        - staking_amt {
        return Err(Errors::TransferFailed);
    }
    ctx.stake_info_account = StakeInfo { stake_at_slot: now, is_staked: true };
    let auth = Authority::UserSignature(ctx.signer);
    let from_id = BalanceId::UserWallet(ctx.signer);
    transfer_exact(&mut ctx.user_token_account, &mut ctx.stake_account, staking_amt, &auth, &from_id);
    Ok(())
}

/// Closes or shrinks a stake position: pays the time-linear reward from
/// the shared vault under the derived vault authority, returns
/// `requested_amount` base units from escrow under the user's derived
/// escrow authority, closes the position iff the escrow reaches zero, and
/// resets the start slot to `now` either way.
pub fn unstake(ctx: &mut Unstake, requested_amount: u64, now: u64) -> (r: Result<(), Errors>)
    requires
        old(ctx).stake_info_account.is_staked ==> now >= old(ctx).stake_info_account.stake_at_slot,
    ensures
        (*final(ctx), r) == unstake_step(*old(ctx), requested_amount, now),
        r is Err ==> *final(ctx) == *old(ctx),
{
    if !ctx.stake_info_account.is_staked {
        return Err(Errors::NotStaked);
    }
    if requested_amount == 0 {
        return Err(Errors::ZeroAmount);
    }
    let slots_passed = now - ctx.stake_info_account.stake_at_slot;
    let reward = match scale_to_base_units(slots_passed, ctx.mint_account.decimals) {
        Some(b) => b,
        None => {
            return Err(Errors::ArithmeticOverflow);
        },
    };
    if ctx.token_vault_account.amount < reward {
        return Err(Errors::InsufficientVaultBalance);
    }
    if ctx.stake_account.amount < requested_amount || ctx.user_token_account.amount > u64::MAX
        - reward || ctx.user_token_account.amount + reward > u64::MAX - requested_amount {
        return Err(Errors::TransferFailed);
    }
    let vault_auth = derive_reward_vault_authority(SeedTag::Vault).unwrap();
    let vault_id = BalanceId::RewardVault;
    transfer_exact(
        &mut ctx.token_vault_account,
        &mut ctx.user_token_account,
        reward,
        &vault_auth,
        &vault_id,
    );
    let escrow_auth = derive_escrow_authority(SeedTag::Token, ctx.signer).unwrap();
    let escrow_id = BalanceId::Escrow(ctx.signer);
    transfer_exact(
        &mut ctx.stake_account,
        &mut ctx.user_token_account,
        requested_amount,
        &escrow_auth,
        &escrow_id,
    );
    if ctx.stake_account.amount == 0 {
        ctx.stake_info_account.is_staked = false;
    }
    ctx.stake_info_account.stake_at_slot = now;
    Ok(())
}

} // verus!
