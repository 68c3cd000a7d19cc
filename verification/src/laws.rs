//! Laws of the staking state machine, stated over the spec-level
//! transitions `stake_step` and `unstake_step` that the executable entry
//! points are proved to implement.

use vstd::prelude::*;

use crate::accounts::{Stake, Unstake};
use crate::errors::Errors;
use crate::ledger::StakingLedger;
use crate::math::{lemma_pow10_pos, pow10, reward_amount};
use crate::staking::{stake_step, unstake_step};

verus! {

/// Staking twice without an intervening unstake always fails: whatever the
/// amounts and slots, the second call returns `AlreadyStaked` and leaves
/// the ledger entry and every balance — the escrow in particular —
/// unchanged.
pub proof fn lemma_stake_twice_rejected(
    ctx: Stake,
    amount1: u64,
    now1: u64,
    amount2: u64,
    now2: u64,
)
    requires
        stake_step(ctx, amount1, now1).1 is Ok,
    ensures
        ({
            let staked = stake_step(ctx, amount1, now1).0;
            stake_step(staked, amount2, now2) == (staked, Err::<(), Errors>(Errors::AlreadyStaked))
        }),
{
}

/// A stake of zero tokens is rejected with `ZeroAmount` and moves nothing.
/// Token amounts are unsigned, so zero is the only non-positive amount.
/// The law speaks of entries without an open position: on an entry whose
/// position is already open the call fails too, but reports
/// `AlreadyStaked`, which is checked first.
pub proof fn lemma_stake_zero_rejected(ctx: Stake, now: u64)
    requires
        !ctx.stake_info_account.is_staked,
    ensures
        stake_step(ctx, 0, now) == (ctx, Err::<(), Errors>(Errors::ZeroAmount)),
{
}

/// Unstake against an entry with no open position fails with `NotStaked`
/// and moves nothing.
pub proof fn lemma_unstake_unstaked_rejected(ctx: Unstake, requested_amount: u64, now: u64)
    requires
        !ctx.stake_info_account.is_staked,
    ensures
        unstake_step(ctx, requested_amount, now) == (
            ctx,
            Err::<(), Errors>(Errors::NotStaked),
        ),
{
}

/// At the ledger, a user with no record at all — so in particular one with
/// no prior successful stake — is rejected the same way: the unstake call
/// such a user would issue fails with `NotStaked`.
pub proof fn lemma_unstake_unknown_user_rejected(
    ledger: StakingLedger,
    user: u64,
    requested_amount: u64,
    now: u64,
)
    requires
        !ledger.accounts@.contains_key(user),
    ensures
        unstake_step(ledger.spec_unstake_ctx(user), requested_amount, now) == (
            ledger.spec_unstake_ctx(user),
            Err::<(), Errors>(Errors::NotStaked),
        ),
{
}

/// Reward monotonicity: with the start slot and the decimals fixed, the
/// reward at the start slot itself is exactly zero, and a strictly later
/// slot earns a strictly larger reward.
pub proof fn lemma_reward_monotonic(start: u64, t1: u64, t2: u64, decimals: u8)
    requires
        start <= t1,
        t1 < t2,
    ensures
        reward_amount(start, start, decimals) == 0,
        reward_amount(start, t1, decimals) < reward_amount(start, t2, decimals),
{
    lemma_pow10_pos(decimals as nat);
    assert((t1 - start) * pow10(decimals as nat) < (t2 - start) * pow10(decimals as nat))
        by (nonlinear_arith)
        requires
            t1 - start < t2 - start,
            pow10(decimals as nat) >= 1,
    ;
}

/// When the vault cannot cover the computed reward, unstake fails with
/// `InsufficientVaultBalance`, and the ledger entry, the escrow, the
/// wallet and the vault all stay exactly as they were: no partial debit.
pub proof fn lemma_insufficient_vault_rejected(ctx: Unstake, requested_amount: u64, now: u64)
    requires
        ctx.stake_info_account.is_staked,
        requested_amount > 0,
        now >= ctx.stake_info_account.stake_at_slot,
        pow10(ctx.mint_account.decimals as nat) <= u64::MAX,
        reward_amount(ctx.stake_info_account.stake_at_slot, now, ctx.mint_account.decimals)
            <= u64::MAX,
        ctx.token_vault_account.amount < reward_amount(
            ctx.stake_info_account.stake_at_slot,
            now,
            ctx.mint_account.decimals,
        ),
    ensures
        unstake_step(ctx, requested_amount, now) == (
            ctx,
            Err::<(), Errors>(Errors::InsufficientVaultBalance),
        ),
{
}

/// Serialized debits against the shared reward vault never overdraw it:
/// when two unstake calls run in turn against the same vault balance, each
/// reward is covered at its turn, and the vault ends at the starting
/// balance minus both rewards — never below zero.
pub proof fn lemma_vault_not_overdrawn(
    ctx1: Unstake,
    requested1: u64,
    now1: u64,
    ctx2: Unstake,
    requested2: u64,
    now2: u64,
)
    requires
        now1 >= ctx1.stake_info_account.stake_at_slot,
        now2 >= ctx2.stake_info_account.stake_at_slot,
        unstake_step(ctx1, requested1, now1).1 is Ok,
        ctx2.token_vault_account == unstake_step(ctx1, requested1, now1).0.token_vault_account,
        unstake_step(ctx2, requested2, now2).1 is Ok,
    ensures
        ({
            let r1 = reward_amount(
                ctx1.stake_info_account.stake_at_slot,
                now1,
                ctx1.mint_account.decimals,
            );
            let r2 = reward_amount(
                ctx2.stake_info_account.stake_at_slot,
                now2,
                ctx2.mint_account.decimals,
            );
            &&& 0 <= r1
            &&& 0 <= r2
            &&& r1 + r2 <= ctx1.token_vault_account.amount
            &&& unstake_step(ctx2, requested2, now2).0.token_vault_account.amount
                == ctx1.token_vault_account.amount - r1 - r2
        }),
{
    lemma_pow10_pos(ctx1.mint_account.decimals as nat);
    lemma_pow10_pos(ctx2.mint_account.decimals as nat);
    assert((now1 - ctx1.stake_info_account.stake_at_slot) * pow10(
        ctx1.mint_account.decimals as nat,
    ) >= 0) by (nonlinear_arith)
        requires
            now1 - ctx1.stake_info_account.stake_at_slot >= 0,
            pow10(ctx1.mint_account.decimals as nat) >= 1,
    ;
    assert((now2 - ctx2.stake_info_account.stake_at_slot) * pow10(
        ctx2.mint_account.decimals as nat,
    ) >= 0) by (nonlinear_arith)
        requires
            now2 - ctx2.stake_info_account.stake_at_slot >= 0,
            pow10(ctx2.mint_account.decimals as nat) >= 1,
    ;
}

/// A stake call creates and destroys nothing: on success the scaled amount
/// has moved from the wallet to the escrow and their sum is unchanged.
pub proof fn lemma_stake_conserves_tokens(ctx: Stake, amount: u64, now: u64)
    requires
        stake_step(ctx, amount, now).1 is Ok,
    ensures
        ({
            let after = stake_step(ctx, amount, now).0;
            after.user_token_account.amount + after.stake_account.amount
                == ctx.user_token_account.amount + ctx.stake_account.amount
        }),
{
}

/// An unstake call creates and destroys nothing: on success the sum of the
/// wallet, the escrow and the vault is unchanged — the reward and the
/// principal both end up in the user's wallet.
pub proof fn lemma_unstake_conserves_tokens(ctx: Unstake, requested_amount: u64, now: u64)
    requires
        now >= ctx.stake_info_account.stake_at_slot,
        unstake_step(ctx, requested_amount, now).1 is Ok,
    ensures
        ({
            let after = unstake_step(ctx, requested_amount, now).0;
            after.user_token_account.amount + after.stake_account.amount
                + after.token_vault_account.amount == ctx.user_token_account.amount
                + ctx.stake_account.amount + ctx.token_vault_account.amount
        }),
{
}

/// The position closes exactly when the whole escrow is withdrawn: after a
/// successful unstake the position is still open iff some escrow remains,
/// and the start slot is reset to the unstake slot either way, so any
/// remaining principal accrues reward afresh from that slot.
pub proof fn lemma_unstake_closes_iff_drained(ctx: Unstake, requested_amount: u64, now: u64)
    requires
        unstake_step(ctx, requested_amount, now).1 is Ok,
    ensures
        ({
            let after = unstake_step(ctx, requested_amount, now).0;
            &&& (after.stake_info_account.is_staked <==> requested_amount
                < ctx.stake_account.amount)
            &&& after.stake_info_account.stake_at_slot == now
        }),
{
}

} // verus!
