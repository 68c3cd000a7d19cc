use checking::accounts::{Initialize, Mint, Stake, StakeInfo, TokenAccount, Unstake};
use checking::errors::Errors;
use checking::staking::{initialize, stake, unstake};

fn stake_ctx(staked: bool, start: u64, escrow: u64, wallet: u64, decimals: u8) -> Stake {
    Stake {
        signer: 1,
        stake_info_account: StakeInfo {
            stake_at_slot: start,
            is_staked: staked,
        },
        stake_account: TokenAccount { amount: escrow },
        user_token_account: TokenAccount { amount: wallet },
        mint_account: Mint { decimals },
    }
}

fn unstake_ctx(start: u64, escrow: u64, wallet: u64, vault: u64, decimals: u8) -> Unstake {
    Unstake {
        signer: 1,
        stake_info_account: StakeInfo {
            stake_at_slot: start,
            is_staked: true,
        },
        stake_account: TokenAccount { amount: escrow },
        user_token_account: TokenAccount { amount: wallet },
        token_vault_account: TokenAccount { amount: vault },
        mint_account: Mint { decimals },
    }
}

#[test]
fn machine_stake_moves_scaled_amount() {
    let mut ctx = stake_ctx(false, 0, 0, 2_500_000, 6);
    assert_eq!(stake(&mut ctx, 2, 100), Ok(()));
    assert!(ctx.stake_info_account.is_staked);
    assert_eq!(ctx.stake_info_account.stake_at_slot, 100);
    assert_eq!(ctx.stake_account.amount, 2_000_000);
    assert_eq!(ctx.user_token_account.amount, 500_000);
}

#[test]
fn machine_stake_errors_leave_context_unchanged() {
    let before = stake_ctx(true, 50, 1_000_000, 9_000_000, 6);
    let mut ctx = before;
    assert_eq!(stake(&mut ctx, 2, 100), Err(Errors::AlreadyStaked));
    assert_eq!(ctx, before);

    let before = stake_ctx(false, 0, 0, 9_000_000, 6);
    let mut ctx = before;
    assert_eq!(stake(&mut ctx, 0, 100), Err(Errors::ZeroAmount));
    assert_eq!(ctx, before);
    assert_eq!(stake(&mut ctx, u64::MAX, 100), Err(Errors::ArithmeticOverflow));
    assert_eq!(ctx, before);
    assert_eq!(stake(&mut ctx, 10, 100), Err(Errors::TransferFailed));
    assert_eq!(ctx, before);
}

#[test]
fn machine_unstake_at_start_slot_pays_zero_reward() {
    // Zero elapsed slots earn exactly zero reward: the principal comes
    // back even from an empty vault.
    let mut ctx = unstake_ctx(100, 2_000_000, 0, 0, 6);
    assert_eq!(unstake(&mut ctx, 2_000_000, 100), Ok(()));
    assert_eq!(ctx.user_token_account.amount, 2_000_000);
    assert_eq!(ctx.token_vault_account.amount, 0);
    assert!(!ctx.stake_info_account.is_staked);
}

#[test]
fn machine_unstake_rewards_grow_with_elapsed_time() {
    // Same position, one slot later: exactly one more scaled token unit.
    let mut at_110 = unstake_ctx(100, 1_000, 0, 50_000_000, 3);
    let mut at_111 = at_110;
    assert_eq!(unstake(&mut at_110, 1_000, 110), Ok(()));
    assert_eq!(unstake(&mut at_111, 1_000, 111), Ok(()));
    assert_eq!(at_110.user_token_account.amount, 1_000 + 10_000);
    assert_eq!(at_111.user_token_account.amount, 1_000 + 11_000);
}

#[test]
fn machine_unstake_errors_leave_context_unchanged() {
    let mut before = unstake_ctx(100, 2_000_000, 7, 50_000_000, 6);
    before.stake_info_account.is_staked = false;
    let mut ctx = before;
    assert_eq!(unstake(&mut ctx, 1, 150), Err(Errors::NotStaked));
    assert_eq!(ctx, before);

    let before = unstake_ctx(100, 2_000_000, 7, 50_000_000, 6);
    let mut ctx = before;
    assert_eq!(unstake(&mut ctx, 0, 150), Err(Errors::ZeroAmount));
    assert_eq!(ctx, before);
    assert_eq!(unstake(&mut ctx, 3_000_000, 150), Err(Errors::TransferFailed));
    assert_eq!(ctx, before);

    let before = unstake_ctx(100, 2_000_000, 7, 49_999_999, 6);
    let mut ctx = before;
    assert_eq!(
        unstake(&mut ctx, 2_000_000, 150),
        Err(Errors::InsufficientVaultBalance)
    );
    assert_eq!(ctx, before);

    // elapsed * 10^decimals above 64 bits fails closed
    let before = unstake_ctx(0, 2_000_000, 7, u64::MAX, 6);
    let mut ctx = before;
    assert_eq!(
        unstake(&mut ctx, 2_000_000, u64::MAX),
        Err(Errors::ArithmeticOverflow)
    );
    assert_eq!(ctx, before);
}

#[test]
fn machine_initialize_provisions_once() {
    let mut ctx = Initialize {
        signer: 1,
        vault_provisioned: false,
        token_vault_account: TokenAccount { amount: 77 },
        mint_account: Mint { decimals: 6 },
    };
    assert_eq!(initialize(&mut ctx), Ok(()));
    assert!(ctx.vault_provisioned);
    assert_eq!(ctx.token_vault_account.amount, 0);

    // idempotent: a provisioned vault is left alone
    ctx.token_vault_account.amount = 123;
    assert_eq!(initialize(&mut ctx), Ok(()));
    assert!(ctx.vault_provisioned);
    assert_eq!(ctx.token_vault_account.amount, 123);
}
