use checking::authority::{
    derive_escrow_authority, derive_reward_vault_authority, may_debit, Authority, BalanceId,
    SeedTag,
};
use checking::math::{pow10_checked, scale_to_base_units};

#[test]
fn pow10_exact_values() {
    assert_eq!(pow10_checked(0), Some(1));
    assert_eq!(pow10_checked(1), Some(10));
    assert_eq!(pow10_checked(6), Some(1_000_000));
    assert_eq!(pow10_checked(19), Some(10_000_000_000_000_000_000));
    assert_eq!(pow10_checked(20), None);
    assert_eq!(pow10_checked(255), None);
}

#[test]
fn scaling_exact_values() {
    assert_eq!(scale_to_base_units(2, 6), Some(2_000_000));
    assert_eq!(scale_to_base_units(0, 6), Some(0));
    assert_eq!(scale_to_base_units(u64::MAX, 0), Some(u64::MAX));
    assert_eq!(scale_to_base_units(u64::MAX, 1), None);
    assert_eq!(scale_to_base_units(1_844_674_407_370_955_161, 1), Some(18_446_744_073_709_551_610));
    assert_eq!(scale_to_base_units(1_844_674_407_370_955_162, 1), None);
    assert_eq!(scale_to_base_units(1, 20), None);
}

#[test]
fn escrow_authority_confined_to_own_escrow() {
    let auth = derive_escrow_authority(SeedTag::Token, 42).unwrap();
    assert_eq!(auth, Authority::EscrowAuthority(42));
    assert!(may_debit(&auth, &BalanceId::Escrow(42)));
    assert!(!may_debit(&auth, &BalanceId::Escrow(43)));
    assert!(!may_debit(&auth, &BalanceId::UserWallet(42)));
    assert!(!may_debit(&auth, &BalanceId::RewardVault));
}

#[test]
fn vault_authority_confined_to_vault() {
    let auth = derive_reward_vault_authority(SeedTag::Vault).unwrap();
    assert_eq!(auth, Authority::RewardVaultAuthority);
    assert!(may_debit(&auth, &BalanceId::RewardVault));
    assert!(!may_debit(&auth, &BalanceId::Escrow(1)));
    assert!(!may_debit(&auth, &BalanceId::UserWallet(1)));
}

#[test]
fn user_signature_confined_to_own_wallet() {
    let auth = Authority::UserSignature(5);
    assert!(may_debit(&auth, &BalanceId::UserWallet(5)));
    assert!(!may_debit(&auth, &BalanceId::UserWallet(6)));
    assert!(!may_debit(&auth, &BalanceId::Escrow(5)));
    assert!(!may_debit(&auth, &BalanceId::RewardVault));
}

#[test]
fn derivation_requires_the_right_tag() {
    assert_eq!(derive_escrow_authority(SeedTag::Vault, 42), None);
    assert_eq!(derive_escrow_authority(SeedTag::StakeInfo, 42), None);
    assert_eq!(derive_reward_vault_authority(SeedTag::Token), None);
    assert_eq!(derive_reward_vault_authority(SeedTag::StakeInfo), None);
}
