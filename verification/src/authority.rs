//! Vault authority derivation, as an access-control predicate.
//!
//! The host ledger environment derives signing authorities for the escrow
//! and reward vault balances deterministically from fixed domain-separation
//! tags plus, for the per-user escrow, the user's identity; no private key
//! is stored. Outside such an environment the same guarantee is an access
//! check: a debit of a custodial balance is accepted only under the one
//! authority derived for that balance, so only the staking state machine,
//! which performs the derivations, can move funds out of a vault.

use vstd::prelude::*;

verus! {

/// The fixed domain-separation tags authorities are derived from.
#[derive(Clone, Copy, Debug, PartialEq, Eq, Structural)]
pub enum SeedTag {
    /// Tag of the global reward vault authority.
    Vault,
    /// Tag of the per-user escrow authority.
    Token,
    /// Tag of the per-user stake ledger entry address.
    StakeInfo,
}

/// A signing authority over a custodial balance.
#[derive(Clone, Copy, Debug, PartialEq, Eq, Structural)]
pub enum Authority {
    /// The user's own signature; authorizes debits of their wallet.
    UserSignature(u64),
    /// Derived from `SeedTag::Token` and a user's identity; authorizes
    /// debits of that user's escrow balance only.
    EscrowAuthority(u64),
    /// Derived from `SeedTag::Vault` alone; authorizes debits of the
    /// global reward vault for any user's unstake.
    RewardVaultAuthority,
}

/// Names a custodial balance in the system.
#[derive(Clone, Copy, Debug, PartialEq, Eq, Structural)]
pub enum BalanceId {
    /// A user's own available balance.
    UserWallet(u64),
    /// A user's escrow balance.
    Escrow(u64),
    /// The global reward vault balance.
    RewardVault,
}

/// Which authority may move funds out of which balance.
pub open spec fn spec_may_debit(auth: Authority, from: BalanceId) -> bool {
    match (auth, from) {
        (Authority::UserSignature(u), BalanceId::UserWallet(w)) => u == w,
        (Authority::EscrowAuthority(u), BalanceId::Escrow(e)) => u == e,
        (Authority::RewardVaultAuthority, BalanceId::RewardVault) => true,
        _ => false,
    }
}

/// Runtime form of the access-control predicate.
pub fn may_debit(auth: &Authority, from: &BalanceId) -> (r: bool)
    ensures
        r == spec_may_debit(*auth, *from),
{
    match (auth, from) {
        (Authority::UserSignature(u), BalanceId::UserWallet(w)) => u == w,
        (Authority::EscrowAuthority(u), BalanceId::Escrow(e)) => u == e,
        (Authority::RewardVaultAuthority, BalanceId::RewardVault) => true,
        _ => false,
    }
}

/// Derives the authority over `user`'s escrow: a pure function of the
/// `Token` tag and the user's identity, recomputable by any holder of both.
pub fn derive_escrow_authority(tag: SeedTag, user: u64) -> (auth: Option<Authority>)
    ensures
        tag == SeedTag::Token ==> auth == Some(Authority::EscrowAuthority(user)),
        tag != SeedTag::Token ==> auth is None,
{
    match tag {
        SeedTag::Token => Some(Authority::EscrowAuthority(user)),
        _ => None,
    }
}

/// Derives the global reward vault authority: a pure function of the
/// `Vault` tag alone.
pub fn derive_reward_vault_authority(tag: SeedTag) -> (auth: Option<Authority>)
    ensures
        tag == SeedTag::Vault ==> auth == Some(Authority::RewardVaultAuthority),
        tag != SeedTag::Vault ==> auth is None,
{
    match tag {
        SeedTag::Vault => Some(Authority::RewardVaultAuthority),
        _ => None,
    }
}

/// An escrow authority is confined to its own user's escrow: it can debit
/// `user`'s escrow balance and nothing else.
pub proof fn lemma_escrow_authority_isolation(user: u64, from: BalanceId)
    ensures
        spec_may_debit(Authority::EscrowAuthority(user), from) <==> from == BalanceId::Escrow(
            user,
        ),
{
}

/// The reward vault authority reaches no user-owned balance: it can debit
/// the shared reward vault and nothing else.
pub proof fn lemma_vault_authority_isolation(from: BalanceId)
    ensures
        spec_may_debit(Authority::RewardVaultAuthority, from) <==> from == BalanceId::RewardVault,
{
}

/// A user's signature moves funds only out of that user's own wallet: no
/// user can debit an escrow, the vault, or another user's wallet.
pub proof fn lemma_user_signature_isolation(user: u64, from: BalanceId)
    ensures
        spec_may_debit(Authority::UserSignature(user), from) <==> from == BalanceId::UserWallet(
            user,
        ),
{
}

} // verus!
