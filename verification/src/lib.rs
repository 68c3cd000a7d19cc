//! A single-asset staking ledger.
//!
//! Users deposit a fungible token into a custodial escrow and accrue a
//! time-proportional reward, which they withdraw together with their
//! principal on unstake. The crate verifies the accounting core: the
//! per-user stake ledger entry, the stake/unstake state machine with its
//! flat linear reward formula, and the access-control predicate that
//! stands in for derived vault signing authorities. Moving the asset
//! itself, provisioning storage, and reading the clock are external
//! collaborators: callers hand in the current slot and the balances are
//! modelled as explicit records.

pub mod accounts;
pub mod authority;
pub mod errors;
pub mod laws;
pub mod ledger;
pub mod math;
pub mod staking;
