//! Decimal scaling and reward arithmetic.
//!
//! A caller-supplied token amount is a whole-token count; the ledger works
//! in base units, related by the factor `10^decimals`. The reward for an
//! open position is `elapsed_slots * 10^decimals`: one scaled token unit
//! per elapsed slot, flat and linear, independent of the staked principal.

use vstd::prelude::*;

verus! {

/// `10^d`: the base-unit scaling factor of a mint with `d` decimals.
pub open spec fn pow10(d: nat) -> nat
    decreases d,
{
    if d == 0 {
        1
    } else {
        10 * pow10((d - 1) as nat)
    }
}

/// The scaling factor is always positive.
pub proof fn lemma_pow10_pos(d: nat)
    ensures
        pow10(d) >= 1,
    decreases d,
{
    if d > 0 {
        lemma_pow10_pos((d - 1) as nat);
    }
}

/// The scaling factor grows with the number of decimals.
pub proof fn lemma_pow10_increases(a: nat, b: nat)
    requires
        a <= b,
    ensures
        pow10(a) <= pow10(b),
    decreases b,
{
    if a < b {
        lemma_pow10_increases(a, (b - 1) as nat);
        lemma_pow10_pos((b - 1) as nat);
    }
}

/// `amount` whole tokens expressed in base units.
pub open spec fn base_units(amount: u64, decimals: u8) -> int {
    amount * pow10(decimals as nat)
}

/// The reward owed to a position opened at slot `start` and closed at slot
/// `now`, in base units: one scaled token unit per elapsed slot.
pub open spec fn reward_amount(start: u64, now: u64, decimals: u8) -> int {
    (now - start) * pow10(decimals as nat)
}

/// `10^d` as a `u64`, or `None` when it does not fit.
pub fn pow10_checked(d: u8) -> (r: Option<u64>)
    ensures
        match r {
            Some(f) => f == pow10(d as nat),
            None => pow10(d as nat) > u64::MAX,
        },
{
    let mut acc: u64 = 1;
    let mut i: u8 = 0;
    while i < d
        invariant
            i <= d,
            acc == pow10(i as nat),
        decreases d - i,
    {
        acc = match acc.checked_mul(10) {
            Some(next) => next,
            None => {
                proof {
                    lemma_pow10_increases((i + 1) as nat, d as nat);
                }
                return None;
            },
        };
        i = i + 1;
    }
    Some(acc)
}

/// `amount * 10^d` as a `u64`, or `None` when the factor or the product
/// exceeds the representable range.
pub fn scale_to_base_units(amount: u64, d: u8) -> (r: Option<u64>)
    ensures
        match r {
            Some(s) => s == amount * pow10(d as nat) && pow10(d as nat) <= u64::MAX,
            None => pow10(d as nat) > u64::MAX || amount * pow10(d as nat) > u64::MAX,
        },
{
    match pow10_checked(d) {
        Some(factor) => amount.checked_mul(factor),
        None => None,
    }
}

} // verus!
