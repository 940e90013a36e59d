//! The share arithmetic of the pool: a user's `lpusd_amount` is a share
//! that is worth `lpusd_amount * total_percent / DENOMINATOR` lpUSD.
use vstd::prelude::*;
use vstd::arithmetic::div_mod::{lemma_fundamental_div_mod, lemma_div_multiples_vanish};
use vstd::arithmetic::mul::{lemma_mul_inequality, lemma_mul_is_distributive_add,
    lemma_mul_is_commutative};

verus! {

/// The denominator of `total_percent`: a share is worth `total_percent / DENOMINATOR` lpUSD.
pub const DENOMINATOR: u64 = 100;

/// The share a user holds after depositing `amount` lpUSD on top of the share `lpusd_amount`.
pub open spec fn deposit_share(lpusd_amount: int, total_percent: int, amount: int) -> int {
    (lpusd_amount * total_percent + amount * DENOMINATOR) / total_percent
}

/// The lpUSD a user with the share `lpusd_amount` may withdraw.
pub open spec fn withdrawable(lpusd_amount: int, total_percent: int) -> int {
    lpusd_amount * total_percent / (DENOMINATOR as int)
}

/// The share a user holds after withdrawing `amount` lpUSD from the share `lpusd_amount`.
pub open spec fn withdraw_share(lpusd_amount: int, total_percent: int, amount: int) -> int {
    (lpusd_amount * total_percent - amount * DENOMINATOR) / total_percent
}

/// An amount no larger than the withdrawable lpUSD is worth no more than the
/// share itself, and a positive one can only be withdrawn at a positive
/// `total_percent`.
pub proof fn lemma_withdrawable_bound(lpusd_amount: nat, total_percent: nat, amount: nat)
    requires
        1 <= amount <= withdrawable(lpusd_amount as int, total_percent as int),
    ensures
        amount * DENOMINATOR <= lpusd_amount * total_percent,
        total_percent > 0,
{
    let x: int = lpusd_amount as int * total_percent as int;
    let q: int = x / (DENOMINATOR as int);
    lemma_fundamental_div_mod(x, DENOMINATOR as int);
    lemma_mul_inequality(amount as int, q, DENOMINATOR as int);
    lemma_mul_is_commutative(q, DENOMINATOR as int);
    if total_percent == 0 {
        assert(x == 0) by (nonlinear_arith)
            requires
                x == lpusd_amount * total_percent,
                total_percent == 0,
        ;
    }
}

/// Where `total_percent` divides `amount * DENOMINATOR`, a deposit adds exactly
/// `amount * DENOMINATOR / total_percent` to the share.
pub proof fn lemma_deposit_share_exact(lpusd_amount: nat, total_percent: nat, amount: nat)
    requires
        total_percent > 0,
        (amount * DENOMINATOR) % (total_percent as int) == 0,
    ensures
        deposit_share(lpusd_amount as int, total_percent as int, amount as int) == lpusd_amount
            + (amount * DENOMINATOR) / (total_percent as int),
{
    let tp: int = total_percent as int;
    let k: int = (amount * DENOMINATOR) / tp;
    lemma_fundamental_div_mod(amount * DENOMINATOR, tp);
    assert(amount * DENOMINATOR == tp * k);
    lemma_mul_is_commutative(lpusd_amount as int, tp);
    lemma_mul_is_distributive_add(tp, lpusd_amount as int, k);
    assert(lpusd_amount * tp + amount * DENOMINATOR == tp * (lpusd_amount + k));
    lemma_div_multiples_vanish(lpusd_amount + k, tp);
}

} // verus!
