//! Properties that span the instructions of the auction.
use vstd::prelude::*;
use vstd::arithmetic::div_mod::{lemma_div_multiples_vanish, lemma_div_plus_one,
    lemma_fundamental_div_mod, lemma_div_is_ordered};
use vstd::arithmetic::mul::{lemma_mul_is_commutative, lemma_mul_is_distributive_add,
    lemma_mul_nonnegative};
use crate::share::{DENOMINATOR, deposit_share, withdrawable, withdraw_share,
    lemma_deposit_share_exact};
use crate::auction::{DepositLpUSD, WithdrawLpUSD, Initialize, deposit_error, deposit_fits,
    after_deposit, withdraw_error, withdraw_fits, after_withdraw, is_initialized_state};
use crate::state::{AuctionStateAccount, AuctionBumps, UserStateAccount, ErrorCode, NAME_LEN};
use crate::share::lemma_withdrawable_bound;

verus! {

/// Floor division by a positive `d`: `(x / d) * d <= x < (x / d + 1) * d`.
proof fn lemma_floor(x: int, d: int)
    requires
        d > 0,
    ensures
        (x / d) * d <= x < (x / d + 1) * d,
{
    lemma_fundamental_div_mod(x, d);
    vstd::arithmetic::div_mod::lemma_mod_bound(x, d);
    lemma_mul_is_commutative(x / d, d);
    assert((x / d + 1) * d == (x / d) * d + d) by {
        vstd::arithmetic::mul::lemma_mul_is_distributive_add_other_way(d, x / d, 1);
    }
}

/// `0 <= x / d <= x` for `x >= 0` and `d >= 1`.
proof fn lemma_div_within(x: int, d: int)
    requires
        x >= 0,
        d >= 1,
    ensures
        0 <= x / d <= x,
{
    vstd::arithmetic::div_mod::lemma_div_pos_is_pos(x, d);
    vstd::arithmetic::div_mod::lemma_div_is_ordered_by_denominator(x, 1, d);
    vstd::arithmetic::div_mod::lemma_div_basics(x);
}

/// The share formulas are floor divisions: the share after a deposit is the
/// largest `q` with `q * total_percent <= lpusd_amount * total_percent +
/// amount * DENOMINATOR`; the withdrawable lpUSD is the largest `w` with
/// `w * DENOMINATOR <= lpusd_amount * total_percent`; the share after a
/// withdrawal is the largest `q` with `q * total_percent <= lpusd_amount *
/// total_percent - amount * DENOMINATOR`.
pub proof fn law_share_formulas(lpusd_amount: u64, total_percent: u64, amount: u64)
    ensures
        total_percent > 0 ==> ({
            let q = deposit_share(lpusd_amount as int, total_percent as int, amount as int);
            q * total_percent <= lpusd_amount * total_percent + amount * DENOMINATOR
                < (q + 1) * total_percent
        }),
        ({
            let w = withdrawable(lpusd_amount as int, total_percent as int);
            w * DENOMINATOR <= lpusd_amount * total_percent < (w + 1) * DENOMINATOR
        }),
        total_percent > 0 ==> ({
            let q = withdraw_share(lpusd_amount as int, total_percent as int, amount as int);
            q * total_percent <= lpusd_amount * total_percent - amount * DENOMINATOR
                < (q + 1) * total_percent
        }),
        // a positive amount is above the withdrawable lpUSD exactly when its
        // DENOMINATOR-fold is above what the share is worth
        amount > withdrawable(lpusd_amount as int, total_percent as int) <==> amount
            * DENOMINATOR > lpusd_amount * total_percent,
{
    let l: int = lpusd_amount as int;
    let tp: int = total_percent as int;
    let a: int = amount as int;
    if tp > 0 {
        lemma_floor(l * tp + a * DENOMINATOR, tp);
        lemma_floor(l * tp - a * DENOMINATOR, tp);
    }
    lemma_floor(l * tp, DENOMINATOR as int);
    let w = withdrawable(l, tp);
    if a > w {
        assert(a * DENOMINATOR >= (w + 1) * DENOMINATOR) by {
            vstd::arithmetic::mul::lemma_mul_inequality(w + 1, a, DENOMINATOR as int);
        }
    } else {
        assert(a * DENOMINATOR <= w * DENOMINATOR) by {
            vstd::arithmetic::mul::lemma_mul_inequality(a, w, DENOMINATOR as int);
        }
    }
}

/// A deposit is refused with `InvalidAmount` exactly for a zero amount, with
/// `InsufficientAmount` exactly for a positive amount above the depositor's
/// token balance, and accepted exactly for `1 <= amount <= balance`.
pub proof fn law_deposit_refusals(d: DepositLpUSD, amount: u64)
    ensures
        deposit_error(d, amount) == Some(ErrorCode::InvalidAmount) <==> amount == 0,
        deposit_error(d, amount) == Some(ErrorCode::InsufficientAmount) <==> (amount >= 1
            && d.user_lpusd_amount < amount),
        deposit_error(d, amount) is None <==> 1 <= amount <= d.user_lpusd_amount,
{
}

/// What an accepted deposit of `amount` does: the pool's `total_lpusd` and
/// `total_deposited_lpusd` and the depositor's `temp_amount` each rise by
/// exactly `amount`; the depositor's share becomes the largest `q` with
/// `q * total_percent <= share * total_percent + amount * DENOMINATOR`; every
/// other field of both accounts, and the recorded token balance, is kept.
pub proof fn law_deposit_effect(d: DepositLpUSD, amount: u64)
    requires
        deposit_error(d, amount) is None,
        deposit_fits(d, amount),
    ensures
        after_deposit(d, amount).state_account.total_lpusd == d.state_account.total_lpusd
            + amount,
        after_deposit(d, amount).state_account.total_deposited_lpusd
            == d.state_account.total_deposited_lpusd + amount,
        after_deposit(d, amount).user_account.temp_amount == d.user_account.temp_amount + amount,
        after_deposit(d, amount).user_account.lpusd_amount * d.state_account.total_percent
            <= d.user_account.lpusd_amount * d.state_account.total_percent + amount
            * DENOMINATOR < (after_deposit(d, amount).user_account.lpusd_amount + 1)
            * d.state_account.total_percent,
        after_deposit(d, amount).state_account == (AuctionStateAccount {
            total_lpusd: after_deposit(d, amount).state_account.total_lpusd,
            total_deposited_lpusd: after_deposit(d, amount).state_account.total_deposited_lpusd,
            ..d.state_account
        }),
        after_deposit(d, amount).user_account == (UserStateAccount {
            lpusd_amount: after_deposit(d, amount).user_account.lpusd_amount,
            temp_amount: after_deposit(d, amount).user_account.temp_amount,
            ..d.user_account
        }),
        after_deposit(d, amount).user_lpusd_amount == d.user_lpusd_amount,
{
    let l: int = d.user_account.lpusd_amount as int;
    let tp: int = d.state_account.total_percent as int;
    let a: int = amount as int;
    assert(l * tp >= 0) by {
        lemma_mul_nonnegative(l, tp);
    }
    lemma_div_within(l * tp + a * DENOMINATOR, tp);
    law_share_formulas(d.user_account.lpusd_amount, d.state_account.total_percent, amount);
}

/// A withdrawal is refused with `InvalidAmount` exactly for a zero amount,
/// with `InsufficientPoolAmount` exactly for a positive amount above the
/// pool's balance, with `ExceedAmount` exactly for an amount within the pool
/// whose `DENOMINATOR`-fold is above `share * total_percent`, and accepted
/// otherwise.
pub proof fn law_withdraw_refusals(w: WithdrawLpUSD, amount: u64)
    ensures
        withdraw_error(w, amount) == Some(ErrorCode::InvalidAmount) <==> amount == 0,
        withdraw_error(w, amount) == Some(ErrorCode::InsufficientPoolAmount) <==> (amount >= 1
            && w.pool_lpusd_amount < amount),
        withdraw_error(w, amount) == Some(ErrorCode::ExceedAmount) <==> (amount >= 1
            && w.pool_lpusd_amount >= amount && amount * DENOMINATOR
            > w.user_account.lpusd_amount * w.state_account.total_percent),
        withdraw_error(w, amount) is None <==> (1 <= amount <= w.pool_lpusd_amount && amount
            * DENOMINATOR <= w.user_account.lpusd_amount * w.state_account.total_percent),
{
    law_share_formulas(w.user_account.lpusd_amount, w.state_account.total_percent, amount);
}

/// What an accepted withdrawal of `amount` does: the pool's `total_lpusd`
/// loses the depositor's whole previous share, `total_deposited_lpusd` is
/// kept; the depositor's share becomes the largest `q` with `q *
/// total_percent <= share * total_percent - amount * DENOMINATOR` (no larger
/// than before); every other field of both accounts, and the recorded pool
/// balance, is kept.
pub proof fn law_withdraw_effect(w: WithdrawLpUSD, amount: u64)
    requires
        withdraw_error(w, amount) is None,
        withdraw_fits(w, amount),
    ensures
        after_withdraw(w, amount).state_account.total_lpusd == w.state_account.total_lpusd
            - w.user_account.lpusd_amount,
        after_withdraw(w, amount).state_account.total_deposited_lpusd
            == w.state_account.total_deposited_lpusd,
        after_withdraw(w, amount).user_account.lpusd_amount * w.state_account.total_percent
            <= w.user_account.lpusd_amount * w.state_account.total_percent - amount
            * DENOMINATOR < (after_withdraw(w, amount).user_account.lpusd_amount + 1)
            * w.state_account.total_percent,
        after_withdraw(w, amount).user_account.lpusd_amount <= w.user_account.lpusd_amount,
        after_withdraw(w, amount).state_account == (AuctionStateAccount {
            total_lpusd: after_withdraw(w, amount).state_account.total_lpusd,
            ..w.state_account
        }),
        after_withdraw(w, amount).user_account == (UserStateAccount {
            lpusd_amount: after_withdraw(w, amount).user_account.lpusd_amount,
            ..w.user_account
        }),
        after_withdraw(w, amount).pool_lpusd_amount == w.pool_lpusd_amount,
{
    let l: int = w.user_account.lpusd_amount as int;
    let tp: int = w.state_account.total_percent as int;
    let a: int = amount as int;
    lemma_withdrawable_bound(l as nat, tp as nat, a as nat);
    lemma_div_within(l * tp - a * DENOMINATOR, tp);
    law_share_formulas(w.user_account.lpusd_amount, w.state_account.total_percent, amount);
    assert((l * tp) / tp == l) by {
        lemma_mul_is_commutative(l, tp);
        lemma_div_multiples_vanish(l, tp);
    }
    assert((l * tp - a * DENOMINATOR) / tp <= (l * tp) / tp) by {
        lemma_div_is_ordered(l * tp - a * DENOMINATOR, l * tp, tp);
    }
}

/// What `initialize` writes: the name field holds the name's own bytes,
/// unchanged, followed by spaces up to `NAME_LEN`; the given bumps; the mints
/// and pools of the accounts; the signer as owner; `total_percent ==
/// DENOMINATOR` and every other counter zero.
pub proof fn law_initialized_state(
    s: AuctionStateAccount,
    ctx: Initialize,
    name: Seq<u8>,
    bumps: AuctionBumps,
)
    requires
        is_initialized_state(s, ctx, name, bumps),
        name.len() <= NAME_LEN,
    ensures
        s.auction_name@.len() == NAME_LEN,
        forall|i: int| 0 <= i < name.len() ==> s.auction_name@[i] == name[i],
        forall|i: int| name.len() <= i < NAME_LEN ==> s.auction_name@[i] == 32u8,
        s == (AuctionStateAccount {
            auction_name: s.auction_name,
            bumps,
            owner: ctx.authority,
            lpsol_mint: ctx.lpsol_mint,
            lpusd_mint: ctx.lpusd_mint,
            msol_mint: ctx.msol_mint,
            btc_mint: ctx.btc_mint,
            usdc_mint: ctx.usdc_mint,
            pool_btc: ctx.pool_btc,
            pool_usdc: ctx.pool_usdc,
            pool_lpsol: ctx.pool_lpsol,
            pool_lpusd: ctx.pool_lpusd,
            pool_msol: ctx.pool_msol,
            total_deposited_lpusd: 0,
            total_lpusd: 0,
            total_percent: 100,
            epoch_duration: 0,
            last_epoch_percent: 0,
            last_epoch_profit: 0,
        }),
{
}

/// The withdrawal accounts that follow an accepted deposit: the state and
/// depositor's account as the deposit left them, and the pool's balance.
pub open spec fn withdraw_after_deposit(
    d: DepositLpUSD,
    amount: u64,
    pool_lpusd_amount: u64,
) -> WithdrawLpUSD {
    let d2 = after_deposit(d, amount);
    WithdrawLpUSD {
        state_account: d2.state_account,
        pool_lpusd_amount,
        user_account: d2.user_account,
    }
}

/// `(x + a * DENOMINATOR) / DENOMINATOR == x / DENOMINATOR + a` for `x >= 0`.
proof fn lemma_div_add_multiple(x: int, a: int)
    requires
        x >= 0,
        a >= 0,
    ensures
        (x + a * DENOMINATOR) / (DENOMINATOR as int) == x / (DENOMINATOR as int) + a,
    decreases a,
{
    if a > 0 {
        lemma_div_add_multiple(x, a - 1);
        assert(x + a * DENOMINATOR == (x + (a - 1) * DENOMINATOR) + DENOMINATOR);
        lemma_div_plus_one(x + (a - 1) * DENOMINATOR, DENOMINATOR as int);
    }
}

/// Round trip: after an accepted deposit of `amount`, a withdrawal of the same
/// `amount` from a pool that holds it is accepted and gives the depositor back
/// the share held before the deposit, wherever `total_percent` divides
/// `amount * DENOMINATOR` (as it does at `total_percent == DENOMINATOR`, the
/// value `initialize` sets and no instruction changes).
pub proof fn law_deposit_then_withdraw_restores_share(
    d: DepositLpUSD,
    amount: u64,
    pool_lpusd_amount: u64,
)
    requires
        deposit_error(d, amount) is None,
        deposit_fits(d, amount),
        (amount * DENOMINATOR) % (d.state_account.total_percent as int) == 0,
        pool_lpusd_amount >= amount,
    ensures
        withdraw_error(withdraw_after_deposit(d, amount, pool_lpusd_amount), amount) is None,
        after_withdraw(
            withdraw_after_deposit(d, amount, pool_lpusd_amount),
            amount,
        ).user_account.lpusd_amount == d.user_account.lpusd_amount,
{
    let l: int = d.user_account.lpusd_amount as int;
    let tp: int = d.state_account.total_percent as int;
    let a: int = amount as int;
    let k: int = (a * DENOMINATOR) / tp;
    lemma_deposit_share_exact(l as nat, tp as nat, a as nat);
    assert(deposit_share(l, tp, a) == l + k);
    lemma_fundamental_div_mod(a * DENOMINATOR, tp);
    assert(a * DENOMINATOR == tp * k);
    // the deposited share fits in u64: it is at most l * tp + a * DENOMINATOR
    assert(k >= 0) by {
        vstd::arithmetic::div_mod::lemma_div_pos_is_pos(a * DENOMINATOR, tp);
    }
    assert(l + k <= l * tp + a * DENOMINATOR) by {
        assert(l * tp >= l) by (nonlinear_arith)
            requires
                l >= 0,
                tp >= 1,
        ;
        assert(tp * k >= k) by (nonlinear_arith)
            requires
                k >= 0,
                tp >= 1,
        ;
    }
    let l2: int = l + k;
    // the share after the deposit is worth l * tp + a * DENOMINATOR
    assert(l2 * tp == l * tp + a * DENOMINATOR) by {
        lemma_mul_is_distributive_add(tp, l, k);
        lemma_mul_is_commutative(l2, tp);
        lemma_mul_is_commutative(l, tp);
    }
    assert(l * tp >= 0) by {
        lemma_mul_nonnegative(l, tp);
    }
    lemma_div_add_multiple(l * tp, a);
    assert(withdrawable(l2, tp) == (l * tp) / (DENOMINATOR as int) + a);
    assert((l * tp) / (DENOMINATOR as int) >= 0) by {
        vstd::arithmetic::div_mod::lemma_div_pos_is_pos(l * tp, DENOMINATOR as int);
    }
    assert(withdraw_share(l2, tp, a) == l) by {
        assert(l2 * tp - a * DENOMINATOR == l * tp);
        lemma_mul_is_commutative(l, tp);
        lemma_div_multiples_vanish(l, tp);
    }
}

/// Where the depositor's share before a deposit of `amount` and the credit
/// for it add up to `amount` (for `total_percent == DENOMINATOR`: where the
/// depositor held no share), a deposit of `amount` followed by an accepted
/// withdrawal of `amount` leaves the pool's `total_lpusd` as it was, and
/// elsewhere it does not: a withdrawal takes the whole previous share off
/// `total_lpusd`.
pub proof fn law_deposit_then_withdraw_total(
    d: DepositLpUSD,
    amount: u64,
    pool_lpusd_amount: u64,
)
    requires
        deposit_error(d, amount) is None,
        deposit_fits(d, amount),
        (amount * DENOMINATOR) % (d.state_account.total_percent as int) == 0,
        pool_lpusd_amount >= amount,
        withdraw_fits(withdraw_after_deposit(d, amount, pool_lpusd_amount), amount),
    ensures
        (after_withdraw(
            withdraw_after_deposit(d, amount, pool_lpusd_amount),
            amount,
        ).state_account.total_lpusd == d.state_account.total_lpusd) <==> (
        d.user_account.lpusd_amount + (amount * DENOMINATOR) / (
        d.state_account.total_percent as int) == amount),
{
    law_deposit_then_withdraw_restores_share(d, amount, pool_lpusd_amount);
    let l: int = d.user_account.lpusd_amount as int;
    let tp: int = d.state_account.total_percent as int;
    let a: int = amount as int;
    lemma_deposit_share_exact(l as nat, tp as nat, a as nat);
    assert(deposit_share(l, tp, a) <= u64::MAX) by {
        lemma_div_is_ordered(0, l * tp + a * DENOMINATOR, tp);
        assert(l * tp + a * DENOMINATOR <= u64::MAX);
        assert((l * tp + a * DENOMINATOR) / tp <= l * tp + a * DENOMINATOR) by {
            vstd::arithmetic::div_mod::lemma_div_is_ordered_by_denominator(
                l * tp + a * DENOMINATOR,
                1,
                tp,
            );
        }
    }
}

/// At `total_percent == DENOMINATOR` the share is counted in lpUSD itself: a
/// share is worth exactly its size, an accepted deposit adds exactly `amount`
/// to it and an accepted withdrawal takes exactly `amount` off it.
pub proof fn law_full_percent_share_is_lpusd(d: DepositLpUSD, w: WithdrawLpUSD, amount: u64)
    requires
        d.state_account.total_percent == DENOMINATOR,
        w.state_account.total_percent == DENOMINATOR,
    ensures
        withdrawable(w.user_account.lpusd_amount as int, DENOMINATOR as int)
            == w.user_account.lpusd_amount,
        deposit_error(d, amount) is None && deposit_fits(d, amount) ==> after_deposit(
            d,
            amount,
        ).user_account.lpusd_amount == d.user_account.lpusd_amount + amount,
        withdraw_error(w, amount) is None ==> after_withdraw(w, amount).user_account.lpusd_amount
            == w.user_account.lpusd_amount - amount,
{
    let l: int = w.user_account.lpusd_amount as int;
    assert((l * 100) / 100 == l) by {
        lemma_div_multiples_vanish(l, 100);
    }
    assert(withdraw_share(l, 100, amount as int) == l - amount) by {
        assert(l * 100 - amount * 100 == (l - amount) * 100);
        lemma_div_multiples_vanish(l - amount, 100);
    }
    let dl: int = d.user_account.lpusd_amount as int;
    assert(deposit_share(dl, 100, amount as int) == dl + amount) by {
        assert(dl * 100 + amount * 100 == (dl + amount) * 100);
        lemma_div_multiples_vanish(dl + amount, 100);
    }
}

/// No instruction changes `total_percent`, the mints, the pools, the owner,
/// the name or the bumps of the auction: an accepted deposit or withdrawal
/// changes only the lpUSD totals.
pub proof fn law_auction_settings_unchanged(d: DepositLpUSD, w: WithdrawLpUSD, amount: u64)
    ensures
        after_deposit(d, amount).state_account == d.state_account.with_totals(
            after_deposit(d, amount).state_account.total_lpusd,
            after_deposit(d, amount).state_account.total_deposited_lpusd,
        ),
        after_withdraw(w, amount).state_account == w.state_account.with_totals(
            after_withdraw(w, amount).state_account.total_lpusd,
            w.state_account.total_deposited_lpusd,
        ),
        after_deposit(d, amount).state_account.total_percent == d.state_account.total_percent,
        after_withdraw(w, amount).state_account.total_percent == w.state_account.total_percent,
{
}

/// An accepted withdrawal never pays out more than the pool holds or more
/// than the depositor's share is worth.
pub proof fn law_withdraw_within_share(w: WithdrawLpUSD, amount: u64)
    requires
        withdraw_error(w, amount) is None,
    ensures
        1 <= amount <= w.pool_lpusd_amount,
        amount <= withdrawable(
            w.user_account.lpusd_amount as int,
            w.state_account.total_percent as int,
        ),
{
}

} // verus!
