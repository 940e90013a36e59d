//! The instructions of the auction. Each takes the accounts it reads and
//! writes as plain values, updates them, and on success returns the lpUSD
//! amount that the caller then moves with a token transfer (for a
//! liquidation, after which the caller also has the collateral moved).
use vstd::prelude::*;
use vstd::utf8::encode_utf8;
use crate::state::{Key, NAME_LEN, AuctionBumps, AuctionStateAccount, UserStateAccount, ErrorCode};
use crate::share::{DENOMINATOR, deposit_share, withdrawable, withdraw_share,
    lemma_withdrawable_bound};

verus! {

broadcast use vstd::array::group_array_axioms;

/// What `initialize` reads and writes.
#[derive(Debug, Clone, Copy)]
pub struct Initialize {
    pub authority: Key,
    /// The freshly created auction account.
    pub state_account: AuctionStateAccount,
    pub usdc_mint: Key,
    pub btc_mint: Key,
    pub msol_mint: Key,
    pub lpusd_mint: Key,
    pub lpsol_mint: Key,
    pub pool_usdc: Key,
    pub pool_btc: Key,
    pub pool_lpusd: Key,
    pub pool_lpsol: Key,
    pub pool_msol: Key,
}

/// What `init_user_account` reads and writes.
#[derive(Debug, Clone, Copy)]
pub struct InitUserAccount {
    /// The freshly created account of the depositor.
    pub user_account: UserStateAccount,
    pub user_authority: Key,
}

/// What `deposit_lpusd` reads and writes.
#[derive(Debug, Clone, Copy)]
pub struct DepositLpUSD {
    /// The lpUSD balance of the depositor's token account.
    pub user_lpusd_amount: u64,
    pub state_account: AuctionStateAccount,
    pub user_account: UserStateAccount,
}

/// What `liquidate` reads and writes.
#[derive(Debug, Clone, Copy)]
pub struct Liquidate {
    /// The lpUSD that the liquidated position borrowed.
    pub liquidator_borrowed_lpusd: u64,
    /// The flag of the lending protocol's state that stops its deposits and withdrawals.
    pub cbs_liquidation_run: bool,
    /// The lpUSD balance of the auction's pool.
    pub auction_lpusd_amount: u64,
}

/// What `withdraw_lpusd` reads and writes.
#[derive(Debug, Clone, Copy)]
pub struct WithdrawLpUSD {
    pub state_account: AuctionStateAccount,
    /// The lpUSD balance of the auction's pool.
    pub pool_lpusd_amount: u64,
    pub user_account: UserStateAccount,
}

// ---------------------------------------------------------------------------
// initialize

/// The name field: the name's bytes, padded with spaces to `NAME_LEN` bytes.
pub open spec fn padded_name(name: Seq<u8>) -> Seq<u8> {
    Seq::new(NAME_LEN as nat, |i: int| if i < name.len() { name[i] } else { 32u8 })
}

/// `s` is the auction state that `initialize` writes for the accounts of
/// `ctx`, the name bytes `name` and the bumps `bumps`.
pub open spec fn is_initialized_state(
    s: AuctionStateAccount,
    ctx: Initialize,
    name: Seq<u8>,
    bumps: AuctionBumps,
) -> bool {
    &&& s.auction_name@ == padded_name(name)
    &&& s.bumps == bumps
    &&& s.btc_mint == ctx.btc_mint
    &&& s.usdc_mint == ctx.usdc_mint
    &&& s.lpusd_mint == ctx.lpusd_mint
    &&& s.lpsol_mint == ctx.lpsol_mint
    &&& s.msol_mint == ctx.msol_mint
    &&& s.pool_btc == ctx.pool_btc
    &&& s.pool_usdc == ctx.pool_usdc
    &&& s.pool_lpsol == ctx.pool_lpsol
    &&& s.pool_lpusd == ctx.pool_lpusd
    &&& s.pool_msol == ctx.pool_msol
    &&& s.total_percent == DENOMINATOR
    &&& s.total_lpusd == 0
    &&& s.epoch_duration == 0
    &&& s.total_deposited_lpusd == 0
    &&& s.last_epoch_percent == 0
    &&& s.last_epoch_profit == 0
    &&& s.owner == ctx.authority
}

/// Sets up a new auction: its name, bumps, mints and pools, an owner, a
/// `total_percent` of `DENOMINATOR` and all totals zero.
pub fn initialize(ctx: &mut Initialize, auction_name: String, bumps: AuctionBumps) -> (r: Result<
    (),
    ErrorCode,
>)
    requires
        encode_utf8(auction_name@).len() <= NAME_LEN,
    ensures
        r == Ok::<(), ErrorCode>(()),
        is_initialized_state(
            final(ctx).state_account,
            *old(ctx),
            encode_utf8(auction_name@),
            bumps,
        ),
        *final(ctx) == (Initialize { state_account: final(ctx).state_account, ..*old(ctx) }),
        forall|i: int|
            0 <= i < encode_utf8(auction_name@).len() ==> final(ctx).state_account.auction_name@[i]
                == encode_utf8(auction_name@)[i],
        forall|i: int|
            encode_utf8(auction_name@).len() <= i < NAME_LEN
                ==> final(ctx).state_account.auction_name@[i] == 32u8,
{
    let name_bytes = auction_name.as_str().as_bytes();
    let ghost name = encode_utf8(auction_name@);
    let mut name_data = [32u8; 10];
    let mut i: usize = 0;
    while i < name_bytes.len()
        invariant
            name_bytes@ == name,
            name.len() <= NAME_LEN,
            i <= name.len(),
            forall|j: int| 0 <= j < i ==> name_data@[j] == name[j],
            forall|j: int| i <= j < NAME_LEN ==> name_data@[j] == 32u8,
        decreases name_bytes.len() - i,
    {
        name_data[i] = name_bytes[i];
        i = i + 1;
    }
    assert(name_data@ =~= padded_name(name));

    let state_account = &mut ctx.state_account;
    state_account.auction_name = name_data;
    state_account.bumps = bumps;
    state_account.btc_mint = ctx.btc_mint;
    state_account.usdc_mint = ctx.usdc_mint;
    state_account.lpusd_mint = ctx.lpusd_mint;
    state_account.lpsol_mint = ctx.lpsol_mint;
    state_account.msol_mint = ctx.msol_mint;
    state_account.pool_btc = ctx.pool_btc;
    state_account.pool_usdc = ctx.pool_usdc;
    state_account.pool_lpsol = ctx.pool_lpsol;
    state_account.pool_lpusd = ctx.pool_lpusd;
    state_account.pool_msol = ctx.pool_msol;

    state_account.total_percent = DENOMINATOR;
    state_account.total_lpusd = 0;
    state_account.epoch_duration = 0;
    state_account.total_deposited_lpusd = 0;
    state_account.last_epoch_percent = 0;
    state_account.last_epoch_profit = 0;

    state_account.owner = ctx.authority;
    Ok(())
}

// ---------------------------------------------------------------------------
// init_user_account

/// Sets up a depositor's account: owned by the signing user, nothing deposited.
pub fn init_user_account(ctx: &mut InitUserAccount, bump: u8) -> (r: Result<(), ErrorCode>)
    ensures
        r == Ok::<(), ErrorCode>(()),
        *final(ctx) == (InitUserAccount {
            user_account: UserStateAccount {
                lpusd_amount: 0,
                owner: old(ctx).user_authority,
                bump,
                temp_amount: 0,
            },
            ..*old(ctx)
        }),
{
    let user_account = &mut ctx.user_account;
    user_account.owner = ctx.user_authority;
    user_account.bump = bump;

    user_account.lpusd_amount = 0;
    user_account.temp_amount = 0;
    Ok(())
}

// ---------------------------------------------------------------------------
// deposit_lpusd

/// The error a deposit of `amount` is refused with, if any.
pub open spec fn deposit_error(ctx: DepositLpUSD, amount: u64) -> Option<ErrorCode> {
    if amount < 1 {
        Some(ErrorCode::InvalidAmount)
    } else if ctx.user_lpusd_amount < amount {
        Some(ErrorCode::InsufficientAmount)
    } else {
        None
    }
}

/// A deposit of `amount` that is not refused stays within `u64` and
/// divides by a nonzero `total_percent`.
pub open spec fn deposit_fits(ctx: DepositLpUSD, amount: u64) -> bool {
    let l = ctx.user_account.lpusd_amount;
    let tp = ctx.state_account.total_percent;
    deposit_error(ctx, amount) is None ==> {
        &&& ctx.user_account.temp_amount + amount <= u64::MAX
        &&& l * tp + amount * DENOMINATOR <= u64::MAX
        &&& tp != 0
        &&& ctx.state_account.total_lpusd + amount <= u64::MAX
        &&& ctx.state_account.total_deposited_lpusd + amount <= u64::MAX
    }
}

/// The accounts after an accepted deposit of `amount`.
pub open spec fn after_deposit(ctx: DepositLpUSD, amount: u64) -> DepositLpUSD {
    let u = ctx.user_account;
    let s = ctx.state_account;
    DepositLpUSD {
        state_account: s.with_totals(
            (s.total_lpusd + amount) as u64,
            (s.total_deposited_lpusd + amount) as u64,
        ),
        user_account: UserStateAccount {
            lpusd_amount: deposit_share(
                u.lpusd_amount as int,
                s.total_percent as int,
                amount as int,
            ) as u64,
            temp_amount: (u.temp_amount + amount) as u64,
            ..u
        },
        ..ctx
    }
}

/// Tests whether a deposit of `amount` stays within `u64` (`deposit_fits`).
pub fn deposit_in_range(ctx: &DepositLpUSD, amount: u64) -> (r: bool)
    ensures
        r == deposit_fits(*ctx, amount),
{
    if amount < 1 || ctx.user_lpusd_amount < amount {
        return true;
    }
    let l = ctx.user_account.lpusd_amount;
    let tp = ctx.state_account.total_percent;
    let fits_temp = ctx.user_account.temp_amount.checked_add(amount).is_some();
    let share_sum = match (l.checked_mul(tp), amount.checked_mul(DENOMINATOR)) {
        (Some(a), Some(b)) => a.checked_add(b).is_some(),
        _ => false,
    };
    let fits_totals = ctx.state_account.total_lpusd.checked_add(amount).is_some()
        && ctx.state_account.total_deposited_lpusd.checked_add(amount).is_some();
    fits_temp && share_sum && tp != 0 && fits_totals
}

/// Deposits `amount` lpUSD: refused with `InvalidAmount` for zero and with
/// `InsufficientAmount` above the depositor's balance; otherwise credits the
/// depositor's share and both pool totals, and returns the amount to move
/// from the depositor to the pool.
pub fn deposit_lpusd(ctx: &mut DepositLpUSD, amount: u64) -> (r: Result<u64, ErrorCode>)
    requires
        deposit_fits(*old(ctx), amount),
    ensures
        match deposit_error(*old(ctx), amount) {
            Some(e) => r == Err::<u64, ErrorCode>(e) && *final(ctx) == *old(ctx),
            None => r == Ok::<u64, ErrorCode>(amount) && *final(ctx) == after_deposit(
                *old(ctx),
                amount,
            ),
        },
        r is Ok ==> final(ctx).state_account.total_lpusd == old(ctx).state_account.total_lpusd
            + amount,
        r is Ok ==> final(ctx).state_account.total_deposited_lpusd
            == old(ctx).state_account.total_deposited_lpusd + amount,
        r is Ok ==> final(ctx).user_account.temp_amount == old(ctx).user_account.temp_amount
            + amount,
        r is Ok ==> final(ctx).state_account.total_percent == old(ctx).state_account.total_percent,
{
    if amount < 1 {
        return Err(ErrorCode::InvalidAmount);
    }
    if ctx.user_lpusd_amount < amount {
        return Err(ErrorCode::InsufficientAmount);
    }

    let total_percent = ctx.state_account.total_percent;
    let user_account = &mut ctx.user_account;
    user_account.temp_amount = user_account.temp_amount + amount;
    user_account.lpusd_amount = (user_account.lpusd_amount * total_percent + amount * DENOMINATOR)
        / total_percent;

    let state_account = &mut ctx.state_account;
    state_account.total_lpusd = state_account.total_lpusd + amount;
    state_account.total_deposited_lpusd = state_account.total_deposited_lpusd + amount;

    Ok(amount)
}

// ---------------------------------------------------------------------------
// liquidate

/// Runs a liquidation: marks the lending protocol as liquidating, refuses
/// with `InvalidAmount` when nothing was borrowed and with
/// `InsufficientPoolAmount` when the pool holds less than the borrowed lpUSD;
/// otherwise returns the borrowed amount, which the caller moves from the
/// pool to the lending protocol before it has the collateral moved to the
/// auction, and clears the mark again.
pub fn liquidate(ctx: &mut Liquidate) -> (r: Result<u64, ErrorCode>)
    ensures
        final(ctx).liquidator_borrowed_lpusd == old(ctx).liquidator_borrowed_lpusd,
        final(ctx).auction_lpusd_amount == old(ctx).auction_lpusd_amount,
        old(ctx).liquidator_borrowed_lpusd == 0 ==> r == Err::<u64, ErrorCode>(
            ErrorCode::InvalidAmount,
        ) && final(ctx).cbs_liquidation_run,
        old(ctx).liquidator_borrowed_lpusd != 0 && old(ctx).liquidator_borrowed_lpusd
            > old(ctx).auction_lpusd_amount ==> r == Err::<u64, ErrorCode>(
            ErrorCode::InsufficientPoolAmount,
        ) && final(ctx).cbs_liquidation_run,
        old(ctx).liquidator_borrowed_lpusd != 0 && old(ctx).liquidator_borrowed_lpusd
            <= old(ctx).auction_lpusd_amount ==> r == Ok::<u64, ErrorCode>(
            old(ctx).liquidator_borrowed_lpusd,
        ) && !final(ctx).cbs_liquidation_run,
{
    let borrowed_lpusd = ctx.liquidator_borrowed_lpusd;

    // Stop all deposits and withdrawals in the lending protocol.
    ctx.cbs_liquidation_run = true;

    if borrowed_lpusd == 0 {
        return Err(ErrorCode::InvalidAmount);
    }
    if borrowed_lpusd > ctx.auction_lpusd_amount {
        return Err(ErrorCode::InsufficientPoolAmount);
    }

    // Let the lending protocol work again.
    ctx.cbs_liquidation_run = false;
    Ok(borrowed_lpusd)
}

// ---------------------------------------------------------------------------
// withdraw_lpusd

/// The error a withdrawal of `amount` is refused with, if any.
pub open spec fn withdraw_error(ctx: WithdrawLpUSD, amount: u64) -> Option<ErrorCode> {
    if amount < 1 {
        Some(ErrorCode::InvalidAmount)
    } else if ctx.pool_lpusd_amount < amount {
        Some(ErrorCode::InsufficientPoolAmount)
    } else if amount > withdrawable(
        ctx.user_account.lpusd_amount as int,
        ctx.state_account.total_percent as int,
    ) {
        Some(ErrorCode::ExceedAmount)
    } else {
        None
    }
}

/// A withdrawal of `amount` stays within `u64`: the withdrawable amount can
/// be computed, and an accepted withdrawal finds the depositor's share no
/// larger than the pool's `total_lpusd`.
pub open spec fn withdraw_fits(ctx: WithdrawLpUSD, amount: u64) -> bool {
    let l = ctx.user_account.lpusd_amount;
    &&& amount >= 1 ==> l * ctx.state_account.total_percent <= u64::MAX
    &&& withdraw_error(ctx, amount) is None ==> l <= ctx.state_account.total_lpusd
}

/// The accounts after an accepted withdrawal of `amount`.
pub open spec fn after_withdraw(ctx: WithdrawLpUSD, amount: u64) -> WithdrawLpUSD {
    let u = ctx.user_account;
    let s = ctx.state_account;
    WithdrawLpUSD {
        state_account: s.with_totals(
            (s.total_lpusd - u.lpusd_amount) as u64,
            s.total_deposited_lpusd,
        ),
        user_account: UserStateAccount {
            lpusd_amount: withdraw_share(
                u.lpusd_amount as int,
                s.total_percent as int,
                amount as int,
            ) as u64,
            ..u
        },
        ..ctx
    }
}

/// Tests whether a withdrawal of `amount` stays within `u64` (`withdraw_fits`).
pub fn withdraw_in_range(ctx: &WithdrawLpUSD, amount: u64) -> (r: bool)
    ensures
        r == withdraw_fits(*ctx, amount),
{
    if amount < 1 {
        return true;
    }
    let l = ctx.user_account.lpusd_amount;
    match l.checked_mul(ctx.state_account.total_percent) {
        None => false,
        Some(product) => {
            let withdrawable_amount = product / DENOMINATOR;
            if ctx.pool_lpusd_amount < amount || amount > withdrawable_amount {
                true
            } else {
                l <= ctx.state_account.total_lpusd
            }
        },
    }
}

/// Withdraws `amount` lpUSD: refused with `InvalidAmount` for zero, with
/// `InsufficientPoolAmount` above the pool's balance and with `ExceedAmount`
/// above what the depositor's share is worth; otherwise debits the share and
/// takes the depositor's whole previous share off `total_lpusd`, and returns
/// the amount to move from the pool to the depositor.
pub fn withdraw_lpusd(ctx: &mut WithdrawLpUSD, amount: u64) -> (r: Result<u64, ErrorCode>)
    requires
        withdraw_fits(*old(ctx), amount),
    ensures
        match withdraw_error(*old(ctx), amount) {
            Some(e) => r == Err::<u64, ErrorCode>(e) && *final(ctx) == *old(ctx),
            None => r == Ok::<u64, ErrorCode>(amount) && *final(ctx) == after_withdraw(
                *old(ctx),
                amount,
            ),
        },
        r is Ok ==> final(ctx).state_account.total_lpusd == old(ctx).state_account.total_lpusd
            - old(ctx).user_account.lpusd_amount,
        r is Ok ==> final(ctx).state_account.total_deposited_lpusd
            == old(ctx).state_account.total_deposited_lpusd,
        r is Ok ==> final(ctx).user_account.temp_amount == old(ctx).user_account.temp_amount,
        r is Ok ==> final(ctx).state_account.total_percent == old(ctx).state_account.total_percent,
{
    if amount < 1 {
        return Err(ErrorCode::InvalidAmount);
    }

    let total_percent = ctx.state_account.total_percent;
    let lpusd_amount = ctx.user_account.lpusd_amount;
    let total_withdrawable_amount = lpusd_amount * total_percent / DENOMINATOR;
    if ctx.pool_lpusd_amount < amount {
        return Err(ErrorCode::InsufficientPoolAmount);
    }
    if amount > total_withdrawable_amount {
        return Err(ErrorCode::ExceedAmount);
    }
    proof {
        lemma_withdrawable_bound(lpusd_amount as nat, total_percent as nat, amount as nat);
    }

    let state_account = &mut ctx.state_account;
    state_account.total_lpusd = state_account.total_lpusd - lpusd_amount;

    let user_account = &mut ctx.user_account;
    user_account.lpusd_amount = (lpusd_amount * total_percent - amount * DENOMINATOR)
        / total_percent;

    Ok(amount)
}

} // verus!
