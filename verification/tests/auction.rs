use lpusd_auction::auction::{
    deposit_in_range, deposit_lpusd, init_user_account, initialize, liquidate, withdraw_in_range,
    withdraw_lpusd, DepositLpUSD, InitUserAccount, Initialize, Liquidate, WithdrawLpUSD,
};
use lpusd_auction::share::DENOMINATOR;
use lpusd_auction::state::{AuctionBumps, AuctionStateAccount, ErrorCode, UserStateAccount};

fn key(b: u8) -> [u8; 32] {
    [b; 32]
}

fn bumps() -> AuctionBumps {
    AuctionBumps {
        state_account: 1,
        pool_usdc: 2,
        pool_btc: 3,
        pool_lpusd: 4,
        pool_lpsol: 5,
        pool_msol: 6,
    }
}

fn init_ctx() -> Initialize {
    Initialize {
        authority: key(1),
        state_account: AuctionStateAccount::default(),
        usdc_mint: key(2),
        btc_mint: key(3),
        msol_mint: key(4),
        lpusd_mint: key(5),
        lpsol_mint: key(6),
        pool_usdc: key(7),
        pool_btc: key(8),
        pool_lpusd: key(9),
        pool_lpsol: key(10),
        pool_msol: key(11),
    }
}

fn state(total_percent: u64, total_lpusd: u64) -> AuctionStateAccount {
    let mut s = AuctionStateAccount::default();
    s.total_percent = total_percent;
    s.total_lpusd = total_lpusd;
    s.total_deposited_lpusd = total_lpusd;
    s
}

fn user(lpusd_amount: u64) -> UserStateAccount {
    UserStateAccount { lpusd_amount, owner: key(42), bump: 7, temp_amount: 0 }
}

#[test]
fn defaults_are_zero() {
    let s = AuctionStateAccount::default();
    assert_eq!(s.auction_name, [0u8; 10]);
    assert_eq!(s.total_percent, 0);
    assert_eq!(s.owner, [0u8; 32]);
    assert_eq!(s.bumps, AuctionBumps::default());
    let u = UserStateAccount::default();
    assert_eq!(u.lpusd_amount, 0);
    assert_eq!(u.temp_amount, 0);
    assert_eq!(u.bump, 0);
}

#[test]
fn initialize_pads_name_and_sets_totals() {
    let mut ctx = init_ctx();
    let r = initialize(&mut ctx, "lpfi".to_string(), bumps());
    assert_eq!(r, Ok(()));
    let s = ctx.state_account;
    assert_eq!(&s.auction_name, b"lpfi      ");
    assert_eq!(s.bumps, bumps());
    assert_eq!(s.owner, key(1));
    assert_eq!(s.usdc_mint, key(2));
    assert_eq!(s.btc_mint, key(3));
    assert_eq!(s.msol_mint, key(4));
    assert_eq!(s.lpusd_mint, key(5));
    assert_eq!(s.lpsol_mint, key(6));
    assert_eq!(s.pool_usdc, key(7));
    assert_eq!(s.pool_btc, key(8));
    assert_eq!(s.pool_lpusd, key(9));
    assert_eq!(s.pool_lpsol, key(10));
    assert_eq!(s.pool_msol, key(11));
    assert_eq!(s.total_percent, 100);
    assert_eq!(s.total_lpusd, 0);
    assert_eq!(s.total_deposited_lpusd, 0);
    assert_eq!(s.epoch_duration, 0);
    assert_eq!(s.last_epoch_percent, 0);
    assert_eq!(s.last_epoch_profit, 0);
    assert_eq!(ctx.authority, key(1));
}

#[test]
fn initialize_name_of_full_length_and_empty() {
    let mut ctx = init_ctx();
    initialize(&mut ctx, "abcdefghij".to_string(), bumps()).unwrap();
    assert_eq!(&ctx.state_account.auction_name, b"abcdefghij");
    let mut ctx = init_ctx();
    initialize(&mut ctx, String::new(), bumps()).unwrap();
    assert_eq!(&ctx.state_account.auction_name, b"          ");
}

#[test]
fn initialize_overwrites_previous_state() {
    let mut ctx = init_ctx();
    ctx.state_account.total_lpusd = 77;
    ctx.state_account.epoch_duration = 9;
    initialize(&mut ctx, "x".to_string(), bumps()).unwrap();
    assert_eq!(ctx.state_account.total_lpusd, 0);
    assert_eq!(ctx.state_account.epoch_duration, 0);
}

#[test]
fn init_user_account_sets_owner_and_zero_amounts() {
    let mut ctx = InitUserAccount {
        user_account: UserStateAccount { lpusd_amount: 5, owner: key(0), bump: 0, temp_amount: 3 },
        user_authority: key(9),
    };
    assert_eq!(init_user_account(&mut ctx, 254), Ok(()));
    assert_eq!(
        ctx.user_account,
        UserStateAccount { lpusd_amount: 0, owner: key(9), bump: 254, temp_amount: 0 }
    );
    assert_eq!(ctx.user_authority, key(9));
}

#[test]
fn deposit_zero_is_invalid() {
    let mut ctx = DepositLpUSD { user_lpusd_amount: 10, state_account: state(100, 0), user_account: user(0) };
    let before = ctx;
    assert_eq!(deposit_lpusd(&mut ctx, 0), Err(ErrorCode::InvalidAmount));
    assert_eq!(ctx.state_account, before.state_account);
    assert_eq!(ctx.user_account, before.user_account);
}

#[test]
fn deposit_above_balance_is_insufficient() {
    let mut ctx = DepositLpUSD { user_lpusd_amount: 10, state_account: state(100, 0), user_account: user(0) };
    let before = ctx;
    assert_eq!(deposit_lpusd(&mut ctx, 11), Err(ErrorCode::InsufficientAmount));
    assert_eq!(ctx.state_account, before.state_account);
    assert_eq!(ctx.user_account, before.user_account);
}

#[test]
fn deposit_credits_share_and_totals() {
    let mut ctx = DepositLpUSD { user_lpusd_amount: 30, state_account: state(100, 50), user_account: user(5) };
    ctx.state_account.owner = key(3);
    ctx.state_account.pool_lpusd = key(4);
    ctx.state_account.bumps = bumps();
    let before = ctx;
    assert_eq!(deposit_lpusd(&mut ctx, 20), Ok(20));
    // only the two lpUSD totals of the auction change
    assert_eq!(
        ctx.state_account,
        AuctionStateAccount { total_lpusd: 70, total_deposited_lpusd: 70, ..before.state_account }
    );
    assert_eq!(ctx.user_account.lpusd_amount, 25);
    assert_eq!(ctx.user_account.temp_amount, 20);
    assert_eq!(ctx.user_account.owner, key(42));
    assert_eq!(ctx.state_account.total_lpusd, 70);
    assert_eq!(ctx.state_account.total_deposited_lpusd, 70);
    assert_eq!(ctx.state_account.total_percent, 100);
    // the token balance is moved by the transfer, not by the accounting
    assert_eq!(ctx.user_lpusd_amount, 30);
}

#[test]
fn deposit_at_other_percent_rounds_down() {
    // (0 * 3 + 1 * 100) / 3 == 33
    let mut ctx = DepositLpUSD { user_lpusd_amount: 5, state_account: state(3, 0), user_account: user(0) };
    assert_eq!(deposit_lpusd(&mut ctx, 1), Ok(1));
    assert_eq!(ctx.user_account.lpusd_amount, 33);
    // (10 * 200 + 4 * 100) / 200 == 12
    let mut ctx = DepositLpUSD { user_lpusd_amount: 5, state_account: state(200, 0), user_account: user(10) };
    assert_eq!(deposit_lpusd(&mut ctx, 4), Ok(4));
    assert_eq!(ctx.user_account.lpusd_amount, 12);
}

#[test]
fn deposit_range_check() {
    let ok = DepositLpUSD { user_lpusd_amount: 30, state_account: state(100, 50), user_account: user(5) };
    assert!(deposit_in_range(&ok, 20));
    // a refused deposit computes nothing
    let zero_percent = DepositLpUSD { user_lpusd_amount: 30, state_account: state(0, 0), user_account: user(5) };
    assert!(deposit_in_range(&zero_percent, 0));
    assert!(!deposit_in_range(&zero_percent, 1));
    let big_share = DepositLpUSD { user_lpusd_amount: 30, state_account: state(100, 0), user_account: user(u64::MAX / 50) };
    assert!(!deposit_in_range(&big_share, 1));
    let full_total = DepositLpUSD { user_lpusd_amount: 30, state_account: state(100, u64::MAX), user_account: user(0) };
    assert!(!deposit_in_range(&full_total, 1));
    let big_amount = DepositLpUSD { user_lpusd_amount: u64::MAX, state_account: state(100, 0), user_account: user(0) };
    assert!(!deposit_in_range(&big_amount, u64::MAX / 10));
    let mut full_temp = DepositLpUSD { user_lpusd_amount: 30, state_account: state(100, 0), user_account: user(0) };
    full_temp.user_account.temp_amount = u64::MAX;
    assert!(!deposit_in_range(&full_temp, 1));
}

#[test]
fn withdraw_zero_is_invalid() {
    let mut ctx = WithdrawLpUSD { state_account: state(100, 50), pool_lpusd_amount: 100, user_account: user(20) };
    let before = ctx;
    assert_eq!(withdraw_lpusd(&mut ctx, 0), Err(ErrorCode::InvalidAmount));
    assert_eq!(ctx.state_account, before.state_account);
    assert_eq!(ctx.user_account, before.user_account);
}

#[test]
fn withdraw_above_pool_is_insufficient() {
    let mut ctx = WithdrawLpUSD { state_account: state(100, 50), pool_lpusd_amount: 5, user_account: user(20) };
    let before = ctx;
    assert_eq!(withdraw_lpusd(&mut ctx, 6), Err(ErrorCode::InsufficientPoolAmount));
    assert_eq!(ctx.state_account, before.state_account);
    assert_eq!(ctx.user_account, before.user_account);
}

#[test]
fn withdraw_above_share_exceeds() {
    let mut ctx = WithdrawLpUSD { state_account: state(100, 50), pool_lpusd_amount: 100, user_account: user(20) };
    let before = ctx;
    assert_eq!(withdraw_lpusd(&mut ctx, 21), Err(ErrorCode::ExceedAmount));
    assert_eq!(ctx.state_account, before.state_account);
    assert_eq!(ctx.user_account, before.user_account);
    // at total_percent 50 a share of 20 is worth 10
    let mut ctx = WithdrawLpUSD { state_account: state(50, 50), pool_lpusd_amount: 100, user_account: user(20) };
    assert_eq!(withdraw_lpusd(&mut ctx, 11), Err(ErrorCode::ExceedAmount));
}

#[test]
fn withdraw_debits_share_and_whole_share_from_total() {
    let mut ctx = WithdrawLpUSD { state_account: state(100, 50), pool_lpusd_amount: 100, user_account: user(20) };
    assert_eq!(withdraw_lpusd(&mut ctx, 8), Ok(8));
    assert_eq!(ctx.user_account.lpusd_amount, 12);
    // the whole previous share (20) leaves total_lpusd, not only the 8 withdrawn
    assert_eq!(ctx.state_account.total_lpusd, 30);
    assert_eq!(ctx.state_account.total_deposited_lpusd, 50);
    assert_eq!(ctx.state_account.total_percent, 100);
    assert_eq!(ctx.pool_lpusd_amount, 100);
}

#[test]
fn withdraw_at_other_percent() {
    // share 20 at 50% is worth 10; withdrawing 4 leaves (20 * 50 - 4 * 100) / 50 == 12
    let mut ctx = WithdrawLpUSD { state_account: state(50, 50), pool_lpusd_amount: 100, user_account: user(20) };
    assert_eq!(withdraw_lpusd(&mut ctx, 4), Ok(4));
    assert_eq!(ctx.user_account.lpusd_amount, 12);
    assert_eq!(ctx.state_account.total_lpusd, 30);
}

#[test]
fn withdraw_range_check() {
    let ok = WithdrawLpUSD { state_account: state(100, 50), pool_lpusd_amount: 100, user_account: user(20) };
    assert!(withdraw_in_range(&ok, 8));
    assert!(withdraw_in_range(&ok, 0));
    let big = WithdrawLpUSD { state_account: state(100, u64::MAX), pool_lpusd_amount: 100, user_account: user(u64::MAX) };
    assert!(!withdraw_in_range(&big, 1));
    assert!(withdraw_in_range(&big, 0));
    let short_total = WithdrawLpUSD { state_account: state(100, 10), pool_lpusd_amount: 100, user_account: user(20) };
    assert!(!withdraw_in_range(&short_total, 5));
    // refused withdrawals do not reach the subtraction
    assert!(withdraw_in_range(&short_total, 21));
    assert!(withdraw_in_range(&short_total, 101));
}

#[test]
fn liquidate_nothing_borrowed_is_invalid() {
    let mut ctx = Liquidate { liquidator_borrowed_lpusd: 0, cbs_liquidation_run: false, auction_lpusd_amount: 100 };
    assert_eq!(liquidate(&mut ctx), Err(ErrorCode::InvalidAmount));
    assert!(ctx.cbs_liquidation_run);
}

#[test]
fn liquidate_above_pool_is_insufficient() {
    let mut ctx = Liquidate { liquidator_borrowed_lpusd: 101, cbs_liquidation_run: false, auction_lpusd_amount: 100 };
    assert_eq!(liquidate(&mut ctx), Err(ErrorCode::InsufficientPoolAmount));
    assert!(ctx.cbs_liquidation_run);
}

#[test]
fn liquidate_pays_borrowed_and_clears_flag() {
    let mut ctx = Liquidate { liquidator_borrowed_lpusd: 100, cbs_liquidation_run: true, auction_lpusd_amount: 100 };
    assert_eq!(liquidate(&mut ctx), Ok(100));
    assert!(!ctx.cbs_liquidation_run);
    assert_eq!(ctx.liquidator_borrowed_lpusd, 100);
    assert_eq!(ctx.auction_lpusd_amount, 100);
}

#[test]
fn deposit_then_withdraw_restores_share() {
    for (share, percent, amount) in [(5u64, 100u64, 20u64), (0, 100, 1), (7, 50, 3), (10, 200, 4), (3, 25, 9)] {
        let mut d = DepositLpUSD { user_lpusd_amount: amount, state_account: state(percent, 1000), user_account: user(share) };
        assert_eq!(deposit_lpusd(&mut d, amount), Ok(amount));
        let mut w = WithdrawLpUSD { state_account: d.state_account, pool_lpusd_amount: amount, user_account: d.user_account };
        assert!(withdraw_in_range(&w, amount));
        assert_eq!(withdraw_lpusd(&mut w, amount), Ok(amount));
        assert_eq!(w.user_account.lpusd_amount, share);
    }
}

#[test]
fn deposit_then_withdraw_total_restored_only_without_prior_share() {
    let run = |share: u64| {
        let mut d = DepositLpUSD { user_lpusd_amount: 20, state_account: state(100, 1000), user_account: user(share) };
        deposit_lpusd(&mut d, 20).unwrap();
        let mut w = WithdrawLpUSD { state_account: d.state_account, pool_lpusd_amount: 20, user_account: d.user_account };
        withdraw_lpusd(&mut w, 20).unwrap();
        w.state_account.total_lpusd
    };
    assert_eq!(run(0), 1000);
    assert_eq!(run(5), 995);
}

#[test]
fn full_percent_share_is_lpusd() {
    assert_eq!(DENOMINATOR, 100);
    let mut d = DepositLpUSD { user_lpusd_amount: 1000, state_account: state(100, 0), user_account: user(123) };
    deposit_lpusd(&mut d, 456).unwrap();
    assert_eq!(d.user_account.lpusd_amount, 579);
    let mut w = WithdrawLpUSD { state_account: state(100, 1000), pool_lpusd_amount: 1000, user_account: user(579) };
    // the whole share is withdrawable, and no more
    assert_eq!(withdraw_lpusd(&mut w.clone(), 580), Err(ErrorCode::ExceedAmount));
    assert_eq!(withdraw_lpusd(&mut w, 579), Ok(579));
    assert_eq!(w.user_account.lpusd_amount, 0);
}
