use lpfinance::oracle::PythPrice;
use lpfinance::cbs_protocol::Prices;
use lpfinance::lpusd_auction::{
    deposit_lpusd, get_price, repayments, LpDebt, init_user_account, initialize, initialize_pool, liquidate, liquidate_swap,
    liquidate_swap_with_authority, liquidate_with_prices, withdraw_lpusd, withdraw_lpusd_with_authority,
    Asset, AuctionStateAccount, Config, DepositLpUSD, ErrorCode, InitUserAccount, Initialize, InitializePool,
    Liquidate, LiquidateSwap, Liquidator, UserStateAccount, WithdrawLpUSD,
};
use lpfinance::pubkey::Pubkey;

fn key(n: u8) -> Pubkey {
    Pubkey::new_from_array([n; 32])
}

fn program_id() -> Pubkey {
    key(201)
}

fn derived_state() -> Pubkey {
    let id = anchor_lang::solana_program::pubkey::Pubkey::new_from_array(program_id().bytes);
    let (k, _) = anchor_lang::solana_program::pubkey::Pubkey::find_program_address(&[b"lpauction1"], &id);
    Pubkey::new_from_array(k.to_bytes())
}

/// A Pyth price account whose aggregate price is
/// 0x0101010101010101.
fn oracle() -> PythPrice {
    PythPrice { agg_price: 0x0101010101010101 }
}

fn unit_prices() -> Prices {
    Prices { btc: 1, sol: 1, usdc: 1, msol: 1, eth: 1, ust: 1, srm: 1, scnsol: 1, stsol: 1, usdt: 1 }
}

fn setup() -> (AuctionStateAccount, Config) {
    let (s, c) = initialize(&Initialize {
        authority: key(1),
        state_account: derived_state(),
        lpusd_mint: key(21),
        lpsol_mint: key(20),
        lpbtc_mint: key(22),
        lpeth_mint: key(23),
        pool_lpusd: key(31),
        pool_lpsol: key(30),
        pool_lpbtc: key(32),
        pool_lpeth: key(33),
    });
    let mut ctx = InitializePool {
        authority: key(1),
        state_account: s,
        config: c,
        btc_mint: key(11),
        usdc_mint: key(10),
        msol_mint: key(12),
        eth_mint: key(13),
        ust_mint: key(14),
        srm_mint: key(15),
        scnsol_mint: key(16),
        stsol_mint: key(17),
        usdt_mint: key(18),
        pool_btc: key(41),
        pool_usdc: key(40),
        pool_msol: key(42),
        pool_eth: key(43),
        pool_ust: key(44),
        pool_srm: key(45),
        pool_scnsol: key(46),
        pool_stsol: key(47),
        pool_usdt: key(48),
    };
    assert_eq!(initialize_pool(&mut ctx), Ok(()));
    (s, ctx.config)
}

fn empty_liquidator() -> Liquidator {
    Liquidator {
        borrowed_lpusd: 0,
        borrowed_lpsol: 0,
        borrowed_lpbtc: 0,
        borrowed_lpeth: 0,
        sol_amount: 0,
        lending_sol_amount: 0,
        btc_amount: 0,
        lending_btc_amount: 0,
        usdc_amount: 0,
        lending_usdc_amount: 0,
        eth_amount: 0,
        lending_eth_amount: 0,
        msol_amount: 0,
        lending_msol_amount: 0,
        ust_amount: 0,
        lending_ust_amount: 0,
        srm_amount: 0,
        lending_srm_amount: 0,
        scnsol_amount: 0,
        lending_scnsol_amount: 0,
        stsol_amount: 0,
        lending_stsol_amount: 0,
        usdt_amount: 0,
        lending_usdt_amount: 0,
        lpsol_amount: 0,
        lpusd_amount: 0,
        lpbtc_amount: 0,
        lpeth_amount: 0,
        owner: key(2),
    }
}

fn depositor() -> UserStateAccount {
    init_user_account(&InitUserAccount { user_authority: key(2) })
}

#[test]
fn initialize_pool_sets_share_value_and_checks_owner() {
    let (s, c) = setup();
    assert!(s.owner.key_eq(&key(1)));
    assert_eq!(c.total_percent, 100);
    assert_eq!(c.total_lpusd, 0);
    assert!(c.pool_usdc.key_eq(&key(40)));
    let mut ctx = InitializePool {
        authority: key(9),
        state_account: s,
        config: c,
        btc_mint: key(11),
        usdc_mint: key(10),
        msol_mint: key(12),
        eth_mint: key(13),
        ust_mint: key(14),
        srm_mint: key(15),
        scnsol_mint: key(16),
        stsol_mint: key(17),
        usdt_mint: key(18),
        pool_btc: key(41),
        pool_usdc: key(40),
        pool_msol: key(42),
        pool_eth: key(43),
        pool_ust: key(44),
        pool_srm: key(45),
        pool_scnsol: key(46),
        pool_stsol: key(47),
        pool_usdt: key(48),
    };
    assert_eq!(initialize_pool(&mut ctx), Err(ErrorCode::InvalidOwner));
}

#[test]
fn auction_get_price_reads_aggregate() {
    assert_eq!(get_price(&oracle()), 0x0101010101010101u64);
    assert_eq!(get_price(&PythPrice { agg_price: -2 }), u64::MAX - 1);
}

#[test]
fn deposit_credits_shares() {
    let (_, c) = setup();
    let mut ctx = DepositLpUSD { user_lpusd_amount: 1000, config: c, user_account: depositor() };
    assert_eq!(deposit_lpusd(&mut ctx, 0), Err(ErrorCode::InvalidAmount));
    assert_eq!(deposit_lpusd(&mut ctx, 1001), Err(ErrorCode::InsufficientAmount));
    assert_eq!(deposit_lpusd(&mut ctx, 500), Ok(()));
    assert_eq!(ctx.user_account.lpusd_amount, 500);
    assert_eq!(ctx.user_account.temp_amount, 500);
    assert_eq!(ctx.config.total_lpusd, 500);
    assert_eq!(ctx.config.total_deposited_lpusd, 500);
}

#[test]
fn deposit_at_higher_share_value_credits_fewer_shares() {
    let (_, mut c) = setup();
    c.total_percent = 125;
    let mut u = depositor();
    u.lpusd_amount = 80;
    let mut ctx = DepositLpUSD { user_lpusd_amount: 1000, config: c, user_account: u };
    // (80 * 125 + 100 * 100) / 125 = 160
    assert_eq!(deposit_lpusd(&mut ctx, 100), Ok(()));
    assert_eq!(ctx.user_account.lpusd_amount, 160);
}

fn liquidate_ctx(l: Liquidator, total_lpusd: u64, pool: u64) -> Liquidate {
    let (_, mut c) = setup();
    c.total_lpusd = total_lpusd;
    Liquidate {
        program_id: program_id(),
        state_account: derived_state(),
        config: c,
        liquidator: l,
        user_account: depositor(),
        auction_lpusd_amount: pool,
        pyth_btc_account: oracle(),
        pyth_usdc_account: oracle(),
        pyth_sol_account: oracle(),
        pyth_msol_account: oracle(),
        pyth_ust_account: oracle(),
        pyth_srm_account: oracle(),
        pyth_scnsol_account: oracle(),
        pyth_stsol_account: oracle(),
        pyth_usdt_account: oracle(),
        pyth_eth_account: oracle(),
    }
}

#[test]
fn liquidation_books_profit_into_pool() {
    let mut l = empty_liquidator();
    l.borrowed_lpusd = 95;
    l.usdc_amount = 60;
    l.lending_usdc_amount = 40;
    let mut ctx = liquidate_ctx(l, 100, 1000);
    assert_eq!(liquidate_with_prices(&mut ctx, &unit_prices(), Some(derived_state())), Ok(()));
    assert_eq!(ctx.user_account.total_request_lpusd, 100);
    assert_eq!(ctx.config.last_epoch_profit, 5);
    assert_eq!(ctx.config.total_lpusd, 105);
    assert_eq!(ctx.config.last_epoch_percent, 105);
    assert_eq!(ctx.config.total_percent, 105);
}

#[test]
fn liquidation_needs_ltv_above_permission() {
    // 50 borrowed against 100 is 50% LTV, and 94 against 100 is exactly the
    // permission: both are refused.
    let mut l = empty_liquidator();
    l.borrowed_lpusd = 50;
    l.usdc_amount = 100;
    let mut ctx = liquidate_ctx(l, 1000, 1000);
    assert_eq!(liquidate_with_prices(&mut ctx, &unit_prices(), Some(derived_state())), Err(ErrorCode::NotEnoughLTV));
    l.borrowed_lpusd = 94;
    let mut ctx = liquidate_ctx(l, 1000, 1000);
    assert_eq!(liquidate_with_prices(&mut ctx, &unit_prices(), Some(derived_state())), Err(ErrorCode::NotEnoughLTV));
    assert_eq!(ctx.config.total_lpusd, 1000);
}

#[test]
fn lp_debts_convert_at_the_sol_price() {
    let mut l = empty_liquidator();
    l.borrowed_lpusd = 95;
    l.borrowed_lpbtc = 1;
    l.usdc_amount = 100;
    let mut ctx = liquidate_ctx(l, 1000, 1000);
    let p = Prices { btc: 2, sol: 3, ..unit_prices() };
    assert_eq!(liquidate_with_prices(&mut ctx, &p, Some(derived_state())), Ok(()));
    // 100 of value less one LpBTC bought back at the SOL price, 3.
    assert_eq!(ctx.user_account.total_request_lpusd, 97);
    // the debt itself is valued at the BTC price: 100 - (95 + 2)
    assert_eq!(ctx.config.last_epoch_profit, 3);
    assert_eq!(repayments(&l), vec![(LpDebt::Lpusd, 95), (LpDebt::Lpbtc, 1)]);
}

#[test]
fn liquidation_errors() {
    let ctx0 = liquidate_ctx(empty_liquidator(), 1000, 1000);
    let mut ctx = liquidate_ctx(empty_liquidator(), 1000, 1000);
    assert_eq!(liquidate_with_prices(&mut ctx, &unit_prices(), Some(derived_state())), Err(ErrorCode::NotBorrowedLpToken));
    assert_eq!(liquidate(&mut ctx), Some(Err(ErrorCode::NotBorrowedLpToken)));
    let mut l = empty_liquidator();
    l.borrowed_lpusd = 95;
    l.usdc_amount = 100;
    let mut ctx = liquidate_ctx(l, 1000, 1000);
    assert_eq!(liquidate_with_prices(&mut ctx, &unit_prices(), None), Err(ErrorCode::InvalidOwner));
    let mut ctx = liquidate_ctx(l, 1000, 94);
    assert_eq!(liquidate_with_prices(&mut ctx, &unit_prices(), Some(derived_state())), Err(ErrorCode::InsufficientPoolAmount));
    let mut l = empty_liquidator();
    l.borrowed_lpusd = 95;
    l.lpusd_amount = 100;
    let mut ctx = liquidate_ctx(l, 1000, 1000);
    assert_eq!(liquidate_with_prices(&mut ctx, &unit_prices(), Some(derived_state())), Err(ErrorCode::InvalidAmount));
    assert_eq!(ctx.config.total_lpusd, ctx0.config.total_lpusd);
}

#[test]
fn liquidate_reads_oracle_and_derives_authority() {
    let mut l = empty_liquidator();
    l.borrowed_lpusd = 95;
    l.usdc_amount = 100;
    let mut ctx = liquidate_ctx(l, 1000, 1000);
    assert_eq!(liquidate(&mut ctx), Some(Ok(())));
    // Every price is the same, so the position is worth 100 LpUSD.
    assert_eq!(ctx.user_account.total_request_lpusd, 100);
    assert_eq!(ctx.config.total_lpusd, 1005);
    let mut ctx = liquidate_ctx(l, 1000, 1000);
    ctx.state_account = key(77);
    assert_eq!(liquidate(&mut ctx), Some(Err(ErrorCode::InvalidOwner)));
}

#[test]
fn swap_liquidation_hands_over_holdings() {
    let mut l = empty_liquidator();
    l.btc_amount = 3;
    l.lending_btc_amount = 4;
    l.lpeth_amount = 9;
    l.sol_amount = 5;
    l.lending_sol_amount = 6;
    let mut u = depositor();
    u.total_request_lpusd = 77;
    let ctx = LiquidateSwap { program_id: program_id(), state_account: derived_state(), liquidator: l, user_account: u };
    let r = liquidate_swap_with_authority(&ctx, Some(derived_state())).unwrap();
    assert_eq!(r.tokens, vec![(Asset::Btc, 7), (Asset::Lpeth, 9)]);
    assert_eq!(r.lpusd_request, 77);
    assert_eq!(r.lamports, 11);
    let r = liquidate_swap(&ctx).unwrap();
    assert_eq!(r.tokens, vec![(Asset::Btc, 7), (Asset::Lpeth, 9)]);
}

#[test]
fn swap_liquidation_errors() {
    let ctx = LiquidateSwap {
        program_id: program_id(),
        state_account: derived_state(),
        liquidator: empty_liquidator(),
        user_account: depositor(),
    };
    assert!(matches!(liquidate_swap(&ctx), Err(ErrorCode::InvalidAmount)));
    let mut u = depositor();
    u.total_request_lpusd = 1;
    let ctx = LiquidateSwap { program_id: program_id(), state_account: key(77), liquidator: empty_liquidator(), user_account: u };
    assert!(matches!(liquidate_swap(&ctx), Err(ErrorCode::InvalidOwner)));
}

fn withdraw_ctx(shares: u64, percent: u64, pool: u64) -> WithdrawLpUSD {
    let (_, mut c) = setup();
    c.total_percent = percent;
    c.total_lpusd = 1000;
    let mut u = depositor();
    u.lpusd_amount = shares;
    WithdrawLpUSD { program_id: program_id(), state_account: derived_state(), pool_lpusd_amount: pool, config: c, user_account: u }
}

#[test]
fn withdraw_pays_share_value() {
    let auth = Some(derived_state());
    let mut ctx = withdraw_ctx(500, 105, 1000);
    assert_eq!(withdraw_lpusd_with_authority(&mut ctx, 526, auth), Err(ErrorCode::ExceedAmount));
    assert_eq!(withdraw_lpusd_with_authority(&mut ctx, 525, auth), Ok(()));
    assert_eq!(ctx.user_account.lpusd_amount, 0);
    assert_eq!(ctx.config.total_lpusd, 500);
    let mut ctx = withdraw_ctx(500, 105, 1000);
    assert_eq!(withdraw_lpusd(&mut ctx, 105), Ok(()));
    // (500 * 105 - 105 * 100) / 105 = 400
    assert_eq!(ctx.user_account.lpusd_amount, 400);
}

#[test]
fn auction_withdraw_errors() {
    let auth = Some(derived_state());
    let mut ctx = withdraw_ctx(500, 100, 1000);
    assert_eq!(withdraw_lpusd_with_authority(&mut ctx, 0, auth), Err(ErrorCode::InvalidAmount));
    let mut ctx = withdraw_ctx(500, 100, 10);
    assert_eq!(withdraw_lpusd_with_authority(&mut ctx, 11, auth), Err(ErrorCode::InsufficientPoolAmount));
    let mut ctx = withdraw_ctx(500, 100, 1000);
    assert_eq!(withdraw_lpusd_with_authority(&mut ctx, 10, None), Err(ErrorCode::InvalidOwner));
    let mut ctx = withdraw_ctx(500, 100, 1000);
    ctx.state_account = key(77);
    assert_eq!(withdraw_lpusd(&mut ctx, 10), Err(ErrorCode::InvalidOwner));
    assert_eq!(ctx.user_account.lpusd_amount, 500);
}

#[test]
fn deposit_then_withdraw_returns_at_most_deposit() {
    let (_, c) = setup();
    let mut d = DepositLpUSD { user_lpusd_amount: 1000, config: c, user_account: depositor() };
    assert_eq!(deposit_lpusd(&mut d, 333), Ok(()));
    let mut w = WithdrawLpUSD {
        program_id: program_id(),
        state_account: derived_state(),
        pool_lpusd_amount: 1000,
        config: d.config,
        user_account: d.user_account,
    };
    assert_eq!(withdraw_lpusd(&mut w, 334), Err(ErrorCode::ExceedAmount));
    assert_eq!(withdraw_lpusd(&mut w, 333), Ok(()));
}

#[test]
fn auction_bounds_are_checked() {
    let (_, c) = setup();
    assert!(lpfinance::lpusd_auction::check_deposit_fits(&depositor(), &c, 500));
    let mut zero = c;
    zero.total_percent = 0;
    assert!(!lpfinance::lpusd_auction::check_deposit_fits(&depositor(), &zero, 500));
    let ctx = withdraw_ctx(500, 100, 1000);
    assert!(lpfinance::lpusd_auction::check_withdraw_lpusd_fits(&ctx, 500));
    let mut short = withdraw_ctx(500, 100, 1000);
    short.config.total_lpusd = 499;
    assert!(!lpfinance::lpusd_auction::check_withdraw_lpusd_fits(&short, 500));
}
