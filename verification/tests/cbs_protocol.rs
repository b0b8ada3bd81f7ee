use lpfinance::oracle::PythPrice;
use lpfinance::cbs_protocol::{
    borrow_lptoken, borrow_lptoken_with_prices, create_user_account_lending, deposit_collateral, deposit_sol,
    get_price, init_user_account, read_prices, initialize, initialize_pool, liquidate_collateral,
    liquidate_collateral_with_authority, repay_sol, repay_token, withdraw_sol_with_prices, withdraw_token,
    withdraw_token_with_prices, BorrowLpToken, Collateral, Config, CreateUserAccountLending,
    DepositCollateral, DepositSOL, ErrorCode, InitUserAccount, Initialize, InitializePool,
    LiquidateCollateral, Prices, RepayAction, RepaySOL, RepayToken, StateAccount, UserAccount, WithdrawSOL,
    WithdrawToken,
};
use lpfinance::pubkey::Pubkey;

fn key(n: u8) -> Pubkey {
    Pubkey::new_from_array([n; 32])
}

fn program_id() -> Pubkey {
    key(200)
}

fn derived_state() -> Pubkey {
    let id = anchor_lang::solana_program::pubkey::Pubkey::new_from_array(program_id().bytes);
    let (k, _) = anchor_lang::solana_program::pubkey::Pubkey::find_program_address(&[b"cbsprotocol2"], &id);
    Pubkey::new_from_array(k.to_bytes())
}

fn setup() -> (StateAccount, Config) {
    initialize(&Initialize {
        authority: key(1),
        state_account: derived_state(),
        usdc_mint: key(10),
        btc_mint: key(11),
        msol_mint: key(12),
        eth_mint: key(13),
        ust_mint: key(14),
        srm_mint: key(15),
        scnsol_mint: key(16),
        stsol_mint: key(17),
        usdt_mint: key(18),
        lpsol_mint: key(20),
        lpusd_mint: key(21),
        lpbtc_mint: key(22),
        lpeth_mint: key(23),
        pool_lpsol: key(30),
        pool_lpusd: key(31),
        pool_lpbtc: key(32),
        pool_lpeth: key(33),
    })
}

fn user() -> UserAccount {
    init_user_account(&InitUserAccount { user_authority: key(2) }, 254)
}

fn unit_prices() -> Prices {
    Prices { btc: 1, sol: 1, usdc: 1, msol: 1, eth: 1, ust: 1, srm: 1, scnsol: 1, stsol: 1, usdt: 1 }
}

/// A Pyth price account whose aggregate price is
/// 0x0101010101010101.
fn oracle() -> PythPrice {
    PythPrice { agg_price: 0x0101010101010101 }
}

const ONES: u128 = 0x0101010101010101;

#[test]
fn fresh_position_is_empty() {
    let owner = Pubkey::new_from_array([7u8; 32]);
    let u = init_user_account(&InitUserAccount { user_authority: owner }, 3);
    assert_eq!(u.btc_amount, 0);
    assert_eq!(u.borrowed_lpusd, 0);
    assert!(u.owner.key_eq(&owner));
    assert_eq!(u.bump, 3);
}

#[test]
fn initialize_records_mints_and_zero_totals() {
    let (s, c) = setup();
    assert!(s.owner.key_eq(&key(1)));
    assert!(!s.liquidation_run);
    assert!(c.usdc_mint.key_eq(&key(10)));
    assert!(c.lpeth_mint.key_eq(&key(23)));
    assert!(c.pool_lpusd.key_eq(&key(31)));
    assert!(c.pool_btc.key_eq(&Pubkey::new_from_array([0u8; 32])));
    assert_eq!(c.total_deposited_usdc, 0);
    assert_eq!(c.total_borrowed_lpusd, 0);
}

#[test]
fn initialize_pool_only_by_owner() {
    let (s, c) = setup();
    let mut ctx = InitializePool {
        authority: key(9),
        state_account_key: derived_state(),
        state_account: s,
        config: c,
        pool_btc: key(40),
        pool_usdc: key(41),
        pool_msol: key(42),
        pool_eth: key(43),
        pool_ust: key(44),
        pool_srm: key(45),
        pool_scnsol: key(46),
        pool_stsol: key(47),
        pool_usdt: key(48),
    };
    assert_eq!(initialize_pool(&mut ctx), Err(ErrorCode::InvalidOwner));
    assert!(ctx.config.pool_btc.key_eq(&Pubkey::new_from_array([0u8; 32])));
    ctx.authority = key(1);
    assert_eq!(initialize_pool(&mut ctx), Ok(()));
    assert!(ctx.config.pool_btc.key_eq(&key(40)));
    assert!(ctx.config.pool_usdt.key_eq(&key(48)));
}

#[test]
fn read_prices_takes_each_account_in_turn() {
    let at = |n: i64| PythPrice { agg_price: n };
    let p = read_prices(&at(1), &at(2), &at(3), &at(4), &at(5), &at(6), &at(7), &at(8), &at(9), &at(10));
    assert_eq!((p.btc, p.sol, p.usdc, p.msol, p.eth), (1, 2, 3, 4, 5));
    assert_eq!((p.ust, p.srm, p.scnsol, p.stsol, p.usdt), (6, 7, 8, 9, 10));
}

#[test]
fn get_price_reads_aggregate() {
    assert_eq!(get_price(&oracle()), ONES);
    assert_eq!(get_price(&PythPrice { agg_price: 2500 }), 2500);
    // a negative aggregate is cast as the program casts it
    assert_eq!(get_price(&PythPrice { agg_price: -1 }), u128::MAX);
}

#[test]
fn deposit_collateral_credits_matching_token() {
    let (_, c) = setup();
    let mut ctx = DepositCollateral {
        user_authority: key(2),
        user_collateral_amount: 500,
        collateral_mint: key(10),
        config: c,
        user_account: user(),
        whitelist: vec![key(5)],
    };
    assert_eq!(deposit_collateral(&mut ctx, 300), Ok(true));
    assert_eq!(ctx.user_account.usdc_amount, 300);
    assert_eq!(ctx.config.total_deposited_usdc, 300);
    assert_eq!(ctx.user_account.btc_amount, 0);
    ctx.whitelist.push(key(2));
    assert_eq!(deposit_collateral(&mut ctx, 200), Ok(false));
    assert_eq!(ctx.user_account.usdc_amount, 500);
    assert_eq!(ctx.config.total_deposited_usdc, 500);
}

#[test]
fn deposit_collateral_refuses_more_than_balance() {
    let (_, c) = setup();
    let mut ctx = DepositCollateral {
        user_authority: key(2),
        user_collateral_amount: 10,
        collateral_mint: key(10),
        config: c,
        user_account: user(),
        whitelist: vec![],
    };
    assert_eq!(deposit_collateral(&mut ctx, 11), Err(ErrorCode::InsufficientAmount));
    assert_eq!(ctx.user_account.usdc_amount, 0);
}

#[test]
fn deposit_sol_credits_lamports() {
    let (_, c) = setup();
    let mut ctx = DepositSOL { user_authority: key(2), user_lamports: 1000, config: c, user_account: user(), whitelist: vec![] };
    assert_eq!(deposit_sol(&mut ctx, 1001), Err(ErrorCode::InsufficientAmount));
    assert_eq!(deposit_sol(&mut ctx, 400), Ok(true));
    assert_eq!(ctx.user_account.sol_amount, 400);
    assert_eq!(ctx.config.total_deposited_sol, 400);
}

fn borrow_ctx(usdc: u64, mint: Pubkey) -> BorrowLpToken {
    let (_, mut c) = setup();
    let mut u = user();
    u.usdc_amount = usdc;
    c.total_deposited_usdc = usdc;
    BorrowLpToken {
        program_id: program_id(),
        state_account: derived_state(),
        config: c,
        user_account: u,
        collateral_mint: mint,
        pyth_btc_account: oracle(),
        pyth_eth_account: oracle(),
        pyth_usdc_account: oracle(),
        pyth_sol_account: oracle(),
        pyth_msol_account: oracle(),
        pyth_ust_account: oracle(),
        pyth_srm_account: oracle(),
        pyth_scnsol_account: oracle(),
        pyth_stsol_account: oracle(),
        pyth_usdt_account: oracle(),
    }
}

#[test]
fn borrow_within_ltv() {
    let mut ctx = borrow_ctx(100, key(21));
    let auth = Some(derived_state());
    assert_eq!(borrow_lptoken_with_prices(&mut ctx, 84, &unit_prices(), auth), Ok(()));
    assert_eq!(ctx.user_account.borrowed_lpusd, 84);
    assert_eq!(ctx.config.total_borrowed_lpusd, 84);
}

#[test]
fn borrow_at_limit_is_refused() {
    let mut ctx = borrow_ctx(100, key(21));
    let auth = Some(derived_state());
    assert_eq!(borrow_lptoken_with_prices(&mut ctx, 85, &unit_prices(), auth), Err(ErrorCode::BorrowExceed));
    assert_eq!(ctx.user_account.borrowed_lpusd, 0);
}

#[test]
fn borrow_errors() {
    let auth = Some(derived_state());
    let mut ctx = borrow_ctx(100, key(21));
    assert_eq!(borrow_lptoken_with_prices(&mut ctx, 0, &unit_prices(), auth), Err(ErrorCode::InvalidAmount));
    let mut ctx = borrow_ctx(100, key(99));
    assert_eq!(borrow_lptoken_with_prices(&mut ctx, 10, &unit_prices(), auth), Err(ErrorCode::InvalidToken));
    let mut ctx = borrow_ctx(100, key(21));
    assert_eq!(borrow_lptoken_with_prices(&mut ctx, 10, &unit_prices(), Some(key(77))), Err(ErrorCode::InvalidOwner));
    assert_eq!(borrow_lptoken_with_prices(&mut ctx, 10, &unit_prices(), None), Err(ErrorCode::InvalidOwner));
    assert_eq!(ctx.user_account.borrowed_lpusd, 0);
}

#[test]
fn borrow_lptoken_reads_oracle_and_derives_authority() {
    let mut ctx = borrow_ctx(100, key(20));
    assert_eq!(borrow_lptoken(&mut ctx, 84), Some(Ok(())));
    assert_eq!(ctx.user_account.borrowed_lpsol, 84);
    assert_eq!(ctx.config.total_borrowed_lpsol, 84);
    let mut ctx = borrow_ctx(100, key(20));
    ctx.state_account = key(77);
    assert_eq!(borrow_lptoken(&mut ctx, 84), Some(Err(ErrorCode::InvalidOwner)));
    assert_eq!(ctx.user_account.borrowed_lpsol, 0);
}

fn withdraw_sol_ctx(sol: u64, borrowed_lpusd: u64) -> WithdrawSOL {
    let (_, mut c) = setup();
    let mut u = user();
    u.sol_amount = sol;
    u.borrowed_lpusd = borrowed_lpusd;
    c.total_deposited_sol = sol;
    WithdrawSOL {
        config: c,
        user_account: u,
        pyth_btc_account: oracle(),
        pyth_usdc_account: oracle(),
        pyth_sol_account: oracle(),
        pyth_eth_account: oracle(),
        pyth_msol_account: oracle(),
        pyth_ust_account: oracle(),
        pyth_srm_account: oracle(),
        pyth_scnsol_account: oracle(),
        pyth_stsol_account: oracle(),
        pyth_usdt_account: oracle(),
    }
}

#[test]
fn withdraw_sol_up_to_limit() {
    // 1000 SOL at 1 with 85 borrowed reserves 100; 900 may leave.
    let mut ctx = withdraw_sol_ctx(1000, 85);
    assert_eq!(withdraw_sol_with_prices(&mut ctx, 901, &unit_prices()), Err(ErrorCode::InvalidAmount));
    assert_eq!(withdraw_sol_with_prices(&mut ctx, 900, &unit_prices()), Ok(()));
    assert_eq!(ctx.user_account.sol_amount, 100);
    assert_eq!(ctx.config.total_deposited_sol, 100);
    assert_eq!(withdraw_sol_with_prices(&mut ctx, 1, &unit_prices()), Err(ErrorCode::InvalidAmount));
}

#[test]
fn withdraw_sol_refused_when_over_ltv() {
    let mut ctx = withdraw_sol_ctx(100, 86);
    assert_eq!(withdraw_sol_with_prices(&mut ctx, 1, &unit_prices()), Err(ErrorCode::InvalidAmount));
    assert_eq!(ctx.user_account.sol_amount, 100);
}

fn withdraw_token_ctx(mint: Pubkey) -> WithdrawToken {
    let (_, mut c) = setup();
    let mut u = user();
    u.btc_amount = 50;
    u.usdc_amount = 1000;
    u.borrowed_lpusd = 425;
    c.total_deposited_btc = 50;
    c.total_deposited_usdc = 1000;
    WithdrawToken {
        program_id: program_id(),
        state_account: derived_state(),
        config: c,
        user_account: u,
        dest_mint: mint,
        pyth_btc_account: oracle(),
        pyth_usdc_account: oracle(),
        pyth_sol_account: oracle(),
        pyth_eth_account: oracle(),
        pyth_msol_account: oracle(),
        pyth_ust_account: oracle(),
        pyth_srm_account: oracle(),
        pyth_scnsol_account: oracle(),
        pyth_stsol_account: oracle(),
        pyth_usdt_account: oracle(),
    }
}

#[test]
fn withdraw_token_up_to_limit() {
    // Collateral 50 BTC at 10 and 1000 USDC is worth 1500.
    // With 510 borrowed, 600 is reserved: 900 USDC may leave of the 1000 held.
    let p = Prices { btc: 10, ..unit_prices() };
    let auth = Some(derived_state());
    let mut ctx = withdraw_token_ctx(key(10));
    ctx.user_account.borrowed_lpusd = 510;
    assert_eq!(withdraw_token_with_prices(&mut ctx, 901, &p, auth), Err(ErrorCode::InvalidAmount));
    assert_eq!(withdraw_token_with_prices(&mut ctx, 900, &p, auth), Ok(()));
    assert_eq!(ctx.user_account.usdc_amount, 100);
    assert_eq!(ctx.config.total_deposited_usdc, 100);
    let mut ctx = withdraw_token_ctx(key(11));
    assert_eq!(withdraw_token_with_prices(&mut ctx, 50, &p, auth), Ok(()));
    assert_eq!(ctx.user_account.btc_amount, 0);
}

#[test]
fn withdraw_token_errors() {
    let p = unit_prices();
    let auth = Some(derived_state());
    let mut ctx = withdraw_token_ctx(key(99));
    assert_eq!(withdraw_token_with_prices(&mut ctx, 1, &p, auth), Err(ErrorCode::InvalidToken));
    let mut ctx = withdraw_token_ctx(key(10));
    assert_eq!(withdraw_token_with_prices(&mut ctx, 1, &p, None), Err(ErrorCode::InvalidOwner));
    let mut ctx = withdraw_token_ctx(key(10));
    ctx.user_account.borrowed_lpusd = 2000;
    assert_eq!(withdraw_token_with_prices(&mut ctx, 1, &p, auth), Err(ErrorCode::InvalidAmount));
    assert_eq!(ctx.user_account.usdc_amount, 1000);
}

#[test]
fn withdraw_token_reads_oracle() {
    // Every price is the same: 1050 units of value, 425 borrowed reserves
    // 500, so 550 may leave.
    let mut ctx = withdraw_token_ctx(key(10));
    assert_eq!(withdraw_token(&mut ctx, 551), Some(Err(ErrorCode::InvalidAmount)));
    assert_eq!(withdraw_token(&mut ctx, 550), Some(Ok(())));
    assert_eq!(ctx.user_account.usdc_amount, 450);
}

#[test]
fn liquidation_hands_over_everything() {
    let mut u = user();
    u.lpusd_amount = 5;
    u.btc_amount = 7;
    u.usdt_amount = 9;
    u.sol_amount = 11;
    u.borrowed_lpusd = 3;
    let mut ctx = LiquidateCollateral { program_id: program_id(), state_account: derived_state(), user_account: u };
    let l = liquidate_collateral_with_authority(&mut ctx, Some(derived_state())).unwrap();
    assert_eq!(l.tokens, vec![(Collateral::Lpusd, 5), (Collateral::Btc, 7), (Collateral::Usdt, 9)]);
    assert_eq!(l.lamports, 11);
    assert_eq!(ctx.user_account.btc_amount, 0);
    assert_eq!(ctx.user_account.sol_amount, 0);
    assert_eq!(ctx.user_account.borrowed_lpusd, 0);
    assert!(ctx.user_account.owner.key_eq(&key(2)));
}

#[test]
fn liquidation_needs_program_authority() {
    let mut u = user();
    u.btc_amount = 7;
    let mut ctx = LiquidateCollateral { program_id: program_id(), state_account: key(77), user_account: u };
    assert!(matches!(liquidate_collateral(&mut ctx), Err(ErrorCode::InvalidOwner)));
    assert_eq!(ctx.user_account.btc_amount, 7);
    ctx.state_account = derived_state();
    let l = liquidate_collateral(&mut ctx).unwrap();
    assert_eq!(l.tokens, vec![(Collateral::Btc, 7)]);
}

fn repay_ctx(mint: Pubkey, balance: u64) -> RepayToken {
    let (_, mut c) = setup();
    let mut u = user();
    u.borrowed_lpusd = 100;
    u.borrowed_lpbtc = 50;
    c.total_borrowed_lpusd = 100;
    c.total_borrowed_lpbtc = 50;
    RepayToken { user_dest_amount: balance, user_dest_mint: mint, config: c, user_account: u }
}

#[test]
fn repay_token_by_transfer_or_burn() {
    let mut ctx = repay_ctx(key(10), 100);
    assert_eq!(repay_token(&mut ctx, 40), Ok(RepayAction { transfer: true, burn: false }));
    assert_eq!(ctx.user_account.borrowed_lpusd, 60);
    assert_eq!(ctx.config.total_borrowed_lpusd, 60);
    let mut ctx = repay_ctx(key(22), 100);
    assert_eq!(repay_token(&mut ctx, 50), Ok(RepayAction { transfer: false, burn: true }));
    assert_eq!(ctx.user_account.borrowed_lpbtc, 0);
    assert_eq!(ctx.config.total_borrowed_lpbtc, 0);
}

#[test]
fn repay_token_errors() {
    let mut ctx = repay_ctx(key(10), 10);
    assert_eq!(repay_token(&mut ctx, 11), Err(ErrorCode::InsufficientAmount));
    let mut ctx = repay_ctx(key(15), 100);
    assert_eq!(repay_token(&mut ctx, 10), Err(ErrorCode::InvalidToken));
    assert_eq!(ctx.user_account.borrowed_lpusd, 100);
}

#[test]
fn repay_sol_reduces_lpsol_debt() {
    let (_, mut c) = setup();
    let mut u = user();
    u.borrowed_lpsol = 30;
    c.total_borrowed_lpsol = 30;
    let mut ctx = RepaySOL { user_lamports: 100, config: c, user_account: u };
    assert_eq!(repay_sol(&mut ctx, 101), Err(ErrorCode::InsufficientAmount));
    assert_eq!(repay_sol(&mut ctx, 31), Err(ErrorCode::InvalidAmount));
    assert_eq!(repay_sol(&mut ctx, 0), Err(ErrorCode::InvalidAmount));
    assert_eq!(repay_sol(&mut ctx, 30), Ok(()));
    assert_eq!(ctx.user_account.borrowed_lpsol, 0);
    assert_eq!(ctx.config.total_borrowed_lpsol, 0);
}

#[test]
fn borrow_then_repay_restores_position() {
    let mut ctx = borrow_ctx(1000, key(21));
    let before_u = ctx.user_account;
    let before_c = ctx.config;
    assert_eq!(borrow_lptoken_with_prices(&mut ctx, 300, &unit_prices(), Some(derived_state())), Ok(()));
    let mut repay = RepayToken {
        user_dest_amount: 300,
        user_dest_mint: key(21),
        config: ctx.config,
        user_account: ctx.user_account,
    };
    assert_eq!(repay_token(&mut repay, 300), Ok(RepayAction { transfer: false, burn: true }));
    assert_eq!(repay.user_account.borrowed_lpusd, before_u.borrowed_lpusd);
    assert_eq!(repay.config.total_borrowed_lpusd, before_c.total_borrowed_lpusd);
}

#[test]
fn create_user_account_lending_checks_authority() {
    let ok = CreateUserAccountLending { program_id: program_id(), state_account: derived_state() };
    assert_eq!(create_user_account_lending(&ok), Ok(()));
    let bad = CreateUserAccountLending { program_id: program_id(), state_account: key(77) };
    assert_eq!(create_user_account_lending(&bad), Err(ErrorCode::InvalidOwner));
}

#[test]
fn withdraw_after_deposit_restores_books() {
    let (_, c) = setup();
    let mut d = DepositCollateral {
        user_authority: key(2),
        user_collateral_amount: 500,
        collateral_mint: key(11),
        config: c,
        user_account: user(),
        whitelist: vec![],
    };
    assert_eq!(deposit_collateral(&mut d, 500), Ok(true));
    let mut w = WithdrawToken {
        program_id: program_id(),
        state_account: derived_state(),
        config: d.config,
        user_account: d.user_account,
        dest_mint: key(11),
        pyth_btc_account: oracle(),
        pyth_usdc_account: oracle(),
        pyth_sol_account: oracle(),
        pyth_eth_account: oracle(),
        pyth_msol_account: oracle(),
        pyth_ust_account: oracle(),
        pyth_srm_account: oracle(),
        pyth_scnsol_account: oracle(),
        pyth_stsol_account: oracle(),
        pyth_usdt_account: oracle(),
    };
    assert_eq!(withdraw_token_with_prices(&mut w, 500, &unit_prices(), Some(derived_state())), Ok(()));
    assert_eq!(w.user_account.btc_amount, 0);
    assert_eq!(w.config.total_deposited_btc, 0);
}

#[test]
fn totals_move_with_position() {
    let (_, mut c) = setup();
    c.total_deposited_usdc = 7000;
    c.total_borrowed_lpusd = 900;
    let mut u = user();
    u.usdc_amount = 1000;
    let mut ctx = borrow_ctx(1000, key(21));
    ctx.config = c;
    ctx.user_account = u;
    assert_eq!(borrow_lptoken_with_prices(&mut ctx, 200, &unit_prices(), Some(derived_state())), Ok(()));
    assert_eq!(ctx.config.total_borrowed_lpusd - ctx.user_account.borrowed_lpusd, 900);
    let mut w = WithdrawSOL { config: ctx.config, user_account: ctx.user_account, ..withdraw_sol_ctx(0, 0) };
    w.user_account.sol_amount = 50;
    w.config.total_deposited_sol = 80;
    assert_eq!(withdraw_sol_with_prices(&mut w, 20, &unit_prices()), Ok(()));
    assert_eq!(w.config.total_deposited_sol - w.user_account.sol_amount, 30);
    assert_eq!(w.config.total_deposited_usdc - w.user_account.usdc_amount, 6000);
}

#[test]
fn withdraw_token_beyond_holding_is_refused() {
    let mut ctx = withdraw_token_ctx(key(11));
    assert_eq!(withdraw_token(&mut ctx, 51), Some(Err(ErrorCode::InvalidAmount)));
    assert_eq!(ctx.user_account.btc_amount, 50);
    assert_eq!(ctx.config.total_deposited_btc, 50);
}

#[test]
fn deposit_and_repay_bounds_are_checked() {
    let (_, c) = setup();
    let mut u = user();
    assert!(lpfinance::cbs_protocol::check_deposit_fits(&u, &c, &key(10), 5));
    u.usdc_amount = u64::MAX;
    assert!(!lpfinance::cbs_protocol::check_deposit_fits(&u, &c, &key(10), 5));
    assert!(lpfinance::cbs_protocol::check_deposit_fits(&u, &c, &key(11), 5));
    let ctx = repay_ctx(key(10), 1000);
    assert!(lpfinance::cbs_protocol::check_repay_fits(&ctx, 100));
    assert!(!lpfinance::cbs_protocol::check_repay_fits(&ctx, 101));
    assert!(lpfinance::cbs_protocol::check_repay_fits(&repay_ctx(key(99), 1000), 101));
}
