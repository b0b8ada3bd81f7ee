use lpfinance::pubkey::Pubkey;
use lpfinance::solend::{
    daily_reward, deposit_token, init_user_account, initialize, update_owner, update_second_owner,
    withdraw_token, withdraw_token_with_authority, Config, DailyReward, DepositToken, ErrorCode,
    InitUserAccount, Initialize, StateAccount, UpdateConfigAccount, UserAccount, WithdrawToken,
};

fn key(n: u8) -> Pubkey {
    Pubkey::new_from_array([n; 32])
}

fn program_id() -> Pubkey {
    key(203)
}

fn derived_config() -> Pubkey {
    let id = anchor_lang::solana_program::pubkey::Pubkey::new_from_array(program_id().bytes);
    let (k, _) = anchor_lang::solana_program::pubkey::Pubkey::find_program_address(&[b"solend0"], &id);
    Pubkey::new_from_array(k.to_bytes())
}

fn setup() -> (StateAccount, Config) {
    initialize(&Initialize {
        authority: key(1),
        state_account: key(50),
        ust_mint: key(14),
        usdc_mint: key(10),
        msol_mint: key(12),
        srm_mint: key(15),
        scnsol_mint: key(16),
        stsol_mint: key(17),
        btc_mint: key(11),
        usdt_mint: key(18),
        eth_mint: key(13),
    })
}

fn lender() -> UserAccount {
    init_user_account(&InitUserAccount { user_authority: key(2) })
}

#[test]
fn initialize_records_mints() {
    let (s, c) = setup();
    assert!(s.owner.key_eq(&key(1)));
    assert!(c.usdc_mint.key_eq(&key(10)));
    assert_eq!(c.usdc_amount, 0);
    assert_eq!(c.usdc_rate, 0);
    let u = lender();
    assert_eq!(u.usdc_amount, 0);
    assert!(u.owner.key_eq(&key(2)));
}

#[test]
fn deposit_then_withdraw() {
    let (_, mut c) = setup();
    c.usdc_rate = 10000000;
    let mut d = DepositToken { token_mint: key(10), config: c, user_account: lender() };
    assert_eq!(deposit_token(&mut d, 0), Err(ErrorCode::InvalidAmount));
    assert_eq!(deposit_token(&mut d, 100), Ok(()));
    assert_eq!(d.user_account.usdc_amount, 100);
    assert_eq!(d.config.usdc_amount, 100);
    let mut w = WithdrawToken {
        program_id: program_id(),
        config_key: derived_config(),
        token_mint: key(10),
        config: d.config,
        user_account: d.user_account,
    };
    assert_eq!(withdraw_token(&mut w, 101), Err(ErrorCode::ExceedAmount));
    assert_eq!(withdraw_token(&mut w, 40), Ok(()));
    assert_eq!(w.user_account.usdc_amount, 60);
    assert_eq!(w.config.usdc_amount, 60);
}

#[test]
fn deposit_of_unknown_mint_records_nothing() {
    let (_, c) = setup();
    let mut d = DepositToken { token_mint: key(99), config: c, user_account: lender() };
    assert_eq!(deposit_token(&mut d, 100), Ok(()));
    assert_eq!(d.config.usdc_amount, 0);
    assert_eq!(d.user_account.usdc_amount, 0);
}

#[test]
fn solend_deposit_at_higher_rate_credits_fewer_shares() {
    let (_, mut c) = setup();
    c.btc_rate = 20000000;
    let mut d = DepositToken { token_mint: key(11), config: c, user_account: lender() };
    assert_eq!(deposit_token(&mut d, 101), Ok(()));
    assert_eq!(d.user_account.btc_amount, 50);
    assert_eq!(d.config.btc_amount, 101);
}

#[test]
fn solend_withdraw_errors() {
    let (_, mut c) = setup();
    c.usdc_rate = 10000000;
    c.usdc_amount = 100;
    let mut u = lender();
    u.usdc_amount = 100;
    let mut w = WithdrawToken { program_id: program_id(), config_key: derived_config(), token_mint: key(99), config: c, user_account: u };
    assert_eq!(withdraw_token(&mut w, 10), Err(ErrorCode::InvalidToken));
    w.token_mint = key(10);
    assert_eq!(withdraw_token(&mut w, 0), Err(ErrorCode::InvalidAmount));
    assert_eq!(withdraw_token_with_authority(&mut w, 10, None), Err(ErrorCode::InvalidOwner));
    w.config_key = key(77);
    assert_eq!(withdraw_token(&mut w, 10), Err(ErrorCode::InvalidOwner));
    assert_eq!(w.user_account.usdc_amount, 100);
}

fn reward_ctx(now: i64) -> DailyReward {
    let (mut s, mut c) = setup();
    s.second_owner = key(3);
    c.usdc_rate = 10000000;
    c.usdc_amount = 1000000000;
    DailyReward { second_owner: key(3), state_account: s, token_mint: key(10), config: c, now }
}

#[test]
fn daily_reward_grows_pool_and_rate() {
    let mut ctx = reward_ctx(86400);
    assert_eq!(daily_reward(&mut ctx, 10000809), Ok(80900));
    assert_eq!(ctx.config.usdc_amount, 1000080900);
    assert_eq!(ctx.config.usdc_rate, 10000809);
    assert_eq!(ctx.config.last_mint_timestamp, 86400);
}

#[test]
fn solend_daily_reward_errors() {
    let mut ctx = reward_ctx(86400);
    ctx.second_owner = key(4);
    assert_eq!(daily_reward(&mut ctx, 10000809), Err(ErrorCode::InvalidOwner));
    let mut ctx = reward_ctx(86400);
    assert_eq!(daily_reward(&mut ctx, 9999999), Err(ErrorCode::InvalidAmount));
    let mut ctx = reward_ctx(86399);
    assert_eq!(daily_reward(&mut ctx, 10000809), Err(ErrorCode::TooOftenMint));
    let mut ctx = reward_ctx(86400);
    ctx.token_mint = key(99);
    assert_eq!(daily_reward(&mut ctx, 10000809), Err(ErrorCode::InvalidToken));
    assert_eq!(ctx.config.usdc_amount, 1000000000);
}

#[test]
fn solend_rewards_are_a_day_apart() {
    let mut ctx = reward_ctx(86400);
    assert!(daily_reward(&mut ctx, 10000809).is_ok());
    ctx.now = 86400 + 86399;
    assert_eq!(daily_reward(&mut ctx, 10000809), Err(ErrorCode::TooOftenMint));
}

#[test]
fn solend_owner_updates() {
    let (s, _) = setup();
    let mut ctx = UpdateConfigAccount { owner: key(9), state_account: s };
    assert_eq!(update_owner(&mut ctx, key(8)), Err(ErrorCode::InvalidOwner));
    ctx.owner = key(1);
    assert_eq!(update_owner(&mut ctx, key(1)), Err(ErrorCode::InvalidOwner));
    assert_eq!(update_second_owner(&mut ctx, key(3)), Ok(()));
    assert!(ctx.state_account.second_owner.key_eq(&key(3)));
    assert_eq!(update_owner(&mut ctx, key(8)), Ok(()));
    assert!(ctx.state_account.owner.key_eq(&key(8)));
}
