use lpfinance::lpfinance_staking::{
    daily_reward, deposit_token, init_user_account, initialize, update_owner, update_second_owner,
    withdraw_token, withdraw_token_with_authority, Config, DailyReward, DepositToken, ErrorCode,
    InitUserAccount, Initialize, UpdateConfig, UserAccount, WithdrawToken,
};
use lpfinance::pubkey::Pubkey;

fn key(n: u8) -> Pubkey {
    Pubkey::new_from_array([n; 32])
}

fn program_id() -> Pubkey {
    key(202)
}

fn derived_config() -> Pubkey {
    let id = anchor_lang::solana_program::pubkey::Pubkey::new_from_array(program_id().bytes);
    let (k, _) = anchor_lang::solana_program::pubkey::Pubkey::find_program_address(&[b"lpfi-staking"], &id);
    Pubkey::new_from_array(k.to_bytes())
}

fn config() -> Config {
    initialize(&Initialize { authority: key(1), lpfi_mint: key(5) })
}

fn staker() -> UserAccount {
    init_user_account(&InitUserAccount { authority: key(2) })
}

#[test]
fn initialize_starts_at_share_rate_one() {
    let c = config();
    assert!(c.owner.key_eq(&key(1)));
    assert_eq!(c.reward_rate, 10000000);
    assert_eq!(c.total_staked, 0);
    assert_eq!(c.last_mint_timestamp, 0);
    let u = staker();
    assert_eq!(u.lpfi_amount, 0);
    assert!(u.owner.key_eq(&key(2)));
}

#[test]
fn deposit_and_withdraw_at_rate_one() {
    let mut d = DepositToken { config: config(), user_account: staker() };
    assert_eq!(deposit_token(&mut d, 0), Err(ErrorCode::InvalidAmount));
    assert_eq!(deposit_token(&mut d, 1000), Ok(()));
    assert_eq!(d.user_account.lpfi_amount, 1000);
    assert_eq!(d.config.total_staked, 1000);
    let mut w = WithdrawToken { program_id: program_id(), config_key: derived_config(), config: d.config, user_account: d.user_account };
    assert_eq!(withdraw_token(&mut w, 1001), Err(ErrorCode::ExceedAmount));
    assert_eq!(withdraw_token(&mut w, 0), Err(ErrorCode::InvalidAmount));
    assert_eq!(withdraw_token(&mut w, 400), Ok(()));
    assert_eq!(w.user_account.lpfi_amount, 600);
    assert_eq!(w.config.total_staked, 600);
}

#[test]
fn staking_deposit_at_higher_rate_credits_fewer_shares() {
    let mut c = config();
    c.reward_rate = 20000000;
    let mut u = staker();
    u.lpfi_amount = 100;
    let mut d = DepositToken { config: c, user_account: u };
    // value 100 * 2 = 200, plus 100, back to shares: 300 / 2 = 150
    assert_eq!(deposit_token(&mut d, 100), Ok(()));
    assert_eq!(d.user_account.lpfi_amount, 150);
}

#[test]
fn withdraw_needs_program_authority() {
    let mut u = staker();
    u.lpfi_amount = 100;
    let mut c = config();
    c.total_staked = 100;
    let mut w = WithdrawToken { program_id: program_id(), config_key: key(77), config: c, user_account: u };
    assert_eq!(withdraw_token(&mut w, 10), Err(ErrorCode::InvalidOwner));
    assert_eq!(withdraw_token_with_authority(&mut w, 10, None), Err(ErrorCode::InvalidOwner));
    assert_eq!(w.user_account.lpfi_amount, 100);
}

fn reward_ctx(now: i64) -> DailyReward {
    let mut c = config();
    c.second_owner = key(3);
    c.total_staked = 1000;
    DailyReward { second_owner: key(3), config: c, lpfi_supply: 1000000000000, now }
}

#[test]
fn daily_reward_moves_share_rate() {
    let mut ctx = reward_ctx(86400);
    assert_eq!(daily_reward(&mut ctx), Ok(80900000));
    // 10^7 * 10^12 * 809 / (10^7 * 10^7 * 1000)
    assert_eq!(ctx.config.reward_rate, 80900);
    // 1000 * 80900 / 10^7, rounded down
    assert_eq!(ctx.config.total_staked, 8);
    assert_eq!(ctx.config.last_mint_timestamp, 86400);
}

#[test]
fn staking_daily_reward_errors() {
    let mut ctx = reward_ctx(86399);
    assert_eq!(daily_reward(&mut ctx), Err(ErrorCode::TooOftenMint));
    let mut ctx = reward_ctx(86400);
    ctx.second_owner = key(4);
    assert_eq!(daily_reward(&mut ctx), Err(ErrorCode::InvalidOwner));
    let mut ctx = reward_ctx(86400);
    ctx.config.total_staked = 0;
    assert_eq!(daily_reward(&mut ctx), Err(ErrorCode::InvalidAmount));
    assert_eq!(ctx.config.reward_rate, 10000000);
}

#[test]
fn staking_rewards_are_a_day_apart() {
    let mut ctx = reward_ctx(86400);
    assert!(daily_reward(&mut ctx).is_ok());
    ctx.now = 86400 + 86399;
    assert_eq!(daily_reward(&mut ctx), Err(ErrorCode::TooOftenMint));
}

#[test]
fn staking_owner_updates() {
    let mut ctx = UpdateConfig { owner: key(9), config: config() };
    assert_eq!(update_owner(&mut ctx, key(8)), Err(ErrorCode::InvalidOwner));
    ctx.owner = key(1);
    assert_eq!(update_second_owner(&mut ctx, key(3)), Ok(()));
    assert!(ctx.config.second_owner.key_eq(&key(3)));
    assert_eq!(update_second_owner(&mut ctx, key(3)), Err(ErrorCode::InvalidOwner));
    assert_eq!(update_owner(&mut ctx, key(8)), Ok(()));
    assert!(ctx.config.owner.key_eq(&key(8)));
}

#[test]
fn staking_reward_rate_follows_supply_per_stake() {
    // A supply no larger than the stake times 10^7 / 809 sends the rate to zero.
    let mut ctx = reward_ctx(86400);
    ctx.lpfi_supply = 1000;
    assert_eq!(daily_reward(&mut ctx), Ok(0));
    assert_eq!(ctx.config.reward_rate, 0);
    assert_eq!(ctx.config.total_staked, 0);
    let mut ctx = reward_ctx(86400);
    ctx.lpfi_supply = 100000000000000;
    assert_eq!(daily_reward(&mut ctx), Ok(8090000000));
    // 10^7 * 10^14 * 809 / (10^14 * 1000)
    assert_eq!(ctx.config.reward_rate, 8090000);
}

#[test]
fn staking_unstake_returns_stake_at_rate_one() {
    let mut u = staker();
    u.lpfi_amount = 250;
    let mut c = config();
    c.total_staked = 700;
    let mut d = DepositToken { config: c, user_account: u };
    assert_eq!(deposit_token(&mut d, 123), Ok(()));
    assert_eq!(d.user_account.lpfi_amount, 373);
    let mut w = WithdrawToken { program_id: program_id(), config_key: derived_config(), config: d.config, user_account: d.user_account };
    assert_eq!(withdraw_token(&mut w, 123), Ok(()));
    assert_eq!(w.user_account.lpfi_amount, 250);
    assert_eq!(w.config.total_staked, 700);
}

#[test]
fn staking_bounds_are_checked() {
    let c = config();
    assert!(lpfinance::lpfinance_staking::check_deposit_fits(&staker(), &c, 1000));
    let mut zero_rate = config();
    zero_rate.reward_rate = 0;
    assert!(!lpfinance::lpfinance_staking::check_deposit_fits(&staker(), &zero_rate, 1000));
    let ctx = reward_ctx(86400);
    assert!(lpfinance::lpfinance_staking::check_daily_reward_fits(&ctx.second_owner, &ctx.config, ctx.lpfi_supply, ctx.now));
    assert!(!lpfinance::lpfinance_staking::check_daily_reward_fits(&ctx.second_owner, &ctx.config, u64::MAX, ctx.now));
}
