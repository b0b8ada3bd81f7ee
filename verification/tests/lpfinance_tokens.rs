use lpfinance::lpfinance_tokens::{
    burn_lptoken, initialize, mint_dao_lptoken, mint_dao_lptoken_with_authority, mint_lptoken,
    mint_lptoken_with_authority, owner_burn_lptoken, owner_mint_lptoken, update_cbs_account, update_owner,
    update_second_owner, BurnLpToken, Config, ErrorCode, Initialize, MintDaoLpToken, MintLpToken, OwnerLpToken,
    TokenStateAccount, UpdateStateAccount,
};
use lpfinance::pubkey::Pubkey;

fn key(n: u8) -> Pubkey {
    Pubkey::new_from_array([n; 32])
}

fn program_id() -> Pubkey {
    key(205)
}

fn derived_state() -> Pubkey {
    let id = anchor_lang::solana_program::pubkey::Pubkey::new_from_array(program_id().bytes);
    let (k, _) = anchor_lang::solana_program::pubkey::Pubkey::find_program_address(&[b"lpfinance"], &id);
    Pubkey::new_from_array(k.to_bytes())
}

fn setup() -> (TokenStateAccount, Config) {
    initialize(&Initialize {
        authority: key(1),
        state_account: derived_state(),
        lpbtc_mint: key(22),
        lpsol_mint: key(20),
        lpusd_mint: key(21),
    })
}

#[test]
fn initialize_records_owner_and_mints() {
    let (s, c) = setup();
    assert!(s.owner.key_eq(&key(1)));
    assert!(s.cbs_account.key_eq(&Pubkey::new_from_array([0u8; 32])));
    assert!(c.lpusd_mint.key_eq(&key(21)));
    assert_eq!(c.last_mint_timestamp, 0);
}

#[test]
fn protocol_mint_and_burn() {
    let ok = MintLpToken { program_id: program_id(), state_account: derived_state() };
    let bad = MintLpToken { program_id: program_id(), state_account: key(77) };
    assert_eq!(mint_lptoken(&ok, 10), Ok(()));
    assert_eq!(mint_lptoken(&ok, 0), Err(ErrorCode::InvalidAmount));
    assert_eq!(mint_lptoken(&bad, 10), Err(ErrorCode::InvalidOwner));
    assert_eq!(mint_lptoken_with_authority(&ok, 10, None), Err(ErrorCode::InvalidOwner));
    let ok_burn = BurnLpToken { program_id: program_id(), state_account: derived_state() };
    let bad_burn = BurnLpToken { program_id: program_id(), state_account: key(77) };
    assert_eq!(burn_lptoken(&ok_burn, 10), Ok(()));
    assert_eq!(burn_lptoken(&bad_burn, 10), Err(ErrorCode::InvalidOwner));
    assert_eq!(burn_lptoken(&ok_burn, 0), Err(ErrorCode::InvalidAmount));
}

#[test]
fn owner_mint_and_burn() {
    let (s, _) = setup();
    let ctx = OwnerLpToken { program_id: program_id(), owner: key(1), state_account_key: derived_state(), state_account: s };
    assert_eq!(owner_mint_lptoken(&ctx, 10), Ok(()));
    assert_eq!(owner_burn_lptoken(&ctx, 10), Ok(()));
    assert_eq!(owner_mint_lptoken(&ctx, 0), Err(ErrorCode::InvalidAmount));
    let stranger = OwnerLpToken { owner: key(9), ..ctx };
    assert_eq!(owner_mint_lptoken(&stranger, 10), Err(ErrorCode::InvalidOwner));
    assert_eq!(owner_burn_lptoken(&stranger, 10), Err(ErrorCode::InvalidOwner));
    let wrong_state = OwnerLpToken { state_account_key: key(77), ..ctx };
    assert_eq!(owner_mint_lptoken(&wrong_state, 10), Err(ErrorCode::InvalidOwner));
}

#[test]
fn lptokens_owner_updates() {
    let (s, _) = setup();
    let mut ctx = UpdateStateAccount { owner: key(9), state_account: s };
    assert_eq!(update_cbs_account(&mut ctx, key(60)), Err(ErrorCode::InvalidOwner));
    ctx.owner = key(1);
    assert_eq!(update_cbs_account(&mut ctx, key(60)), Ok(()));
    assert!(ctx.state_account.cbs_account.key_eq(&key(60)));
    assert_eq!(update_second_owner(&mut ctx, key(3)), Ok(()));
    assert_eq!(update_second_owner(&mut ctx, key(3)), Err(ErrorCode::InvalidOwner));
    assert_eq!(update_owner(&mut ctx, key(1)), Err(ErrorCode::InvalidOwner));
    assert_eq!(update_owner(&mut ctx, key(8)), Ok(()));
    assert!(ctx.state_account.owner.key_eq(&key(8)));
}

fn dao_ctx(now: i64) -> MintDaoLpToken {
    let (mut s, c) = setup();
    s.second_owner = key(3);
    MintDaoLpToken {
        program_id: program_id(),
        owner: key(3),
        state_account_key: derived_state(),
        state_account: s,
        config: c,
        lptoken_supply: 1000000000000,
        now,
    }
}

#[test]
fn dao_reward_mints_daily_rate() {
    let mut ctx = dao_ctx(86400);
    assert_eq!(mint_dao_lptoken(&mut ctx), Ok(80900000));
    assert_eq!(ctx.config.last_mint_timestamp, 86400);
    ctx.now = 86400 + 86399;
    assert_eq!(mint_dao_lptoken(&mut ctx), Err(ErrorCode::TooOftenMint));
    ctx.now = 86400 + 86400;
    assert_eq!(mint_dao_lptoken(&mut ctx), Ok(80900000));
}

#[test]
fn dao_reward_errors() {
    let mut ctx = dao_ctx(86400);
    ctx.lptoken_supply = 0;
    assert_eq!(mint_dao_lptoken(&mut ctx), Err(ErrorCode::InvalidAmount));
    let mut ctx = dao_ctx(86400);
    ctx.owner = key(4);
    assert_eq!(mint_dao_lptoken(&mut ctx), Err(ErrorCode::InvalidOwner));
    let mut ctx = dao_ctx(86400);
    assert_eq!(mint_dao_lptoken_with_authority(&mut ctx, None), Err(ErrorCode::InvalidOwner));
    assert_eq!(ctx.config.last_mint_timestamp, 0);
}
