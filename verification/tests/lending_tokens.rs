use lpfinance::lending_tokens::{
    burn_token, initialize, initialize_with_authority, mint_token, mint_token_with_authority, update_owner,
    update_second_owner, ErrorCode, Initialize, MintToken, TokenStateAccount, UpdateConfigAccount,
};
use lpfinance::pubkey::Pubkey;

fn key(n: u8) -> Pubkey {
    Pubkey::new_from_array([n; 32])
}

fn program_id() -> Pubkey {
    key(206)
}

fn derived_state() -> Pubkey {
    let id = anchor_lang::solana_program::pubkey::Pubkey::new_from_array(program_id().bytes);
    let (k, _) = anchor_lang::solana_program::pubkey::Pubkey::find_program_address(&[b"lendtokens"], &id);
    Pubkey::new_from_array(k.to_bytes())
}

fn init_ctx(state_account: Pubkey) -> Initialize {
    Initialize {
        program_id: program_id(),
        authority: key(1),
        state_account,
        ust_mint: key(14),
        usdc_mint: key(10),
        msol_mint: key(12),
        srm_mint: key(15),
        scnsol_mint: key(16),
        stsol_mint: key(17),
        btc_mint: key(11),
        usdt_mint: key(18),
    }
}

#[test]
fn initialize_mints_initial_supply() {
    let (s, c, minted) = initialize(&init_ctx(derived_state())).unwrap();
    assert!(s.owner.key_eq(&key(1)));
    assert!(c.usdc_mint.key_eq(&key(10)));
    assert!(c.state_account.key_eq(&derived_state()));
    assert_eq!(minted, 500000000 * 1000000000);
}

#[test]
fn initialize_needs_program_authority() {
    assert!(matches!(initialize(&init_ctx(key(77))), Err(ErrorCode::InvalidOwner)));
    assert!(matches!(initialize_with_authority(&init_ctx(key(77)), None), Err(ErrorCode::InvalidOwner)));
    assert!(initialize_with_authority(&init_ctx(key(77)), Some(key(77))).is_ok());
}

#[test]
fn burn_checks_amount() {
    assert_eq!(burn_token(0), Err(ErrorCode::InvalidAmount));
    assert_eq!(burn_token(5), Ok(()));
}

fn state() -> TokenStateAccount {
    initialize(&init_ctx(derived_state())).unwrap().0
}

#[test]
fn owner_mints() {
    let ctx = MintToken { program_id: program_id(), owner: key(1), state_account_key: derived_state(), state_account: state() };
    assert_eq!(mint_token(&ctx, 10), Ok(()));
    assert_eq!(mint_token(&ctx, 0), Err(ErrorCode::InvalidAmount));
    assert_eq!(mint_token_with_authority(&ctx, 10, None), Err(ErrorCode::InvalidOwner));
    let stranger = MintToken { owner: key(9), ..ctx };
    assert_eq!(mint_token(&stranger, 10), Err(ErrorCode::InvalidOwner));
}

#[test]
fn lending_owner_updates() {
    let mut ctx = UpdateConfigAccount { owner: key(9), state_account: state() };
    assert_eq!(update_owner(&mut ctx, key(8)), Err(ErrorCode::InvalidOwner));
    ctx.owner = key(1);
    assert_eq!(update_second_owner(&mut ctx, key(3)), Ok(()));
    assert!(ctx.state_account.second_owner.key_eq(&key(3)));
    assert_eq!(update_owner(&mut ctx, key(1)), Err(ErrorCode::InvalidOwner));
    assert_eq!(update_owner(&mut ctx, key(8)), Ok(()));
    assert!(ctx.state_account.owner.key_eq(&key(8)));
}
