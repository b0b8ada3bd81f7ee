use lpfinance::faucet::{
    initialize, request_token, withdraw_token, ErrorCode, FaucetBumps, Initialize, RequestToken, StateAccount,
    WithdrawToken,
};
use lpfinance::pubkey::Pubkey;

fn key(n: u8) -> Pubkey {
    Pubkey::new_from_array([n; 32])
}

fn faucet(name: &str) -> StateAccount {
    initialize(
        &Initialize {
            authority: key(1),
            tusdc_mint: key(10),
            tbtc_mint: key(11),
            tmsol_mint: key(12),
            pool_tusdc: key(20),
            pool_tbtc: key(21),
            pool_tmsol: key(22),
        },
        name,
        FaucetBumps { state_account: 255, pool_tusdc: 254, pool_tbtc: 253, pool_tmsol: 252 },
    )
}

#[test]
fn initialize_pads_name_and_sets_amounts() {
    let s = faucet("tap");
    assert_eq!(&s.faucet_name, b"tap       ");
    assert_eq!(s.tbtc_amount, 200000000);
    assert_eq!(s.tusdc_amount, 1000000000000);
    assert_eq!(s.tmsol_amount, 10000000000);
    assert!(s.owner.key_eq(&key(1)));
    assert!(s.pool_tbtc.key_eq(&key(21)));
    assert_eq!(s.bumps.state_account, 255);
    assert_eq!(s.bumps.pool_tmsol, 252);
}

#[test]
fn initialize_keeps_full_length_name() {
    let s = faucet("faucet0123");
    assert_eq!(&s.faucet_name, b"faucet0123");
    let s = faucet("");
    assert_eq!(&s.faucet_name, b"          ");
}

#[test]
fn request_hands_out_each_token_amount() {
    let s = faucet("tap");
    let r = |mint: u8, pool: u64| request_token(&RequestToken { token_mint: key(mint), state_account: s, pool_token_amount: pool });
    assert_eq!(r(11, u64::MAX), Ok(200000000));
    assert_eq!(r(10, u64::MAX), Ok(1000000000000));
    assert_eq!(r(12, u64::MAX), Ok(10000000000));
    assert_eq!(r(11, 200000000), Ok(200000000));
}

#[test]
fn request_errors() {
    let s = faucet("tap");
    assert_eq!(
        request_token(&RequestToken { token_mint: key(99), state_account: s, pool_token_amount: u64::MAX }),
        Err(ErrorCode::InvalidToken)
    );
    assert_eq!(
        request_token(&RequestToken { token_mint: key(11), state_account: s, pool_token_amount: 199999999 }),
        Err(ErrorCode::InsufficientPoolAmount)
    );
}

#[test]
fn request_prefers_first_matching_mint() {
    let mut s = faucet("tap");
    s.tusdc_mint = key(11);
    assert_eq!(
        request_token(&RequestToken { token_mint: key(11), state_account: s, pool_token_amount: u64::MAX }),
        Ok(200000000)
    );
}

#[test]
fn withdraw_empties_pool_for_owner_only() {
    let s = faucet("tap");
    assert_eq!(withdraw_token(&WithdrawToken { user_authority: key(1), state_account: s, pool_token_amount: 42 }), Ok(42));
    assert_eq!(
        withdraw_token(&WithdrawToken { user_authority: key(2), state_account: s, pool_token_amount: 42 }),
        Err(ErrorCode::NotAllowed)
    );
    assert_eq!(
        withdraw_token(&WithdrawToken { user_authority: key(1), state_account: s, pool_token_amount: 0 }),
        Err(ErrorCode::InsufficientPoolAmount)
    );
}
