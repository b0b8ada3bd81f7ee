use lpfinance::oracle::PythPrice;
use lpfinance::lpfinance_swap::{
    initialize, initialize_pool, liquidate_token, swap_sol_to_token, swap_sol_to_token_with_prices,
    swap_token_to_sol, swap_token_to_sol_with_prices, swap_token_to_token, swap_token_to_token_with_prices,
    Config, ErrorCode, Initialize, InitializePool, LiquidateToken, StateAccount, SwapSOLToToken,
    SwapTokenToSOL, SwapTokenToToken,
};
use lpfinance::pubkey::Pubkey;

fn key(n: u8) -> Pubkey {
    Pubkey::new_from_array([n; 32])
}

fn program_id() -> Pubkey {
    key(204)
}

fn derived_state() -> Pubkey {
    let id = anchor_lang::solana_program::pubkey::Pubkey::new_from_array(program_id().bytes);
    let (k, _) = anchor_lang::solana_program::pubkey::Pubkey::find_program_address(&[b"lpfiswap"], &id);
    Pubkey::new_from_array(k.to_bytes())
}

/// A Pyth price account whose aggregate price is
/// 0x0101010101010101.
fn oracle() -> PythPrice {
    PythPrice { agg_price: 0x0101010101010101 }
}

fn setup() -> (StateAccount, Config) {
    initialize(&Initialize {
        authority: key(1),
        state_account: derived_state(),
        lpusd_mint: key(21),
        lpsol_mint: key(20),
        lpbtc_mint: key(22),
        lpeth_mint: key(23),
        pool_lpusd: key(31),
        pool_lpsol: key(30),
        pool_lpbtc: key(32),
        pool_lpeth: key(33),
    })
}

#[test]
fn initialize_and_pool_setup() {
    let (s, c) = setup();
    assert!(s.owner.key_eq(&key(1)));
    assert!(c.lpusd_mint.key_eq(&key(21)));
    assert!(c.btc_mint.key_eq(&Pubkey::new_from_array([0u8; 32])));
    let mut ctx = InitializePool {
        authority: key(9),
        state_account: s,
        config: c,
        msol_mint: key(12),
        btc_mint: key(11),
        usdc_mint: key(10),
        eth_mint: key(13),
        ust_mint: key(14),
        srm_mint: key(15),
        scnsol_mint: key(16),
        stsol_mint: key(17),
        usdt_mint: key(18),
        pool_btc: key(41),
        pool_usdc: key(40),
        pool_msol: key(42),
        pool_eth: key(43),
        pool_ust: key(44),
        pool_srm: key(45),
        pool_scnsol: key(46),
        pool_stsol: key(47),
        pool_usdt: key(48),
    };
    assert_eq!(initialize_pool(&mut ctx), Err(ErrorCode::InvalidOwner));
    ctx.authority = key(1);
    assert_eq!(initialize_pool(&mut ctx), Ok(()));
    assert!(ctx.config.btc_mint.key_eq(&key(11)));
    assert!(ctx.config.pool_usdt.key_eq(&key(48)));
}

fn sol_ctx(lamports: u64, pool: u64) -> SwapSOLToToken {
    SwapSOLToToken {
        program_id: program_id(),
        state_account: derived_state(),
        user_lamports: lamports,
        dest_pool_amount: pool,
        pyth_quote_account: oracle(),
        pyth_dest_account: oracle(),
    }
}

#[test]
fn sol_to_token_pays_quote_value() {
    let auth = Some(derived_state());
    let ctx = sol_ctx(1000, 427);
    // 100 lamports at 30 for a token at 7: 3000 / 7 = 428
    assert_eq!(swap_sol_to_token_with_prices(&ctx, 100, 30, 7, auth), Err(ErrorCode::InsufficientAmount));
    let ctx = sol_ctx(1000, 428);
    assert_eq!(swap_sol_to_token_with_prices(&ctx, 100, 30, 7, auth), Ok(428));
    assert_eq!(swap_sol_to_token_with_prices(&ctx, 0, 30, 7, auth), Err(ErrorCode::InvalidQuoteAmount));
    assert_eq!(swap_sol_to_token_with_prices(&ctx, 1001, 30, 7, auth), Err(ErrorCode::InsufficientAmount));
    assert_eq!(swap_sol_to_token_with_prices(&ctx, 100, 30, 7, None), Err(ErrorCode::InvalidOwner));
}

#[test]
fn sol_to_token_reads_oracle() {
    // Equal prices: one for one.
    assert_eq!(swap_sol_to_token(&sol_ctx(1000, 1000), 250), Some(Ok(250)));
    let mut ctx = sol_ctx(1000, 1000);
    ctx.state_account = key(77);
    assert_eq!(swap_sol_to_token(&ctx, 250), Some(Err(ErrorCode::InvalidOwner)));
}

#[test]
fn token_to_sol_pays_quote_value() {
    let ctx = SwapTokenToSOL { user_quote_amount: 50, pool_lamports: 1000, pyth_quote_account: oracle(), pyth_dest_account: oracle() };
    assert_eq!(swap_token_to_sol_with_prices(&ctx, 50, 7, 3), Ok(116));
    assert_eq!(swap_token_to_sol_with_prices(&ctx, 51, 7, 3), Err(ErrorCode::InsufficientAmount));
    assert_eq!(swap_token_to_sol_with_prices(&ctx, 0, 7, 3), Err(ErrorCode::InvalidQuoteAmount));
    let poor = SwapTokenToSOL { user_quote_amount: 50, pool_lamports: 115, pyth_quote_account: oracle(), pyth_dest_account: oracle() };
    assert_eq!(swap_token_to_sol_with_prices(&poor, 50, 7, 3), Err(ErrorCode::InsufficientAmount));
    assert_eq!(swap_token_to_sol(&ctx, 50), Some(Ok(50)));
}

#[test]
fn token_to_token_pays_quote_value() {
    let auth = Some(derived_state());
    let ctx = SwapTokenToToken {
        program_id: program_id(),
        state_account: derived_state(),
        user_quote_amount: 10,
        pyth_quote_account: oracle(),
        pyth_dest_account: oracle(),
    };
    assert_eq!(swap_token_to_token_with_prices(&ctx, 10, 1000, 3, auth), Ok(3333));
    assert_eq!(swap_token_to_token_with_prices(&ctx, 10, 1000, 3, None), Err(ErrorCode::InvalidOwner));
    assert_eq!(swap_token_to_token_with_prices(&ctx, 11, 1000, 3, auth), Err(ErrorCode::InsufficientAmount));
    assert_eq!(swap_token_to_token(&ctx, 10), Some(Ok(10)));
    assert_eq!(swap_token_to_token(&ctx, 0), Some(Err(ErrorCode::InvalidQuoteAmount)));
}

#[test]
fn liquidate_token_checks_authority() {
    assert_eq!(liquidate_token(&LiquidateToken { program_id: program_id(), state_account: derived_state() }, 5), Ok(()));
    assert_eq!(liquidate_token(&LiquidateToken { program_id: program_id(), state_account: key(77) }, 5), Err(ErrorCode::InvalidOwner));
}
