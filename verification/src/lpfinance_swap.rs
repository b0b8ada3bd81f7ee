//! The swap pool: it trades SOL and tokens at oracle prices out of its own
//! reserves, and hands LP tokens to the auction during liquidations.
use vstd::prelude::*;
use crate::pubkey::{Pubkey, zero_key, zero_pubkey};
use crate::pda::{derived_program_key, find_program_key};
use crate::oracle::PythPrice;

verus! {

/// Seed of the swap's state account.
pub const PREFIX: &'static str = "lpfiswap";

/// The swap's state account.
#[derive(Clone, Copy, Debug)]
pub struct StateAccount {
    pub owner: Pubkey,
    pub second_owner: Pubkey,
}

/// The swap configuration: its mints and pools.
#[derive(Clone, Copy, Debug)]
pub struct Config {
    pub state_account: Pubkey,
    pub lpsol_mint: Pubkey,
    pub lpusd_mint: Pubkey,
    pub lpbtc_mint: Pubkey,
    pub lpeth_mint: Pubkey,
    pub msol_mint: Pubkey,
    pub btc_mint: Pubkey,
    pub usdc_mint: Pubkey,
    pub eth_mint: Pubkey,
    pub ust_mint: Pubkey,
    pub srm_mint: Pubkey,
    pub scnsol_mint: Pubkey,
    pub stsol_mint: Pubkey,
    pub usdt_mint: Pubkey,
    pub pool_btc: Pubkey,
    pub pool_usdc: Pubkey,
    pub pool_msol: Pubkey,
    pub pool_eth: Pubkey,
    pub pool_ust: Pubkey,
    pub pool_srm: Pubkey,
    pub pool_scnsol: Pubkey,
    pub pool_stsol: Pubkey,
    pub pool_usdt: Pubkey,
    pub pool_lpsol: Pubkey,
    pub pool_lpusd: Pubkey,
    pub pool_lpbtc: Pubkey,
    pub pool_lpeth: Pubkey,
}

/// Bump seeds of the swap's accounts.
#[derive(Clone, Copy, Debug)]
pub struct SwapBumps {
    pub state_account: u8,
    pub pool_usdc: u8,
    pub pool_btc: u8,
    pub pool_lpusd: u8,
    pub pool_lpsol: u8,
    pub pool_msol: u8,
}

/// Why an instruction is refused.
#[derive(Clone, Copy, Debug, PartialEq, Eq, Structural)]
pub enum ErrorCode {
    InsufficientAmount,
    InvalidQuoteAmount,
    InvalidOwner,
}

/// What `initialize` reads: the addresses it records.
pub struct Initialize {
    pub authority: Pubkey,
    pub state_account: Pubkey,
    pub lpusd_mint: Pubkey,
    pub lpsol_mint: Pubkey,
    pub lpbtc_mint: Pubkey,
    pub lpeth_mint: Pubkey,
    pub pool_lpusd: Pubkey,
    pub pool_lpsol: Pubkey,
    pub pool_lpbtc: Pubkey,
    pub pool_lpeth: Pubkey,
}

/// The configuration `initialize` writes into a fresh account.
pub open spec fn initial_config(ctx: Initialize) -> Config {
    Config {
        state_account: ctx.state_account,
        lpsol_mint: ctx.lpsol_mint,
        lpusd_mint: ctx.lpusd_mint,
        lpbtc_mint: ctx.lpbtc_mint,
        lpeth_mint: ctx.lpeth_mint,
        msol_mint: zero_key(),
        btc_mint: zero_key(),
        usdc_mint: zero_key(),
        eth_mint: zero_key(),
        ust_mint: zero_key(),
        srm_mint: zero_key(),
        scnsol_mint: zero_key(),
        stsol_mint: zero_key(),
        usdt_mint: zero_key(),
        pool_btc: zero_key(),
        pool_usdc: zero_key(),
        pool_msol: zero_key(),
        pool_eth: zero_key(),
        pool_ust: zero_key(),
        pool_srm: zero_key(),
        pool_scnsol: zero_key(),
        pool_stsol: zero_key(),
        pool_usdt: zero_key(),
        pool_lpsol: ctx.pool_lpsol,
        pool_lpusd: ctx.pool_lpusd,
        pool_lpbtc: ctx.pool_lpbtc,
        pool_lpeth: ctx.pool_lpeth,
    }
}

/// Sets up the swap: its state account, owned by the authority, and its
/// configuration with the LP mints and pools.
pub fn initialize(ctx: &Initialize) -> (r: (StateAccount, Config))
    ensures
        r.0 == (StateAccount { owner: ctx.authority, second_owner: zero_key() }),
        r.1 == initial_config(*ctx),
{
    let zero = zero_pubkey();
    let config = Config {
        state_account: ctx.state_account,
        lpsol_mint: ctx.lpsol_mint,
        lpusd_mint: ctx.lpusd_mint,
        lpbtc_mint: ctx.lpbtc_mint,
        lpeth_mint: ctx.lpeth_mint,
        msol_mint: zero,
        btc_mint: zero,
        usdc_mint: zero,
        eth_mint: zero,
        ust_mint: zero,
        srm_mint: zero,
        scnsol_mint: zero,
        stsol_mint: zero,
        usdt_mint: zero,
        pool_btc: zero,
        pool_usdc: zero,
        pool_msol: zero,
        pool_eth: zero,
        pool_ust: zero,
        pool_srm: zero,
        pool_scnsol: zero,
        pool_stsol: zero,
        pool_usdt: zero,
        pool_lpsol: ctx.pool_lpsol,
        pool_lpusd: ctx.pool_lpusd,
        pool_lpbtc: ctx.pool_lpbtc,
        pool_lpeth: ctx.pool_lpeth,
    };
    (StateAccount { owner: ctx.authority, second_owner: zero }, config)
}

/// What `initialize_pool` reads and writes.
pub struct InitializePool {
    pub authority: Pubkey,
    pub state_account: StateAccount,
    pub config: Config,
    pub msol_mint: Pubkey,
    pub btc_mint: Pubkey,
    pub usdc_mint: Pubkey,
    pub eth_mint: Pubkey,
    pub ust_mint: Pubkey,
    pub srm_mint: Pubkey,
    pub scnsol_mint: Pubkey,
    pub stsol_mint: Pubkey,
    pub usdt_mint: Pubkey,
    pub pool_btc: Pubkey,
    pub pool_usdc: Pubkey,
    pub pool_msol: Pubkey,
    pub pool_eth: Pubkey,
    pub pool_ust: Pubkey,
    pub pool_srm: Pubkey,
    pub pool_scnsol: Pubkey,
    pub pool_stsol: Pubkey,
    pub pool_usdt: Pubkey,
}

/// The configuration with the token mints and pools recorded.
pub open spec fn pooled_config(ctx: InitializePool) -> Config {
    Config {
        msol_mint: ctx.msol_mint,
        btc_mint: ctx.btc_mint,
        usdc_mint: ctx.usdc_mint,
        eth_mint: ctx.eth_mint,
        ust_mint: ctx.ust_mint,
        srm_mint: ctx.srm_mint,
        scnsol_mint: ctx.scnsol_mint,
        stsol_mint: ctx.stsol_mint,
        usdt_mint: ctx.usdt_mint,
        pool_btc: ctx.pool_btc,
        pool_usdc: ctx.pool_usdc,
        pool_msol: ctx.pool_msol,
        pool_eth: ctx.pool_eth,
        pool_ust: ctx.pool_ust,
        pool_srm: ctx.pool_srm,
        pool_scnsol: ctx.pool_scnsol,
        pool_stsol: ctx.pool_stsol,
        pool_usdt: ctx.pool_usdt,
        ..ctx.config
    }
}

/// Records the token mints and pools; only the swap's owner may.
pub fn initialize_pool(ctx: &mut InitializePool) -> (r: Result<(), ErrorCode>)
    ensures
        old(ctx).state_account.owner != old(ctx).authority ==> r == Err::<(), ErrorCode>(ErrorCode::InvalidOwner)
            && *final(ctx) == *old(ctx),
        old(ctx).state_account.owner == old(ctx).authority ==> r is Ok && *final(ctx) == (InitializePool {
            config: pooled_config(*old(ctx)),
            ..*old(ctx)
        }),
{
    if !ctx.state_account.owner.key_eq(&ctx.authority) {
        return Err(ErrorCode::InvalidOwner);
    }
    ctx.config = Config {
        msol_mint: ctx.msol_mint,
        btc_mint: ctx.btc_mint,
        usdc_mint: ctx.usdc_mint,
        eth_mint: ctx.eth_mint,
        ust_mint: ctx.ust_mint,
        srm_mint: ctx.srm_mint,
        scnsol_mint: ctx.scnsol_mint,
        stsol_mint: ctx.stsol_mint,
        usdt_mint: ctx.usdt_mint,
        pool_btc: ctx.pool_btc,
        pool_usdc: ctx.pool_usdc,
        pool_msol: ctx.pool_msol,
        pool_eth: ctx.pool_eth,
        pool_ust: ctx.pool_ust,
        pool_srm: ctx.pool_srm,
        pool_scnsol: ctx.pool_scnsol,
        pool_stsol: ctx.pool_stsol,
        pool_usdt: ctx.pool_usdt,
        ..ctx.config
    };
    Ok(())
}

/// The amount a swap pays out for `quote_amount` at the quote and
/// destination prices: the quote's value over the destination price,
/// rounded down and truncated to 64 bits.
pub open spec fn swap_amount(quote_price: int, quote_amount: u64, dest_price: int) -> u64 {
    (quote_price * quote_amount / dest_price) as u64
}

/// A swap never pays out more than the quote is worth: the payout at the
/// destination price is at most the quote's value, and, where the payout
/// fits in 64 bits, one unit more would be worth more than the quote.
pub proof fn swap_pays_at_most_quote_value(quote_price: int, quote_amount: u64, dest_price: int)
    requires
        0 <= quote_price,
        0 < dest_price,
    ensures
        swap_amount(quote_price, quote_amount, dest_price) * dest_price <= quote_price * quote_amount,
        quote_price * quote_amount / dest_price <= u64::MAX ==> (swap_amount(quote_price, quote_amount, dest_price)
            + 1) * dest_price > quote_price * quote_amount,
{
    let value = quote_price * quote_amount;
    let q = value / dest_price;
    vstd::arithmetic::mul::lemma_mul_nonnegative(quote_price, quote_amount as int);
    vstd::arithmetic::div_mod::lemma_fundamental_div_mod(value, dest_price);
    vstd::arithmetic::div_mod::lemma_mod_pos_bound(value, dest_price);
    vstd::arithmetic::div_mod::lemma_div_pos_is_pos(value, dest_price);
    let paid = swap_amount(quote_price, quote_amount, dest_price) as int;
    if q <= u64::MAX {
        assert(paid == q);
    }
    assert(paid <= q);
    assert(paid * dest_price <= value) by (nonlinear_arith)
        requires
            0 <= paid <= q,
            0 < dest_price,
            value == dest_price * q + value % dest_price,
            0 <= value % dest_price,
    ;
    if q <= u64::MAX {
        assert((paid + 1) * dest_price > value) by (nonlinear_arith)
            requires
                paid == q,
                value == dest_price * q + value % dest_price,
                value % dest_price < dest_price,
        ;
    }
}

/// What `swap_sol_to_token` reads.
pub struct SwapSOLToToken {
    pub program_id: Pubkey,
    /// Address of the swap's state account.
    pub state_account: Pubkey,
    /// The user's lamport balance.
    pub user_lamports: u64,
    /// Balance of the swap's pool of the destination token.
    pub dest_pool_amount: u64,
    pub pyth_quote_account: PythPrice,
    pub pyth_dest_account: PythPrice,
}

/// The outcome of swapping `quote_amount` lamports for a token at the given
/// prices: the amount of the token paid out, or why it is refused.
pub open spec fn sol_to_token_result(
    ctx: SwapSOLToToken,
    quote_amount: u64,
    quote_price: u64,
    dest_price: u64,
    authorized: bool,
) -> Result<u64, ErrorCode> {
    if quote_amount == 0 {
        Err(ErrorCode::InvalidQuoteAmount)
    } else if ctx.user_lamports < quote_amount {
        Err(ErrorCode::InsufficientAmount)
    } else if ctx.dest_pool_amount < swap_amount(quote_price as int, quote_amount, dest_price as int) {
        Err(ErrorCode::InsufficientAmount)
    } else if !authorized {
        Err(ErrorCode::InvalidOwner)
    } else {
        Ok(swap_amount(quote_price as int, quote_amount, dest_price as int))
    }
}

/// Swaps `quote_amount` lamports for a token at the given prices,
/// `program_authority` being the swap's derived state address. On `Ok(n)`
/// the caller moves `quote_amount` lamports from the user to the state
/// account and `n` of the token from the pool to the user.
pub fn swap_sol_to_token_with_prices(
    ctx: &SwapSOLToToken,
    quote_amount: u64,
    quote_price: u64,
    dest_price: u64,
    program_authority: Option<Pubkey>,
) -> (r: Result<u64, ErrorCode>)
    requires
        quote_amount != 0 && ctx.user_lamports >= quote_amount ==> dest_price != 0,
    ensures
        r == sol_to_token_result(*ctx, quote_amount, quote_price, dest_price, program_authority == Some(ctx.state_account)),
{
    if quote_amount == 0 {
        return Err(ErrorCode::InvalidQuoteAmount);
    }
    if ctx.user_lamports < quote_amount {
        return Err(ErrorCode::InsufficientAmount);
    }
    assert(quote_price * quote_amount <= u64::MAX * u64::MAX) by (nonlinear_arith)
        requires
            quote_price <= u64::MAX,
            quote_amount <= u64::MAX,
    ;
    let quote_total: u128 = quote_price as u128 * quote_amount as u128;
    #[verifier::truncate]
    let transfer_amount = (quote_total / dest_price as u128) as u64;
    if ctx.dest_pool_amount < transfer_amount {
        return Err(ErrorCode::InsufficientAmount);
    }
    let authorized = match program_authority {
        Some(k) => k.key_eq(&ctx.state_account),
        None => false,
    };
    if !authorized {
        return Err(ErrorCode::InvalidOwner);
    }
    Ok(transfer_amount)
}

/// An aggregate price cast to `u64`, as the SOL-to-token swap reads it.
pub open spec fn price_as_u64(agg: i64) -> u64 {
    agg as u64
}

/// An aggregate price cast to `u128`, as the token swaps read it.
pub open spec fn price_as_u128(agg: i64) -> u128 {
    agg as u128
}

/// Reads an aggregate price as a `u64`.
fn read_u64_price(data: &PythPrice) -> (p: u64)
    ensures
        p == price_as_u64(data.agg_price),
{
    data.agg_price as u64
}

/// Reads an aggregate price as a `u128`.
fn read_u128_price(data: &PythPrice) -> (p: u128)
    ensures
        p == price_as_u128(data.agg_price),
{
    data.agg_price as u128
}

/// Swaps `quote_amount` lamports for a token at the prices of the Pyth
/// accounts in `ctx`, read once the amount is accepted (see
/// `swap_sol_to_token_with_prices`). `None` where the destination price read
/// is zero, on which the program would abort.
pub fn swap_sol_to_token(ctx: &SwapSOLToToken, quote_amount: u64) -> (r: Option<Result<u64, ErrorCode>>)
    ensures
        quote_amount == 0 ==> r == Some(Err::<u64, ErrorCode>(ErrorCode::InvalidQuoteAmount)),
        quote_amount != 0 && ctx.user_lamports < quote_amount ==> r == Some(Err::<u64, ErrorCode>(
            ErrorCode::InsufficientAmount,
        )),
        quote_amount != 0 && ctx.user_lamports >= quote_amount ==> ({
            let qp = price_as_u64(ctx.pyth_quote_account.agg_price);
            let dp = price_as_u64(ctx.pyth_dest_account.agg_price);
            if dp == 0 {
                r is None
            } else {
                r == Some(
                    sol_to_token_result(
                        *ctx,
                        quote_amount,
                        qp,
                        dp,
                        derived_program_key(PREFIX@, ctx.program_id) == Some(ctx.state_account),
                    ),
                )
            }
        }),
{
    if quote_amount == 0 {
        return Some(Err(ErrorCode::InvalidQuoteAmount));
    }
    if ctx.user_lamports < quote_amount {
        return Some(Err(ErrorCode::InsufficientAmount));
    }
    let quote_price = read_u64_price(&ctx.pyth_quote_account);
    let dest_price = read_u64_price(&ctx.pyth_dest_account);
    if dest_price == 0 {
        return None;
    }
    let program_authority = find_program_key(PREFIX, &ctx.program_id);
    Some(swap_sol_to_token_with_prices(ctx, quote_amount, quote_price, dest_price, program_authority))
}

/// What `swap_token_to_sol` reads.
pub struct SwapTokenToSOL {
    /// Balance of the user's quote token account.
    pub user_quote_amount: u64,
    /// The lamport balance of the swap's state account.
    pub pool_lamports: u64,
    pub pyth_quote_account: PythPrice,
    pub pyth_dest_account: PythPrice,
}

/// The outcome of swapping `quote_amount` of a token for lamports at the
/// given prices: the lamports paid out, or why it is refused.
pub open spec fn token_to_sol_result(ctx: SwapTokenToSOL, quote_amount: u64, quote_price: u128, dest_price: u128) -> Result<u64, ErrorCode> {
    if quote_amount == 0 {
        Err(ErrorCode::InvalidQuoteAmount)
    } else if ctx.user_quote_amount < quote_amount {
        Err(ErrorCode::InsufficientAmount)
    } else if ctx.pool_lamports < swap_amount(quote_price as int, quote_amount, dest_price as int) {
        Err(ErrorCode::InsufficientAmount)
    } else {
        Ok(swap_amount(quote_price as int, quote_amount, dest_price as int))
    }
}

/// A token swap of `quote_amount` at the given prices computes without
/// overflow or division by zero.
pub open spec fn token_swap_fits(quote_amount: u64, quote_price: u128, dest_price: u128) -> bool {
    quote_price * quote_amount <= u128::MAX && dest_price != 0
}

/// Swaps `quote_amount` of a token for lamports at the given prices. On
/// `Ok(n)` the caller moves `quote_amount` of the token from the user to the
/// pool and `n` lamports from the state account to the user.
pub fn swap_token_to_sol_with_prices(ctx: &SwapTokenToSOL, quote_amount: u64, quote_price: u128, dest_price: u128) -> (r: Result<u64, ErrorCode>)
    requires
        quote_amount != 0 && ctx.user_quote_amount >= quote_amount ==> token_swap_fits(quote_amount, quote_price, dest_price),
    ensures
        r == token_to_sol_result(*ctx, quote_amount, quote_price, dest_price),
{
    if quote_amount == 0 {
        return Err(ErrorCode::InvalidQuoteAmount);
    }
    if ctx.user_quote_amount < quote_amount {
        return Err(ErrorCode::InsufficientAmount);
    }
    let quote_total = quote_price * quote_amount as u128;
    #[verifier::truncate]
    let transfer_amount = (quote_total / dest_price) as u64;
    if ctx.pool_lamports < transfer_amount {
        return Err(ErrorCode::InsufficientAmount);
    }
    Ok(transfer_amount)
}

/// Swaps `quote_amount` of a token for lamports at the prices of the Pyth
/// accounts in `ctx`, read once the amount is accepted (see
/// `swap_token_to_sol_with_prices`). `None` where the program would abort on
/// an arithmetic fault at the prices read.
pub fn swap_token_to_sol(ctx: &SwapTokenToSOL, quote_amount: u64) -> (r: Option<Result<u64, ErrorCode>>)
    ensures
        quote_amount == 0 ==> r == Some(Err::<u64, ErrorCode>(ErrorCode::InvalidQuoteAmount)),
        quote_amount != 0 && ctx.user_quote_amount < quote_amount ==> r == Some(Err::<u64, ErrorCode>(
            ErrorCode::InsufficientAmount,
        )),
        quote_amount != 0 && ctx.user_quote_amount >= quote_amount ==> ({
            let qp = price_as_u128(ctx.pyth_quote_account.agg_price);
            let dp = price_as_u128(ctx.pyth_dest_account.agg_price);
            if !token_swap_fits(quote_amount, qp, dp) {
                r is None
            } else {
                r == Some(token_to_sol_result(*ctx, quote_amount, qp, dp))
            }
        }),
{
    if quote_amount == 0 {
        return Some(Err(ErrorCode::InvalidQuoteAmount));
    }
    if ctx.user_quote_amount < quote_amount {
        return Some(Err(ErrorCode::InsufficientAmount));
    }
    let quote_price = read_u128_price(&ctx.pyth_quote_account);
    let dest_price = read_u128_price(&ctx.pyth_dest_account);
    if quote_price.checked_mul(quote_amount as u128).is_none() || dest_price == 0 {
        return None;
    }
    Some(swap_token_to_sol_with_prices(ctx, quote_amount, quote_price, dest_price))
}

/// What `swap_token_to_token` reads.
pub struct SwapTokenToToken {
    pub program_id: Pubkey,
    /// Address of the swap's state account.
    pub state_account: Pubkey,
    /// Balance of the user's quote token account.
    pub user_quote_amount: u64,
    pub pyth_quote_account: PythPrice,
    pub pyth_dest_account: PythPrice,
}

/// The outcome of swapping `quote_amount` of one token for another at the
/// given prices: the amount paid out, or why it is refused.
pub open spec fn token_to_token_result(
    ctx: SwapTokenToToken,
    quote_amount: u64,
    quote_price: u128,
    dest_price: u128,
    authorized: bool,
) -> Result<u64, ErrorCode> {
    if quote_amount == 0 {
        Err(ErrorCode::InvalidQuoteAmount)
    } else if ctx.user_quote_amount < quote_amount {
        Err(ErrorCode::InsufficientAmount)
    } else if !authorized {
        Err(ErrorCode::InvalidOwner)
    } else {
        Ok(swap_amount(quote_price as int, quote_amount, dest_price as int))
    }
}

/// Swaps `quote_amount` of one token for another at the given prices,
/// `program_authority` being the swap's derived state address. On `Ok(n)`
/// the caller moves `quote_amount` of the quote token from the user to the
/// pool and `n` of the destination token from the pool to the user.
pub fn swap_token_to_token_with_prices(
    ctx: &SwapTokenToToken,
    quote_amount: u64,
    quote_price: u128,
    dest_price: u128,
    program_authority: Option<Pubkey>,
) -> (r: Result<u64, ErrorCode>)
    requires
        quote_amount != 0 && ctx.user_quote_amount >= quote_amount ==> token_swap_fits(quote_amount, quote_price, dest_price),
    ensures
        r == token_to_token_result(*ctx, quote_amount, quote_price, dest_price, program_authority == Some(ctx.state_account)),
{
    if quote_amount == 0 {
        return Err(ErrorCode::InvalidQuoteAmount);
    }
    if ctx.user_quote_amount < quote_amount {
        return Err(ErrorCode::InsufficientAmount);
    }
    let quote_total = quote_price * quote_amount as u128;
    #[verifier::truncate]
    let transfer_amount = (quote_total / dest_price) as u64;
    let authorized = match program_authority {
        Some(k) => k.key_eq(&ctx.state_account),
        None => false,
    };
    if !authorized {
        return Err(ErrorCode::InvalidOwner);
    }
    Ok(transfer_amount)
}

/// Swaps `quote_amount` of one token for another at the prices of the Pyth
/// accounts in `ctx`, read once the amount is accepted (see
/// `swap_token_to_token_with_prices`). `None` where the program would abort
/// on an arithmetic fault at the prices read.
pub fn swap_token_to_token(ctx: &SwapTokenToToken, quote_amount: u64) -> (r: Option<Result<u64, ErrorCode>>)
    ensures
        quote_amount == 0 ==> r == Some(Err::<u64, ErrorCode>(ErrorCode::InvalidQuoteAmount)),
        quote_amount != 0 && ctx.user_quote_amount < quote_amount ==> r == Some(Err::<u64, ErrorCode>(
            ErrorCode::InsufficientAmount,
        )),
        quote_amount != 0 && ctx.user_quote_amount >= quote_amount ==> ({
            let qp = price_as_u128(ctx.pyth_quote_account.agg_price);
            let dp = price_as_u128(ctx.pyth_dest_account.agg_price);
            if !token_swap_fits(quote_amount, qp, dp) {
                r is None
            } else {
                r == Some(
                    token_to_token_result(
                        *ctx,
                        quote_amount,
                        qp,
                        dp,
                        derived_program_key(PREFIX@, ctx.program_id) == Some(ctx.state_account),
                    ),
                )
            }
        }),
{
    if quote_amount == 0 {
        return Some(Err(ErrorCode::InvalidQuoteAmount));
    }
    if ctx.user_quote_amount < quote_amount {
        return Some(Err(ErrorCode::InsufficientAmount));
    }
    let quote_price = read_u128_price(&ctx.pyth_quote_account);
    let dest_price = read_u128_price(&ctx.pyth_dest_account);
    if quote_price.checked_mul(quote_amount as u128).is_none() || dest_price == 0 {
        return None;
    }
    let program_authority = find_program_key(PREFIX, &ctx.program_id);
    Some(swap_token_to_token_with_prices(ctx, quote_amount, quote_price, dest_price, program_authority))
}

/// What `liquidate_token` reads.
pub struct LiquidateToken {
    pub program_id: Pubkey,
    /// Address of the swap's state account.
    pub state_account: Pubkey,
}

/// Checks that the swap may sign for its pools when handing `amount` of a
/// token to the auction; on success the caller moves `amount` from the swap
/// pool to the auction pool.
pub fn liquidate_token(ctx: &LiquidateToken, amount: u64) -> (r: Result<(), ErrorCode>)
    ensures
        r is Ok <==> derived_program_key(PREFIX@, ctx.program_id) == Some(ctx.state_account),
        r is Err ==> r->Err_0 == ErrorCode::InvalidOwner,
{
    match find_program_key(PREFIX, &ctx.program_id) {
        Some(k) => if k.key_eq(&ctx.state_account) {
            Ok(())
        } else {
            Err(ErrorCode::InvalidOwner)
        },
        None => Err(ErrorCode::InvalidOwner),
    }
}

/// A non-negative aggregate price is read as it is reported, as a `u64`
/// by the SOL-to-token swap and as a `u128` by the token swaps.
pub proof fn nonnegative_prices_read_as_reported(agg: i64)
    requires
        0 <= agg,
    ensures
        price_as_u64(agg) == agg,
        price_as_u128(agg) == agg,
{
}

/// A SOL-to-token swap that goes through pays the quote's value at the
/// quote account's aggregate price in units of the destination account's
/// aggregate price, rounded down: `n * dest <= quote * amount`, and
/// `quote * amount < (n + 1) * dest` where the quotient fits in 64 bits.
pub proof fn sol_to_token_pays_at_the_oracle_prices(ctx: SwapSOLToToken, quote_amount: u64, authorized: bool)
    requires
        0 <= ctx.pyth_quote_account.agg_price,
        0 < ctx.pyth_dest_account.agg_price,
    ensures
        ({
            let q = ctx.pyth_quote_account.agg_price as int;
            let d = ctx.pyth_dest_account.agg_price as int;
            let r = sol_to_token_result(
                ctx,
                quote_amount,
                price_as_u64(ctx.pyth_quote_account.agg_price),
                price_as_u64(ctx.pyth_dest_account.agg_price),
                authorized,
            );
            r is Ok ==> {
                &&& r->Ok_0 * d <= q * quote_amount
                &&& q * quote_amount / d <= u64::MAX ==> q * quote_amount < (r->Ok_0 + 1) * d
            }
        }),
{
    swap_pays_at_most_quote_value(
        ctx.pyth_quote_account.agg_price as int,
        quote_amount,
        ctx.pyth_dest_account.agg_price as int,
    );
}

/// A token-to-SOL swap that goes through pays the quote's value at the
/// quote account's aggregate price in units of the destination account's
/// aggregate price, rounded down.
pub proof fn token_to_sol_pays_at_the_oracle_prices(ctx: SwapTokenToSOL, quote_amount: u64)
    requires
        0 <= ctx.pyth_quote_account.agg_price,
        0 < ctx.pyth_dest_account.agg_price,
    ensures
        ({
            let q = ctx.pyth_quote_account.agg_price as int;
            let d = ctx.pyth_dest_account.agg_price as int;
            let r = token_to_sol_result(
                ctx,
                quote_amount,
                price_as_u128(ctx.pyth_quote_account.agg_price),
                price_as_u128(ctx.pyth_dest_account.agg_price),
            );
            r is Ok ==> {
                &&& r->Ok_0 * d <= q * quote_amount
                &&& q * quote_amount / d <= u64::MAX ==> q * quote_amount < (r->Ok_0 + 1) * d
            }
        }),
{
    swap_pays_at_most_quote_value(
        ctx.pyth_quote_account.agg_price as int,
        quote_amount,
        ctx.pyth_dest_account.agg_price as int,
    );
}

/// A token-to-token swap that goes through pays the quote's value at the
/// quote account's aggregate price in units of the destination account's
/// aggregate price, rounded down.
pub proof fn token_to_token_pays_at_the_oracle_prices(ctx: SwapTokenToToken, quote_amount: u64, authorized: bool)
    requires
        0 <= ctx.pyth_quote_account.agg_price,
        0 < ctx.pyth_dest_account.agg_price,
    ensures
        ({
            let q = ctx.pyth_quote_account.agg_price as int;
            let d = ctx.pyth_dest_account.agg_price as int;
            let r = token_to_token_result(
                ctx,
                quote_amount,
                price_as_u128(ctx.pyth_quote_account.agg_price),
                price_as_u128(ctx.pyth_dest_account.agg_price),
                authorized,
            );
            r is Ok ==> {
                &&& r->Ok_0 * d <= q * quote_amount
                &&& q * quote_amount / d <= u64::MAX ==> q * quote_amount < (r->Ok_0 + 1) * d
            }
        }),
{
    swap_pays_at_most_quote_value(
        ctx.pyth_quote_account.agg_price as int,
        quote_amount,
        ctx.pyth_dest_account.agg_price as int,
    );
}

} // verus!
