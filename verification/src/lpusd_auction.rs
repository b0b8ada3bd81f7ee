//! The liquidation auction: users deposit LpUSD into a pool that buys up
//! liquidated positions; the pool's share value grows by each
//! liquidation's profit.
use vstd::prelude::*;
use crate::pubkey::{Pubkey, zero_key, zero_pubkey};
use crate::pda::{derived_program_key, find_program_key};
use crate::oracle::PythPrice;
use crate::value::{accumulate, checked_accumulate};
use crate::cbs_protocol::Prices;

verus! {

/// Scale of the pool's share percentage.
pub const DENOMINATOR: u64 = 100;
/// Loan-to-value percentage above which a position may be liquidated.
pub const LTV_PERMISSION: u64 = 94;
/// Seed of the auction's state account.
pub const PREFIX: &'static str = "lpauction1";

/// A depositor's stake in the auction pool.
#[derive(Clone, Copy, Debug)]
pub struct UserStateAccount {
    /// Deposited LpUSD, in shares of the pool at `total_percent`.
    pub lpusd_amount: u64,
    pub owner: Pubkey,
    pub temp_amount: u64,
    pub total_request_lpusd: u64,
}

/// The auction's state account.
#[derive(Clone, Copy, Debug)]
pub struct AuctionStateAccount {
    pub owner: Pubkey,
}

/// The auction configuration.
#[derive(Clone, Copy, Debug)]
pub struct Config {
    pub state_account: Pubkey,
    pub msol_mint: Pubkey,
    pub btc_mint: Pubkey,
    pub usdc_mint: Pubkey,
    pub eth_mint: Pubkey,
    pub ust_mint: Pubkey,
    pub srm_mint: Pubkey,
    pub scnsol_mint: Pubkey,
    pub stsol_mint: Pubkey,
    pub usdt_mint: Pubkey,
    pub lpsol_mint: Pubkey,
    pub lpusd_mint: Pubkey,
    pub lpbtc_mint: Pubkey,
    pub lpeth_mint: Pubkey,
    pub pool_btc: Pubkey,
    pub pool_usdc: Pubkey,
    pub pool_msol: Pubkey,
    pub pool_eth: Pubkey,
    pub pool_ust: Pubkey,
    pub pool_srm: Pubkey,
    pub pool_scnsol: Pubkey,
    pub pool_stsol: Pubkey,
    pub pool_usdt: Pubkey,
    pub pool_lpsol: Pubkey,
    pub pool_lpusd: Pubkey,
    pub pool_lpbtc: Pubkey,
    pub pool_lpeth: Pubkey,
    pub total_deposited_lpusd: u64,
    pub total_lpusd: u64,
    /// Value of the pool's shares, in percent.
    pub total_percent: u64,
    pub epoch_duration: u64,
    pub last_epoch_percent: u64,
    pub last_epoch_profit: u64,
}

/// Why an instruction is refused.
#[derive(Clone, Copy, Debug, PartialEq, Eq, Structural)]
pub enum ErrorCode {
    InsufficientAmount,
    InsufficientPoolAmount,
    InvalidOwner,
    InvalidAmount,
    ExceedAmount,
    NotEnoughLTV,
    NotBorrowedLpToken,
}

/// A borrowing position as the auction reads it: what it borrowed, what it
/// deposited directly and through the lending programs, and its LP tokens.
#[derive(Clone, Copy, Debug)]
pub struct Liquidator {
    pub borrowed_lpusd: u64,
    pub borrowed_lpsol: u64,
    pub borrowed_lpbtc: u64,
    pub borrowed_lpeth: u64,
    pub sol_amount: u64,
    pub lending_sol_amount: u64,
    pub btc_amount: u64,
    pub lending_btc_amount: u64,
    pub usdc_amount: u64,
    pub lending_usdc_amount: u64,
    pub eth_amount: u64,
    pub lending_eth_amount: u64,
    pub msol_amount: u64,
    pub lending_msol_amount: u64,
    pub ust_amount: u64,
    pub lending_ust_amount: u64,
    pub srm_amount: u64,
    pub lending_srm_amount: u64,
    pub scnsol_amount: u64,
    pub lending_scnsol_amount: u64,
    pub stsol_amount: u64,
    pub lending_stsol_amount: u64,
    pub usdt_amount: u64,
    pub lending_usdt_amount: u64,
    pub lpsol_amount: u64,
    pub lpusd_amount: u64,
    pub lpbtc_amount: u64,
    pub lpeth_amount: u64,
    pub owner: Pubkey,
}

/// The price a Pyth aggregate price stands for here: the signed value cast
/// to `u64`.
pub open spec fn price_of_aggregate(agg: i64) -> u64 {
    agg as u64
}

/// Reads the aggregate price out of a Pyth price account.
pub fn get_price(pyth_account: &PythPrice) -> (price: u64)
    ensures
        price == price_of_aggregate(pyth_account.agg_price),
{
    pyth_account.agg_price as u64
}

/// The ten prices that a liquidation reads from its Pyth accounts.
pub open spec fn liquidation_prices(ctx: Liquidate) -> Prices {
    Prices {
        btc: price_of_aggregate(ctx.pyth_btc_account.agg_price) as u128,
        sol: price_of_aggregate(ctx.pyth_sol_account.agg_price) as u128,
        usdc: price_of_aggregate(ctx.pyth_usdc_account.agg_price) as u128,
        msol: price_of_aggregate(ctx.pyth_msol_account.agg_price) as u128,
        eth: price_of_aggregate(ctx.pyth_eth_account.agg_price) as u128,
        ust: price_of_aggregate(ctx.pyth_ust_account.agg_price) as u128,
        srm: price_of_aggregate(ctx.pyth_srm_account.agg_price) as u128,
        scnsol: price_of_aggregate(ctx.pyth_scnsol_account.agg_price) as u128,
        stsol: price_of_aggregate(ctx.pyth_stsol_account.agg_price) as u128,
        usdt: price_of_aggregate(ctx.pyth_usdt_account.agg_price) as u128,
    }
}

/// Each asset's direct and lending balances add up within a `u64`.
pub open spec fn holdings_fit(l: Liquidator) -> bool {
    &&& l.sol_amount + l.lending_sol_amount <= u64::MAX
    &&& l.btc_amount + l.lending_btc_amount <= u64::MAX
    &&& l.usdc_amount + l.lending_usdc_amount <= u64::MAX
    &&& l.eth_amount + l.lending_eth_amount <= u64::MAX
    &&& l.msol_amount + l.lending_msol_amount <= u64::MAX
    &&& l.ust_amount + l.lending_ust_amount <= u64::MAX
    &&& l.srm_amount + l.lending_srm_amount <= u64::MAX
    &&& l.scnsol_amount + l.lending_scnsol_amount <= u64::MAX
    &&& l.stsol_amount + l.lending_stsol_amount <= u64::MAX
    &&& l.usdt_amount + l.lending_usdt_amount <= u64::MAX
}

/// Value of everything the position holds, at the given prices.
pub open spec fn position_value(l: Liquidator, p: Prices) -> int {
    p.sol * (l.sol_amount + l.lending_sol_amount)
        + p.btc * (l.btc_amount + l.lending_btc_amount)
        + p.usdc * (l.usdc_amount + l.lending_usdc_amount)
        + p.eth * (l.eth_amount + l.lending_eth_amount)
        + p.msol * (l.msol_amount + l.lending_msol_amount)
        + p.ust * (l.ust_amount + l.lending_ust_amount)
        + p.srm * (l.srm_amount + l.lending_srm_amount)
        + p.scnsol * (l.scnsol_amount + l.lending_scnsol_amount)
        + p.stsol * (l.stsol_amount + l.lending_stsol_amount)
        + p.usdt * (l.usdt_amount + l.lending_usdt_amount)
        + p.sol * l.lpsol_amount
        + p.btc * l.lpbtc_amount
        + p.eth * l.lpeth_amount
        + p.usdc * l.lpusd_amount
}

/// Value of everything the position borrowed, at the given prices.
pub open spec fn debt_value(l: Liquidator, p: Prices) -> int {
    l.borrowed_lpusd * p.usdc + l.borrowed_lpsol * p.sol + l.borrowed_lpbtc * p.btc + l.borrowed_lpeth * p.eth
}

/// Whether the position borrowed anything.
pub open spec fn has_debt(l: Liquidator) -> bool {
    l.borrowed_lpusd != 0 || l.borrowed_lpsol != 0 || l.borrowed_lpbtc != 0 || l.borrowed_lpeth != 0
}

/// The LpUSD a borrowed amount `b` of an LP token converts to: its value at
/// the price `price` over the USDC price, truncated to 64 bits.
pub open spec fn converted(p: Prices, price: u128, b: u64) -> u64 {
    (price * b / (p.usdc as int)) as u64
}

/// `converted` where `b` is not zero, else zero.
pub open spec fn conversion_term(p: Prices, price: u128, b: u64) -> int {
    if b > 0 { converted(p, price, b) as int } else { 0 }
}

/// The LpUSD the position's LP debts convert to, plus its own LpUSD. The
/// program converts every LP debt, LpSOL, LpBTC and LpETH alike, at the SOL
/// price.
pub open spec fn lpusd_for_swap(l: Liquidator, p: Prices) -> int {
    l.lpusd_amount + conversion_term(p, p.sol, l.borrowed_lpsol) + conversion_term(p, p.sol, l.borrowed_lpbtc)
        + conversion_term(p, p.sol, l.borrowed_lpeth)
}

/// The position may be liquidated: its debt is above `LTV_PERMISSION`
/// percent of its value.
pub open spec fn ltv_exceeded(l: Liquidator, p: Prices) -> bool {
    position_value(l, p) * LTV_PERMISSION < debt_value(l, p) * DENOMINATOR
}

/// The LpUSD the auction requests from the swap pool: the position's value
/// beyond its LpUSD and LP debts, in LpUSD, truncated to 64 bits.
pub open spec fn request_amount(l: Liquidator, p: Prices) -> u64 {
    ((position_value(l, p) - p.usdc * lpusd_for_swap(l, p)) / (p.usdc as int)) as u64
}

/// The profit of a liquidation, in LpUSD: the position's value beyond its
/// debt.
pub open spec fn liquidation_profit(l: Liquidator, p: Prices) -> int {
    (position_value(l, p) - debt_value(l, p)) / (p.usdc as int)
}

/// The pool's LpUSD after a liquidation's profit (truncated to 64 bits) is
/// added.
pub open spec fn pool_after_profit(c: Config, l: Liquidator, p: Prices) -> int {
    c.total_lpusd + (liquidation_profit(l, p) as u64)
}

/// A liquidation computes without overflow, underflow or division by zero.
pub open spec fn liquidate_fits(l: Liquidator, c: Config, p: Prices, pool_lpusd: u64, authorized: bool) -> bool {
    has_debt(l) ==> {
        &&& holdings_fit(l)
        &&& position_value(l, p) <= u128::MAX
        &&& debt_value(l, p) <= u128::MAX
        &&& position_value(l, p) * LTV_PERMISSION <= u128::MAX
        &&& debt_value(l, p) * DENOMINATOR <= u128::MAX
        &&& (ltv_exceeded(l, p) && authorized && !(l.borrowed_lpusd > 0 && l.borrowed_lpusd > pool_lpusd) ==> {
            &&& p.usdc != 0
            &&& lpusd_for_swap(l, p) <= u64::MAX
            &&& p.usdc * lpusd_for_swap(l, p) <= position_value(l, p)
            &&& (request_amount(l, p) != 0 ==> {
                &&& debt_value(l, p) <= position_value(l, p)
                &&& pool_after_profit(c, l, p) <= u64::MAX
                &&& c.total_lpusd != 0
                &&& pool_after_profit(c, l, p) * 100 <= u64::MAX
            })
        })
    }
}

/// The outcome of a liquidation.
pub open spec fn liquidate_result(l: Liquidator, p: Prices, pool_lpusd: u64, authorized: bool) -> Result<(), ErrorCode> {
    if !has_debt(l) {
        Err(ErrorCode::NotBorrowedLpToken)
    } else if !ltv_exceeded(l, p) {
        Err(ErrorCode::NotEnoughLTV)
    } else if !authorized {
        Err(ErrorCode::InvalidOwner)
    } else if l.borrowed_lpusd > 0 && l.borrowed_lpusd > pool_lpusd {
        Err(ErrorCode::InsufficientPoolAmount)
    } else if request_amount(l, p) == 0 {
        Err(ErrorCode::InvalidAmount)
    } else {
        Ok(())
    }
}

/// The configuration after a liquidation: the pool grows by the profit and
/// its share value with it.
pub open spec fn liquidated_config(c: Config, l: Liquidator, p: Prices) -> Config {
    let total_amount = pool_after_profit(c, l, p);
    Config {
        last_epoch_percent: (total_amount * 100 / (c.total_lpusd as int)) as u64,
        last_epoch_profit: liquidation_profit(l, p) as u64,
        total_lpusd: total_amount as u64,
        total_percent: (c.total_percent * total_amount / (c.total_lpusd as int)) as u64,
        ..c
    }
}

/// What `liquidate` reads and writes.
pub struct Liquidate {
    pub program_id: Pubkey,
    /// Address of the auction's state account.
    pub state_account: Pubkey,
    pub config: Config,
    pub liquidator: Liquidator,
    /// The depositor account of the position's owner.
    pub user_account: UserStateAccount,
    /// Balance of the auction's LpUSD pool.
    pub auction_lpusd_amount: u64,
    pub pyth_btc_account: PythPrice,
    pub pyth_usdc_account: PythPrice,
    pub pyth_sol_account: PythPrice,
    pub pyth_msol_account: PythPrice,
    pub pyth_ust_account: PythPrice,
    pub pyth_srm_account: PythPrice,
    pub pyth_scnsol_account: PythPrice,
    pub pyth_stsol_account: PythPrice,
    pub pyth_usdt_account: PythPrice,
    pub pyth_eth_account: PythPrice,
}

/// How a liquidation leaves its accounts.
pub open spec fn liquidate_done(pre: Liquidate, post: Liquidate, p: Prices, authorized: bool, r: Result<(), ErrorCode>) -> bool {
    match liquidate_result(pre.liquidator, p, pre.auction_lpusd_amount, authorized) {
        Err(e) => r == Err::<(), ErrorCode>(e) && post == pre,
        Ok(()) => {
            &&& r is Ok
            &&& post == Liquidate {
                user_account: UserStateAccount {
                    total_request_lpusd: request_amount(pre.liquidator, p),
                    ..pre.user_account
                },
                config: liquidated_config(pre.config, pre.liquidator, p),
                ..pre
            }
        },
    }
}

/// `position_value`, computed; the caller has shown that it fits.
pub fn position_total(l: &Liquidator, p: &Prices) -> (r: u128)
    requires
        holdings_fit(*l),
        position_value(*l, *p) <= u128::MAX,
    ensures
        r == position_value(*l, *p),
{
    proof {
        crate::value::lemma_terms_nonnegative(p.sol, (l.sol_amount + l.lending_sol_amount) as u64);
        crate::value::lemma_terms_nonnegative(p.btc, (l.btc_amount + l.lending_btc_amount) as u64);
        crate::value::lemma_terms_nonnegative(p.usdc, (l.usdc_amount + l.lending_usdc_amount) as u64);
        crate::value::lemma_terms_nonnegative(p.eth, (l.eth_amount + l.lending_eth_amount) as u64);
        crate::value::lemma_terms_nonnegative(p.msol, (l.msol_amount + l.lending_msol_amount) as u64);
        crate::value::lemma_terms_nonnegative(p.ust, (l.ust_amount + l.lending_ust_amount) as u64);
        crate::value::lemma_terms_nonnegative(p.srm, (l.srm_amount + l.lending_srm_amount) as u64);
        crate::value::lemma_terms_nonnegative(p.scnsol, (l.scnsol_amount + l.lending_scnsol_amount) as u64);
        crate::value::lemma_terms_nonnegative(p.stsol, (l.stsol_amount + l.lending_stsol_amount) as u64);
        crate::value::lemma_terms_nonnegative(p.usdt, (l.usdt_amount + l.lending_usdt_amount) as u64);
        crate::value::lemma_terms_nonnegative(p.sol, l.lpsol_amount);
        crate::value::lemma_terms_nonnegative(p.btc, l.lpbtc_amount);
        crate::value::lemma_terms_nonnegative(p.eth, l.lpeth_amount);
        crate::value::lemma_terms_nonnegative(p.usdc, l.lpusd_amount);
    }
    let mut total: u128 = 0;
    total = accumulate(total, p.sol, l.sol_amount + l.lending_sol_amount);
    total = accumulate(total, p.btc, l.btc_amount + l.lending_btc_amount);
    total = accumulate(total, p.usdc, l.usdc_amount + l.lending_usdc_amount);
    total = accumulate(total, p.eth, l.eth_amount + l.lending_eth_amount);
    total = accumulate(total, p.msol, l.msol_amount + l.lending_msol_amount);
    total = accumulate(total, p.ust, l.ust_amount + l.lending_ust_amount);
    total = accumulate(total, p.srm, l.srm_amount + l.lending_srm_amount);
    total = accumulate(total, p.scnsol, l.scnsol_amount + l.lending_scnsol_amount);
    total = accumulate(total, p.stsol, l.stsol_amount + l.lending_stsol_amount);
    total = accumulate(total, p.usdt, l.usdt_amount + l.lending_usdt_amount);
    total = accumulate(total, p.sol, l.lpsol_amount);
    total = accumulate(total, p.btc, l.lpbtc_amount);
    total = accumulate(total, p.eth, l.lpeth_amount);
    total = accumulate(total, p.usdc, l.lpusd_amount);
    total
}

/// `debt_value`, computed; the caller has shown that it fits.
pub fn debt_total(l: &Liquidator, p: &Prices) -> (r: u128)
    requires
        debt_value(*l, *p) <= u128::MAX,
    ensures
        r == debt_value(*l, *p),
{
    proof {
        crate::value::lemma_terms_nonnegative(p.usdc, l.borrowed_lpusd);
        crate::value::lemma_terms_nonnegative(p.sol, l.borrowed_lpsol);
        crate::value::lemma_terms_nonnegative(p.btc, l.borrowed_lpbtc);
        crate::value::lemma_terms_nonnegative(p.eth, l.borrowed_lpeth);
        vstd::arithmetic::mul::lemma_mul_is_commutative(p.usdc as int, l.borrowed_lpusd as int);
        vstd::arithmetic::mul::lemma_mul_is_commutative(p.sol as int, l.borrowed_lpsol as int);
        vstd::arithmetic::mul::lemma_mul_is_commutative(p.btc as int, l.borrowed_lpbtc as int);
        vstd::arithmetic::mul::lemma_mul_is_commutative(p.eth as int, l.borrowed_lpeth as int);
    }
    let mut total: u128 = 0;
    total = accumulate(total, p.usdc, l.borrowed_lpusd);
    total = accumulate(total, p.sol, l.borrowed_lpsol);
    total = accumulate(total, p.btc, l.borrowed_lpbtc);
    total = accumulate(total, p.eth, l.borrowed_lpeth);
    total
}

/// `converted`, computed.
fn convert(p: &Prices, price: u128, b: u64) -> (r: u64)
    requires
        p.usdc != 0,
        price <= u64::MAX,
    ensures
        r == converted(*p, price, b),
{
    assert(price * b <= u64::MAX * u64::MAX) by (nonlinear_arith)
        requires
            price <= u64::MAX,
            b <= u64::MAX,
    ;
    #[verifier::truncate]
    let r = (price * b as u128 / p.usdc) as u64;
    r
}

/// Every price lies within a `u64`, as prices cast from the oracle do.
pub open spec fn prices_in_u64(p: Prices) -> bool {
    &&& p.btc <= u64::MAX
    &&& p.sol <= u64::MAX
    &&& p.usdc <= u64::MAX
    &&& p.msol <= u64::MAX
    &&& p.eth <= u64::MAX
    &&& p.ust <= u64::MAX
    &&& p.srm <= u64::MAX
    &&& p.scnsol <= u64::MAX
    &&& p.stsol <= u64::MAX
    &&& p.usdt <= u64::MAX
}

/// `conversion_term`, computed.
fn conversion(p: &Prices, price: u128, b: u64) -> (r: u64)
    requires
        p.usdc != 0,
        price <= u64::MAX,
    ensures
        r == conversion_term(*p, price, b),
{
    if b > 0 { convert(p, price, b) } else { 0 }
}

/// Liquidates a position at the given prices, `program_authority` being the
/// auction's derived state address: the auction repays the position's debts
/// and books the position's value beyond them as profit to its pool. On
/// success the caller transfers the position's LpUSD debt from the auction
/// pool to the protocol, requests its other LP debts from the swap pool for
/// the protocol, and the depositor's `total_request_lpusd` is what a later
/// `liquidate_swap` requests.
pub fn liquidate_with_prices(
    ctx: &mut Liquidate,
    prices: &Prices,
    program_authority: Option<Pubkey>,
) -> (r: Result<(), ErrorCode>)
    requires
        prices_in_u64(*prices),
        liquidate_fits(
            old(ctx).liquidator,
            old(ctx).config,
            *prices,
            old(ctx).auction_lpusd_amount,
            program_authority == Some(old(ctx).state_account),
        ),
    ensures
        liquidate_done(*old(ctx), *final(ctx), *prices, program_authority == Some(old(ctx).state_account), r),
{
    let l = ctx.liquidator;
    if l.borrowed_lpusd == 0 && l.borrowed_lpsol == 0 && l.borrowed_lpbtc == 0 && l.borrowed_lpeth == 0 {
        return Err(ErrorCode::NotBorrowedLpToken);
    }
    let total_price = position_total(&l, prices);
    let total_borrowed_price = debt_total(&l, prices);
    if total_price * (LTV_PERMISSION as u128) >= total_borrowed_price * (DENOMINATOR as u128) {
        return Err(ErrorCode::NotEnoughLTV);
    }
    let authorized = match program_authority {
        Some(k) => k.key_eq(&ctx.state_account),
        None => false,
    };
    if !authorized {
        return Err(ErrorCode::InvalidOwner);
    }
    if l.borrowed_lpusd > 0 && l.borrowed_lpusd > ctx.auction_lpusd_amount {
        return Err(ErrorCode::InsufficientPoolAmount);
    }
    let usdc_price = prices.usdc;
    let sol_term = conversion(prices, prices.sol, l.borrowed_lpsol);
    let btc_term = conversion(prices, prices.sol, l.borrowed_lpbtc);
    let eth_term = conversion(prices, prices.sol, l.borrowed_lpeth);
    let lpusd_for_swap = l.lpusd_amount + sol_term + btc_term + eth_term;
    assert(usdc_price * lpusd_for_swap <= u64::MAX * u64::MAX) by (nonlinear_arith)
        requires
            usdc_price <= u64::MAX,
            lpusd_for_swap <= u64::MAX,
    ;
    #[verifier::truncate]
    let total_request_lpusd = ((total_price - usdc_price * lpusd_for_swap as u128) / usdc_price) as u64;
    if total_request_lpusd == 0 {
        return Err(ErrorCode::InvalidAmount);
    }
    let reward = (total_price - total_borrowed_price) / usdc_price;
    let total_lpusd = ctx.config.total_lpusd;
    #[verifier::truncate]
    let profit = reward as u64;
    let total_amount = total_lpusd + profit;
    let percent = ctx.config.total_percent;
    assert(percent * total_amount <= u64::MAX * u64::MAX) by (nonlinear_arith)
        requires
            percent <= u64::MAX,
            total_amount <= u64::MAX,
    ;
    #[verifier::truncate]
    let auction_percent = (percent as u128 * total_amount as u128 / total_lpusd as u128) as u64;
    ctx.user_account.total_request_lpusd = total_request_lpusd;
    ctx.config.last_epoch_percent = total_amount * 100 / total_lpusd;
    ctx.config.last_epoch_profit = profit;
    ctx.config.total_lpusd = total_amount;
    ctx.config.total_percent = auction_percent;
    Ok(())
}

/// `holdings_fit`, computed.
pub fn check_holdings(l: &Liquidator) -> (r: bool)
    ensures
        r == holdings_fit(*l),
{
    l.sol_amount.checked_add(l.lending_sol_amount).is_some()
        && l.btc_amount.checked_add(l.lending_btc_amount).is_some()
        && l.usdc_amount.checked_add(l.lending_usdc_amount).is_some()
        && l.eth_amount.checked_add(l.lending_eth_amount).is_some()
        && l.msol_amount.checked_add(l.lending_msol_amount).is_some()
        && l.ust_amount.checked_add(l.lending_ust_amount).is_some()
        && l.srm_amount.checked_add(l.lending_srm_amount).is_some()
        && l.scnsol_amount.checked_add(l.lending_scnsol_amount).is_some()
        && l.stsol_amount.checked_add(l.lending_stsol_amount).is_some()
        && l.usdt_amount.checked_add(l.lending_usdt_amount).is_some()
}

/// `position_value` where the holdings fit and the value fits in a `u128`,
/// else `None`.
pub fn checked_position_total(l: &Liquidator, p: &Prices) -> (r: Option<u128>)
    requires
        holdings_fit(*l),
    ensures
        position_value(*l, *p) <= u128::MAX ==> r == Some(position_value(*l, *p) as u128),
        position_value(*l, *p) > u128::MAX ==> r is None,
{
    proof {
        crate::value::lemma_terms_nonnegative(p.sol, (l.sol_amount + l.lending_sol_amount) as u64);
        crate::value::lemma_terms_nonnegative(p.btc, (l.btc_amount + l.lending_btc_amount) as u64);
        crate::value::lemma_terms_nonnegative(p.usdc, (l.usdc_amount + l.lending_usdc_amount) as u64);
        crate::value::lemma_terms_nonnegative(p.eth, (l.eth_amount + l.lending_eth_amount) as u64);
        crate::value::lemma_terms_nonnegative(p.msol, (l.msol_amount + l.lending_msol_amount) as u64);
        crate::value::lemma_terms_nonnegative(p.ust, (l.ust_amount + l.lending_ust_amount) as u64);
        crate::value::lemma_terms_nonnegative(p.srm, (l.srm_amount + l.lending_srm_amount) as u64);
        crate::value::lemma_terms_nonnegative(p.scnsol, (l.scnsol_amount + l.lending_scnsol_amount) as u64);
        crate::value::lemma_terms_nonnegative(p.stsol, (l.stsol_amount + l.lending_stsol_amount) as u64);
        crate::value::lemma_terms_nonnegative(p.usdt, (l.usdt_amount + l.lending_usdt_amount) as u64);
        crate::value::lemma_terms_nonnegative(p.sol, l.lpsol_amount);
        crate::value::lemma_terms_nonnegative(p.btc, l.lpbtc_amount);
        crate::value::lemma_terms_nonnegative(p.eth, l.lpeth_amount);
        crate::value::lemma_terms_nonnegative(p.usdc, l.lpusd_amount);
    }
    let total: u128 = 0;
    let total = match checked_accumulate(total, p.sol, l.sol_amount + l.lending_sol_amount) {
        Some(t) => t,
        None => return None,
    };
    let total = match checked_accumulate(total, p.btc, l.btc_amount + l.lending_btc_amount) {
        Some(t) => t,
        None => return None,
    };
    let total = match checked_accumulate(total, p.usdc, l.usdc_amount + l.lending_usdc_amount) {
        Some(t) => t,
        None => return None,
    };
    let total = match checked_accumulate(total, p.eth, l.eth_amount + l.lending_eth_amount) {
        Some(t) => t,
        None => return None,
    };
    let total = match checked_accumulate(total, p.msol, l.msol_amount + l.lending_msol_amount) {
        Some(t) => t,
        None => return None,
    };
    let total = match checked_accumulate(total, p.ust, l.ust_amount + l.lending_ust_amount) {
        Some(t) => t,
        None => return None,
    };
    let total = match checked_accumulate(total, p.srm, l.srm_amount + l.lending_srm_amount) {
        Some(t) => t,
        None => return None,
    };
    let total = match checked_accumulate(total, p.scnsol, l.scnsol_amount + l.lending_scnsol_amount) {
        Some(t) => t,
        None => return None,
    };
    let total = match checked_accumulate(total, p.stsol, l.stsol_amount + l.lending_stsol_amount) {
        Some(t) => t,
        None => return None,
    };
    let total = match checked_accumulate(total, p.usdt, l.usdt_amount + l.lending_usdt_amount) {
        Some(t) => t,
        None => return None,
    };
    let total = match checked_accumulate(total, p.sol, l.lpsol_amount) {
        Some(t) => t,
        None => return None,
    };
    let total = match checked_accumulate(total, p.btc, l.lpbtc_amount) {
        Some(t) => t,
        None => return None,
    };
    let total = match checked_accumulate(total, p.eth, l.lpeth_amount) {
        Some(t) => t,
        None => return None,
    };
    let total = match checked_accumulate(total, p.usdc, l.lpusd_amount) {
        Some(t) => t,
        None => return None,
    };
    Some(total)
}

/// `debt_value` where it fits in a `u128`, else `None`.
pub fn checked_debt_total(l: &Liquidator, p: &Prices) -> (r: Option<u128>)
    ensures
        debt_value(*l, *p) <= u128::MAX ==> r == Some(debt_value(*l, *p) as u128),
        debt_value(*l, *p) > u128::MAX ==> r is None,
{
    proof {
        crate::value::lemma_terms_nonnegative(p.usdc, l.borrowed_lpusd);
        crate::value::lemma_terms_nonnegative(p.sol, l.borrowed_lpsol);
        crate::value::lemma_terms_nonnegative(p.btc, l.borrowed_lpbtc);
        crate::value::lemma_terms_nonnegative(p.eth, l.borrowed_lpeth);
        vstd::arithmetic::mul::lemma_mul_is_commutative(p.usdc as int, l.borrowed_lpusd as int);
        vstd::arithmetic::mul::lemma_mul_is_commutative(p.sol as int, l.borrowed_lpsol as int);
        vstd::arithmetic::mul::lemma_mul_is_commutative(p.btc as int, l.borrowed_lpbtc as int);
        vstd::arithmetic::mul::lemma_mul_is_commutative(p.eth as int, l.borrowed_lpeth as int);
    }
    let total: u128 = 0;
    let total = match checked_accumulate(total, p.usdc, l.borrowed_lpusd) {
        Some(t) => t,
        None => return None,
    };
    let total = match checked_accumulate(total, p.sol, l.borrowed_lpsol) {
        Some(t) => t,
        None => return None,
    };
    let total = match checked_accumulate(total, p.btc, l.borrowed_lpbtc) {
        Some(t) => t,
        None => return None,
    };
    let total = match checked_accumulate(total, p.eth, l.borrowed_lpeth) {
        Some(t) => t,
        None => return None,
    };
    Some(total)
}

/// `liquidate_fits`, computed.
pub fn check_liquidate_fits(l: &Liquidator, c: &Config, p: &Prices, pool_lpusd: u64, authorized: bool) -> (r: bool)
    requires
        prices_in_u64(*p),
    ensures
        r == liquidate_fits(*l, *c, *p, pool_lpusd, authorized),
{
    if l.borrowed_lpusd == 0 && l.borrowed_lpsol == 0 && l.borrowed_lpbtc == 0 && l.borrowed_lpeth == 0 {
        return true;
    }
    if !check_holdings(l) {
        return false;
    }
    let total = match checked_position_total(l, p) {
        None => return false,
        Some(t) => t,
    };
    let debt = match checked_debt_total(l, p) {
        None => return false,
        Some(d) => d,
    };
    let value_share = match total.checked_mul(LTV_PERMISSION as u128) {
        None => return false,
        Some(x) => x,
    };
    let debt_share = match debt.checked_mul(DENOMINATOR as u128) {
        None => return false,
        Some(x) => x,
    };
    if value_share >= debt_share {
        return true;
    }
    if !authorized || (l.borrowed_lpusd > 0 && l.borrowed_lpusd > pool_lpusd) {
        return true;
    }
    if p.usdc == 0 {
        return false;
    }
    let sol_term = conversion(p, p.sol, l.borrowed_lpsol);
    let btc_term = conversion(p, p.sol, l.borrowed_lpbtc);
    let eth_term = conversion(p, p.sol, l.borrowed_lpeth);
    let swap = match l.lpusd_amount.checked_add(sol_term) {
        None => return false,
        Some(x) => x,
    };
    let swap = match swap.checked_add(btc_term) {
        None => return false,
        Some(x) => x,
    };
    let swap = match swap.checked_add(eth_term) {
        None => return false,
        Some(x) => x,
    };
    let usdc_price = p.usdc;
    assert(usdc_price * swap <= u64::MAX * u64::MAX) by (nonlinear_arith)
        requires
            usdc_price <= u64::MAX,
            swap <= u64::MAX,
    ;
    let swap_value = usdc_price * swap as u128;
    if swap_value > total {
        return false;
    }
    #[verifier::truncate]
    let request = ((total - swap_value) / usdc_price) as u64;
    if request == 0 {
        return true;
    }
    if debt > total {
        return false;
    }
    #[verifier::truncate]
    let profit = ((total - debt) / usdc_price) as u64;
    let total_amount = match c.total_lpusd.checked_add(profit) {
        None => return false,
        Some(x) => x,
    };
    c.total_lpusd != 0 && total_amount.checked_mul(100).is_some()
}

/// Reads the ten prices of a liquidation out of their Pyth accounts.
fn read_liquidation_prices(ctx: &Liquidate) -> (p: Prices)
    ensures
        p == liquidation_prices(*ctx),
        prices_in_u64(p),
{
    Prices {
        btc: get_price(&ctx.pyth_btc_account) as u128,
        sol: get_price(&ctx.pyth_sol_account) as u128,
        usdc: get_price(&ctx.pyth_usdc_account) as u128,
        msol: get_price(&ctx.pyth_msol_account) as u128,
        eth: get_price(&ctx.pyth_eth_account) as u128,
        ust: get_price(&ctx.pyth_ust_account) as u128,
        srm: get_price(&ctx.pyth_srm_account) as u128,
        scnsol: get_price(&ctx.pyth_scnsol_account) as u128,
        stsol: get_price(&ctx.pyth_stsol_account) as u128,
        usdt: get_price(&ctx.pyth_usdt_account) as u128,
    }
}

/// Liquidates a position, pricing it with the Pyth accounts in `ctx` (see
/// `liquidate_with_prices`). The prices are read only where the position
/// has debt. `None` where the program would abort on an arithmetic fault at
/// the prices read; the accounts are then unchanged.
pub fn liquidate(ctx: &mut Liquidate) -> (r: Option<Result<(), ErrorCode>>)
    ensures
        !has_debt(old(ctx).liquidator) ==> r == Some(Err::<(), ErrorCode>(ErrorCode::NotBorrowedLpToken))
            && *final(ctx) == *old(ctx),
        has_debt(old(ctx).liquidator) ==> (r is None <==> !liquidate_fits(
            old(ctx).liquidator,
            old(ctx).config,
            liquidation_prices(*old(ctx)),
            old(ctx).auction_lpusd_amount,
            derived_program_key(PREFIX@, old(ctx).program_id) == Some(old(ctx).state_account),
        )),
        r is None ==> *final(ctx) == *old(ctx),
        has_debt(old(ctx).liquidator) && r is Some ==> liquidate_done(
            *old(ctx),
            *final(ctx),
            liquidation_prices(*old(ctx)),
            derived_program_key(PREFIX@, old(ctx).program_id) == Some(old(ctx).state_account),
            r.unwrap(),
        ),
{
    let l = ctx.liquidator;
    if l.borrowed_lpusd == 0 && l.borrowed_lpsol == 0 && l.borrowed_lpbtc == 0 && l.borrowed_lpeth == 0 {
        return Some(Err(ErrorCode::NotBorrowedLpToken));
    }
    let prices = read_liquidation_prices(ctx);
    let program_authority = find_program_key(PREFIX, &ctx.program_id);
    let authorized = match program_authority {
        Some(k) => k.key_eq(&ctx.state_account),
        None => false,
    };
    if !check_liquidate_fits(&ctx.liquidator, &ctx.config, &prices, ctx.auction_lpusd_amount, authorized) {
        return None;
    }
    let r = liquidate_with_prices(ctx, &prices, program_authority);
    Some(r)
}

/// An LP token debt a liquidation repays to the borrowing protocol.
#[derive(Clone, Copy, Debug, PartialEq, Eq, Structural)]
pub enum LpDebt {
    Lpusd,
    Lpsol,
    Lpbtc,
    Lpeth,
}

/// `s` with `(d, v)` appended where `v` is not zero.
pub open spec fn push_debt(s: Seq<(LpDebt, u64)>, d: LpDebt, v: u64) -> Seq<(LpDebt, u64)> {
    if v > 0 { s.push((d, v)) } else { s }
}

/// The repayments a liquidation makes, in order: the LpUSD debt from the
/// auction's pool, then the LpSOL, LpBTC and LpETH debts requested from the
/// swap pool, each that is not zero, with its amount.
pub open spec fn debt_repayments(l: Liquidator) -> Seq<(LpDebt, u64)> {
    let s = Seq::<(LpDebt, u64)>::empty();
    let s = push_debt(s, LpDebt::Lpusd, l.borrowed_lpusd);
    let s = push_debt(s, LpDebt::Lpsol, l.borrowed_lpsol);
    let s = push_debt(s, LpDebt::Lpbtc, l.borrowed_lpbtc);
    let s = push_debt(s, LpDebt::Lpeth, l.borrowed_lpeth);
    s
}

/// Appends `(d, v)` to `repayments` where `v` is not zero.
fn push_repayment(repayments: &mut Vec<(LpDebt, u64)>, d: LpDebt, v: u64)
    ensures
        final(repayments)@ == push_debt(old(repayments)@, d, v),
{
    if v > 0 {
        repayments.push((d, v));
    }
}

/// The repayments a liquidation of `l` makes (see `debt_repayments`): on a
/// liquidation's success the caller transfers the LpUSD debt to the
/// protocol and requests each other LP debt from the swap pool for it.
pub fn repayments(l: &Liquidator) -> (r: Vec<(LpDebt, u64)>)
    ensures
        r@ == debt_repayments(*l),
{
    let mut r: Vec<(LpDebt, u64)> = Vec::new();
    push_repayment(&mut r, LpDebt::Lpusd, l.borrowed_lpusd);
    push_repayment(&mut r, LpDebt::Lpsol, l.borrowed_lpsol);
    push_repayment(&mut r, LpDebt::Lpbtc, l.borrowed_lpbtc);
    push_repayment(&mut r, LpDebt::Lpeth, l.borrowed_lpeth);
    r
}

/// A token the auction hands to the swap pool.
#[derive(Clone, Copy, Debug, PartialEq, Eq, Structural)]
pub enum Asset {
    Btc,
    Msol,
    Usdc,
    Eth,
    Ust,
    Srm,
    Scnsol,
    Stsol,
    Usdt,
    Lpsol,
    Lpbtc,
    Lpeth,
}

/// `s` with `(a, v)` appended where `v` is not zero.
pub open spec fn push_nonzero(s: Seq<(Asset, u64)>, a: Asset, v: u64) -> Seq<(Asset, u64)> {
    if v > 0 { s.push((a, v)) } else { s }
}

/// Appends `(a, v)` to `transfers` where `v` is not zero.
fn push_transfer(transfers: &mut Vec<(Asset, u64)>, a: Asset, v: u64)
    ensures
        final(transfers)@ == push_nonzero(old(transfers)@, a, v),
{
    if v > 0 {
        transfers.push((a, v));
    }
}

/// The token transfers from the auction to the swap pool that
/// `liquidate_swap` makes, in order: every token of the position (direct and
/// lending balances together), with its amount.
pub open spec fn swap_transfers(l: Liquidator) -> Seq<(Asset, u64)> {
    let s = Seq::<(Asset, u64)>::empty();
    let s = push_nonzero(s, Asset::Btc, (l.btc_amount + l.lending_btc_amount) as u64);
    let s = push_nonzero(s, Asset::Msol, (l.msol_amount + l.lending_msol_amount) as u64);
    let s = push_nonzero(s, Asset::Usdc, (l.usdc_amount + l.lending_usdc_amount) as u64);
    let s = push_nonzero(s, Asset::Eth, (l.eth_amount + l.lending_eth_amount) as u64);
    let s = push_nonzero(s, Asset::Ust, (l.ust_amount + l.lending_ust_amount) as u64);
    let s = push_nonzero(s, Asset::Srm, (l.srm_amount + l.lending_srm_amount) as u64);
    let s = push_nonzero(s, Asset::Scnsol, (l.scnsol_amount + l.lending_scnsol_amount) as u64);
    let s = push_nonzero(s, Asset::Stsol, (l.stsol_amount + l.lending_stsol_amount) as u64);
    let s = push_nonzero(s, Asset::Usdt, (l.usdt_amount + l.lending_usdt_amount) as u64);
    let s = push_nonzero(s, Asset::Lpsol, l.lpsol_amount);
    let s = push_nonzero(s, Asset::Lpbtc, l.lpbtc_amount);
    let s = push_nonzero(s, Asset::Lpeth, l.lpeth_amount);
    s
}

/// What `liquidate_swap` hands over: the tokens to the swap pool, the LpUSD
/// it requests back and the lamports to the swap's state account.
pub struct SwapLiquidation {
    pub tokens: Vec<(Asset, u64)>,
    pub lpusd_request: u64,
    pub lamports: u64,
}

/// What `liquidate_swap` reads.
pub struct LiquidateSwap {
    pub program_id: Pubkey,
    /// Address of the auction's state account.
    pub state_account: Pubkey,
    pub liquidator: Liquidator,
    pub user_account: UserStateAccount,
}

/// Hands a liquidated position to the swap pool, `program_authority` being
/// the auction's derived state address: on success the caller makes the
/// returned transfers and requests the returned LpUSD from the swap pool.
pub fn liquidate_swap_with_authority(ctx: &LiquidateSwap, program_authority: Option<Pubkey>) -> (r: Result<SwapLiquidation, ErrorCode>)
    requires
        ctx.user_account.total_request_lpusd != 0 ==> holdings_fit(ctx.liquidator),
    ensures
        ctx.user_account.total_request_lpusd == 0 ==> r is Err && r->Err_0 == ErrorCode::InvalidAmount,
        ctx.user_account.total_request_lpusd != 0 && program_authority != Some(ctx.state_account) ==> r is Err
            && r->Err_0 == ErrorCode::InvalidOwner,
        ctx.user_account.total_request_lpusd != 0 && program_authority == Some(ctx.state_account) ==> {
            &&& r is Ok
            &&& r->Ok_0.tokens@ == swap_transfers(ctx.liquidator)
            &&& r->Ok_0.lpusd_request == ctx.user_account.total_request_lpusd
            &&& r->Ok_0.lamports == ctx.liquidator.sol_amount + ctx.liquidator.lending_sol_amount
        },
{
    let total_request_lpusd = ctx.user_account.total_request_lpusd;
    if total_request_lpusd == 0 {
        return Err(ErrorCode::InvalidAmount);
    }
    let l = ctx.liquidator;
    let sol_amount = l.sol_amount + l.lending_sol_amount;
    let authorized = match program_authority {
        Some(k) => k.key_eq(&ctx.state_account),
        None => false,
    };
    if !authorized {
        return Err(ErrorCode::InvalidOwner);
    }
    let mut tokens: Vec<(Asset, u64)> = Vec::new();
    push_transfer(&mut tokens, Asset::Btc, l.btc_amount + l.lending_btc_amount);
    push_transfer(&mut tokens, Asset::Msol, l.msol_amount + l.lending_msol_amount);
    push_transfer(&mut tokens, Asset::Usdc, l.usdc_amount + l.lending_usdc_amount);
    push_transfer(&mut tokens, Asset::Eth, l.eth_amount + l.lending_eth_amount);
    push_transfer(&mut tokens, Asset::Ust, l.ust_amount + l.lending_ust_amount);
    push_transfer(&mut tokens, Asset::Srm, l.srm_amount + l.lending_srm_amount);
    push_transfer(&mut tokens, Asset::Scnsol, l.scnsol_amount + l.lending_scnsol_amount);
    push_transfer(&mut tokens, Asset::Stsol, l.stsol_amount + l.lending_stsol_amount);
    push_transfer(&mut tokens, Asset::Usdt, l.usdt_amount + l.lending_usdt_amount);
    push_transfer(&mut tokens, Asset::Lpsol, l.lpsol_amount);
    push_transfer(&mut tokens, Asset::Lpbtc, l.lpbtc_amount);
    push_transfer(&mut tokens, Asset::Lpeth, l.lpeth_amount);
    Ok(SwapLiquidation { tokens, lpusd_request: total_request_lpusd, lamports: sol_amount })
}

/// Hands a liquidated position to the swap pool (see
/// `liquidate_swap_with_authority`).
pub fn liquidate_swap(ctx: &LiquidateSwap) -> (r: Result<SwapLiquidation, ErrorCode>)
    requires
        ctx.user_account.total_request_lpusd != 0 ==> holdings_fit(ctx.liquidator),
    ensures
        ctx.user_account.total_request_lpusd == 0 ==> r is Err && r->Err_0 == ErrorCode::InvalidAmount,
        ctx.user_account.total_request_lpusd != 0 && derived_program_key(PREFIX@, ctx.program_id) != Some(
            ctx.state_account,
        ) ==> r is Err && r->Err_0 == ErrorCode::InvalidOwner,
        ctx.user_account.total_request_lpusd != 0 && derived_program_key(PREFIX@, ctx.program_id) == Some(
            ctx.state_account,
        ) ==> {
            &&& r is Ok
            &&& r->Ok_0.tokens@ == swap_transfers(ctx.liquidator)
            &&& r->Ok_0.lpusd_request == ctx.user_account.total_request_lpusd
            &&& r->Ok_0.lamports == ctx.liquidator.sol_amount + ctx.liquidator.lending_sol_amount
        },
{
    let program_authority = find_program_key(PREFIX, &ctx.program_id);
    liquidate_swap_with_authority(ctx, program_authority)
}

/// What `deposit_lpusd` reads and writes.
pub struct DepositLpUSD {
    /// Balance of the user's LpUSD account.
    pub user_lpusd_amount: u64,
    pub config: Config,
    pub user_account: UserStateAccount,
}

/// The shares a deposit of `amount` leaves the user with, at the pool's
/// share value `percent`.
pub open spec fn shares_after_deposit(shares: u64, percent: u64, amount: u64) -> int {
    (shares * percent + amount * DENOMINATOR) / (percent as int)
}

/// A deposit of `amount` computes without overflow or division by zero.
pub open spec fn deposit_fits(u: UserStateAccount, c: Config, amount: u64) -> bool {
    &&& u.temp_amount + amount <= u64::MAX
    &&& u.lpusd_amount * c.total_percent <= u64::MAX
    &&& amount * DENOMINATOR <= u64::MAX
    &&& u.lpusd_amount * c.total_percent + amount * DENOMINATOR <= u64::MAX
    &&& c.total_percent != 0
    &&& c.total_lpusd + amount <= u64::MAX
    &&& c.total_deposited_lpusd + amount <= u64::MAX
}

/// Deposits `amount` LpUSD into the auction pool, credited as shares at the
/// pool's share value. On success the caller moves `amount` from the user
/// to the pool.
pub fn deposit_lpusd(ctx: &mut DepositLpUSD, amount: u64) -> (r: Result<(), ErrorCode>)
    requires
        amount >= 1 && old(ctx).user_lpusd_amount >= amount ==> deposit_fits(old(ctx).user_account, old(ctx).config, amount),
    ensures
        amount < 1 ==> r == Err::<(), ErrorCode>(ErrorCode::InvalidAmount) && *final(ctx) == *old(ctx),
        amount >= 1 && old(ctx).user_lpusd_amount < amount ==> r == Err::<(), ErrorCode>(
            ErrorCode::InsufficientAmount,
        ) && *final(ctx) == *old(ctx),
        amount >= 1 && old(ctx).user_lpusd_amount >= amount ==> r is Ok && *final(ctx) == (DepositLpUSD {
            user_account: UserStateAccount {
                temp_amount: (old(ctx).user_account.temp_amount + amount) as u64,
                lpusd_amount: shares_after_deposit(old(ctx).user_account.lpusd_amount, old(ctx).config.total_percent, amount) as u64,
                ..old(ctx).user_account
            },
            config: Config {
                total_lpusd: (old(ctx).config.total_lpusd + amount) as u64,
                total_deposited_lpusd: (old(ctx).config.total_deposited_lpusd + amount) as u64,
                ..old(ctx).config
            },
            ..*old(ctx)
        }),
{
    if amount < 1 {
        return Err(ErrorCode::InvalidAmount);
    }
    if ctx.user_lpusd_amount < amount {
        return Err(ErrorCode::InsufficientAmount);
    }
    let percent = ctx.config.total_percent;
    ctx.user_account.temp_amount = ctx.user_account.temp_amount + amount;
    ctx.user_account.lpusd_amount = (ctx.user_account.lpusd_amount * percent + amount * DENOMINATOR) / percent;
    ctx.config.total_lpusd = ctx.config.total_lpusd + amount;
    ctx.config.total_deposited_lpusd = ctx.config.total_deposited_lpusd + amount;
    Ok(())
}

/// What `withdraw_lpusd` reads and writes.
pub struct WithdrawLpUSD {
    pub program_id: Pubkey,
    /// Address of the auction's state account.
    pub state_account: Pubkey,
    /// Balance of the auction's LpUSD pool.
    pub pool_lpusd_amount: u64,
    pub config: Config,
    pub user_account: UserStateAccount,
}

/// What the user's shares are worth, in LpUSD.
pub open spec fn withdrawable(u: UserStateAccount, c: Config) -> int {
    u.lpusd_amount * c.total_percent / (DENOMINATOR as int)
}

/// A withdrawal of `amount` computes without overflow or underflow.
pub open spec fn withdraw_fits(u: UserStateAccount, c: Config, amount: u64, pool: u64, authorized: bool) -> bool {
    &&& u.lpusd_amount * c.total_percent <= u64::MAX
    &&& (pool >= amount && amount <= withdrawable(u, c) && authorized ==> c.total_lpusd >= u.lpusd_amount)
}

/// The outcome of a withdrawal of `amount` LpUSD.
pub open spec fn withdraw_result(u: UserStateAccount, c: Config, amount: u64, pool: u64, authorized: bool) -> Result<(), ErrorCode> {
    if amount < 1 {
        Err(ErrorCode::InvalidAmount)
    } else if pool < amount {
        Err(ErrorCode::InsufficientPoolAmount)
    } else if amount > withdrawable(u, c) {
        Err(ErrorCode::ExceedAmount)
    } else if !authorized {
        Err(ErrorCode::InvalidOwner)
    } else {
        Ok(())
    }
}

/// Withdraws `amount` LpUSD from the auction pool, `program_authority` being
/// the auction's derived state address. The pool's total drops by the
/// user's whole share count and the user keeps the shares worth what
/// remains. On success the caller moves `amount` from the pool to the user.
pub fn withdraw_lpusd_with_authority(
    ctx: &mut WithdrawLpUSD,
    amount: u64,
    program_authority: Option<Pubkey>,
) -> (r: Result<(), ErrorCode>)
    requires
        amount >= 1 ==> withdraw_fits(
            old(ctx).user_account,
            old(ctx).config,
            amount,
            old(ctx).pool_lpusd_amount,
            program_authority == Some(old(ctx).state_account),
        ),
    ensures
        ({
            let res = withdraw_result(
                old(ctx).user_account,
                old(ctx).config,
                amount,
                old(ctx).pool_lpusd_amount,
                program_authority == Some(old(ctx).state_account),
            );
            &&& r == res
            &&& res is Err ==> *final(ctx) == *old(ctx)
            &&& res is Ok ==> *final(ctx) == (WithdrawLpUSD {
                config: Config {
                    total_lpusd: (old(ctx).config.total_lpusd - old(ctx).user_account.lpusd_amount) as u64,
                    ..old(ctx).config
                },
                user_account: UserStateAccount {
                    lpusd_amount: ((old(ctx).user_account.lpusd_amount * old(ctx).config.total_percent - amount
                        * DENOMINATOR) / (old(ctx).config.total_percent as int)) as u64,
                    ..old(ctx).user_account
                },
                ..*old(ctx)
            })
        }),
{
    if amount < 1 {
        return Err(ErrorCode::InvalidAmount);
    }
    let shares = ctx.user_account.lpusd_amount;
    let percent = ctx.config.total_percent;
    let total_withdrawable_amount = shares * percent / DENOMINATOR;
    if ctx.pool_lpusd_amount < amount {
        return Err(ErrorCode::InsufficientPoolAmount);
    }
    if amount > total_withdrawable_amount {
        return Err(ErrorCode::ExceedAmount);
    }
    let authorized = match program_authority {
        Some(k) => k.key_eq(&ctx.state_account),
        None => false,
    };
    if !authorized {
        return Err(ErrorCode::InvalidOwner);
    }
    proof {
        vstd::arithmetic::div_mod::lemma_fundamental_div_mod(shares * percent, DENOMINATOR as int);
        if percent == 0 {
            vstd::arithmetic::mul::lemma_mul_by_zero_is_zero(shares as int);
            vstd::arithmetic::mul::lemma_mul_is_commutative(shares as int, percent as int);
        }
    }
    ctx.config.total_lpusd = ctx.config.total_lpusd - shares;
    ctx.user_account.lpusd_amount = (shares * percent - amount * DENOMINATOR) / percent;
    Ok(())
}

/// Withdraws `amount` LpUSD from the auction pool (see
/// `withdraw_lpusd_with_authority`).
pub fn withdraw_lpusd(ctx: &mut WithdrawLpUSD, amount: u64) -> (r: Result<(), ErrorCode>)
    requires
        amount >= 1 ==> withdraw_fits(
            old(ctx).user_account,
            old(ctx).config,
            amount,
            old(ctx).pool_lpusd_amount,
            derived_program_key(PREFIX@, old(ctx).program_id) == Some(old(ctx).state_account),
        ),
    ensures
        ({
            let res = withdraw_result(
                old(ctx).user_account,
                old(ctx).config,
                amount,
                old(ctx).pool_lpusd_amount,
                derived_program_key(PREFIX@, old(ctx).program_id) == Some(old(ctx).state_account),
            );
            &&& r == res
            &&& res is Err ==> *final(ctx) == *old(ctx)
            &&& res is Ok ==> *final(ctx) == (WithdrawLpUSD {
                config: Config {
                    total_lpusd: (old(ctx).config.total_lpusd - old(ctx).user_account.lpusd_amount) as u64,
                    ..old(ctx).config
                },
                user_account: UserStateAccount {
                    lpusd_amount: ((old(ctx).user_account.lpusd_amount * old(ctx).config.total_percent - amount
                        * DENOMINATOR) / (old(ctx).config.total_percent as int)) as u64,
                    ..old(ctx).user_account
                },
                ..*old(ctx)
            })
        }),
{
    let program_authority = find_program_key(PREFIX, &ctx.program_id);
    withdraw_lpusd_with_authority(ctx, amount, program_authority)
}

/// What `initialize` reads: the addresses it records.
pub struct Initialize {
    pub authority: Pubkey,
    pub state_account: Pubkey,
    pub lpusd_mint: Pubkey,
    pub lpsol_mint: Pubkey,
    pub lpbtc_mint: Pubkey,
    pub lpeth_mint: Pubkey,
    pub pool_lpusd: Pubkey,
    pub pool_lpsol: Pubkey,
    pub pool_lpbtc: Pubkey,
    pub pool_lpeth: Pubkey,
}

/// The configuration `initialize` writes into a fresh account.
pub open spec fn initial_config(ctx: Initialize) -> Config {
    Config {
        state_account: ctx.state_account,
        btc_mint: zero_key(),
        usdc_mint: zero_key(),
        msol_mint: zero_key(),
        eth_mint: zero_key(),
        ust_mint: zero_key(),
        srm_mint: zero_key(),
        scnsol_mint: zero_key(),
        stsol_mint: zero_key(),
        usdt_mint: zero_key(),
        lpusd_mint: ctx.lpusd_mint,
        lpsol_mint: ctx.lpsol_mint,
        lpbtc_mint: ctx.lpbtc_mint,
        lpeth_mint: ctx.lpeth_mint,
        pool_btc: zero_key(),
        pool_usdc: zero_key(),
        pool_msol: zero_key(),
        pool_eth: zero_key(),
        pool_ust: zero_key(),
        pool_srm: zero_key(),
        pool_scnsol: zero_key(),
        pool_stsol: zero_key(),
        pool_usdt: zero_key(),
        pool_lpusd: ctx.pool_lpusd,
        pool_lpsol: ctx.pool_lpsol,
        pool_lpbtc: ctx.pool_lpbtc,
        pool_lpeth: ctx.pool_lpeth,
        total_deposited_lpusd: 0,
        total_lpusd: 0,
        total_percent: 0,
        epoch_duration: 0,
        last_epoch_percent: 0,
        last_epoch_profit: 0,
    }
}

/// Sets up the auction: its state account, owned by the authority, and its
/// configuration with the LP mints and pools.
pub fn initialize(ctx: &Initialize) -> (r: (AuctionStateAccount, Config))
    ensures
        r.0 == (AuctionStateAccount { owner: ctx.authority }),
        r.1 == initial_config(*ctx),
{
    let zero = zero_pubkey();
    let config = Config {
        state_account: ctx.state_account,
        btc_mint: zero,
        usdc_mint: zero,
        msol_mint: zero,
        eth_mint: zero,
        ust_mint: zero,
        srm_mint: zero,
        scnsol_mint: zero,
        stsol_mint: zero,
        usdt_mint: zero,
        lpusd_mint: ctx.lpusd_mint,
        lpsol_mint: ctx.lpsol_mint,
        lpbtc_mint: ctx.lpbtc_mint,
        lpeth_mint: ctx.lpeth_mint,
        pool_btc: zero,
        pool_usdc: zero,
        pool_msol: zero,
        pool_eth: zero,
        pool_ust: zero,
        pool_srm: zero,
        pool_scnsol: zero,
        pool_stsol: zero,
        pool_usdt: zero,
        pool_lpusd: ctx.pool_lpusd,
        pool_lpsol: ctx.pool_lpsol,
        pool_lpbtc: ctx.pool_lpbtc,
        pool_lpeth: ctx.pool_lpeth,
        total_deposited_lpusd: 0,
        total_lpusd: 0,
        total_percent: 0,
        epoch_duration: 0,
        last_epoch_percent: 0,
        last_epoch_profit: 0,
    };
    (AuctionStateAccount { owner: ctx.authority }, config)
}

/// What `initialize_pool` reads and writes.
pub struct InitializePool {
    pub authority: Pubkey,
    pub state_account: AuctionStateAccount,
    pub config: Config,
    pub btc_mint: Pubkey,
    pub usdc_mint: Pubkey,
    pub msol_mint: Pubkey,
    pub eth_mint: Pubkey,
    pub ust_mint: Pubkey,
    pub srm_mint: Pubkey,
    pub scnsol_mint: Pubkey,
    pub stsol_mint: Pubkey,
    pub usdt_mint: Pubkey,
    pub pool_btc: Pubkey,
    pub pool_usdc: Pubkey,
    pub pool_msol: Pubkey,
    pub pool_eth: Pubkey,
    pub pool_ust: Pubkey,
    pub pool_srm: Pubkey,
    pub pool_scnsol: Pubkey,
    pub pool_stsol: Pubkey,
    pub pool_usdt: Pubkey,
}

/// The configuration with the collateral mints and pools recorded and the
/// pool's accounting reset, its share value at one hundred percent.
pub open spec fn pooled_config(ctx: InitializePool) -> Config {
    Config {
        btc_mint: ctx.btc_mint,
        usdc_mint: ctx.usdc_mint,
        msol_mint: ctx.msol_mint,
        eth_mint: ctx.eth_mint,
        ust_mint: ctx.ust_mint,
        srm_mint: ctx.srm_mint,
        scnsol_mint: ctx.scnsol_mint,
        stsol_mint: ctx.stsol_mint,
        usdt_mint: ctx.usdt_mint,
        pool_btc: ctx.pool_btc,
        pool_usdc: ctx.pool_usdc,
        pool_msol: ctx.pool_msol,
        pool_eth: ctx.pool_eth,
        pool_ust: ctx.pool_ust,
        pool_srm: ctx.pool_srm,
        pool_scnsol: ctx.pool_scnsol,
        pool_stsol: ctx.pool_stsol,
        pool_usdt: ctx.pool_usdt,
        total_percent: 100,
        total_lpusd: 0,
        epoch_duration: 0,
        total_deposited_lpusd: 0,
        last_epoch_percent: 0,
        last_epoch_profit: 0,
        ..ctx.config
    }
}

/// Records the collateral mints and pools and resets the pool's accounting;
/// only the auction's owner may.
pub fn initialize_pool(ctx: &mut InitializePool) -> (r: Result<(), ErrorCode>)
    ensures
        old(ctx).state_account.owner != old(ctx).authority ==> r == Err::<(), ErrorCode>(ErrorCode::InvalidOwner)
            && *final(ctx) == *old(ctx),
        old(ctx).state_account.owner == old(ctx).authority ==> r is Ok && *final(ctx) == (InitializePool {
            config: pooled_config(*old(ctx)),
            ..*old(ctx)
        }),
{
    if !ctx.state_account.owner.key_eq(&ctx.authority) {
        return Err(ErrorCode::InvalidOwner);
    }
    ctx.config = Config {
        btc_mint: ctx.btc_mint,
        usdc_mint: ctx.usdc_mint,
        msol_mint: ctx.msol_mint,
        eth_mint: ctx.eth_mint,
        ust_mint: ctx.ust_mint,
        srm_mint: ctx.srm_mint,
        scnsol_mint: ctx.scnsol_mint,
        stsol_mint: ctx.stsol_mint,
        usdt_mint: ctx.usdt_mint,
        pool_btc: ctx.pool_btc,
        pool_usdc: ctx.pool_usdc,
        pool_msol: ctx.pool_msol,
        pool_eth: ctx.pool_eth,
        pool_ust: ctx.pool_ust,
        pool_srm: ctx.pool_srm,
        pool_scnsol: ctx.pool_scnsol,
        pool_stsol: ctx.pool_stsol,
        pool_usdt: ctx.pool_usdt,
        total_percent: 100,
        total_lpusd: 0,
        epoch_duration: 0,
        total_deposited_lpusd: 0,
        last_epoch_percent: 0,
        last_epoch_profit: 0,
        ..ctx.config
    };
    Ok(())
}

/// What `init_user_account` reads.
pub struct InitUserAccount {
    pub user_authority: Pubkey,
}

/// Opens an empty depositor account for the signing user.
pub fn init_user_account(ctx: &InitUserAccount) -> (u: UserStateAccount)
    ensures
        u == (UserStateAccount { lpusd_amount: 0, owner: ctx.user_authority, temp_amount: 0, total_request_lpusd: 0 }),
{
    UserStateAccount { lpusd_amount: 0, owner: ctx.user_authority, temp_amount: 0, total_request_lpusd: 0 }
}

/// A deposit never credits the user with shares worth more than its shares
/// were worth plus the amount deposited.
pub proof fn deposit_credits_at_most_amount(u: UserStateAccount, c: Config, amount: u64)
    requires
        deposit_fits(u, c, amount),
    ensures
        withdrawable(
            UserStateAccount {
                lpusd_amount: shares_after_deposit(u.lpusd_amount, c.total_percent, amount) as u64,
                ..u
            },
            c,
        ) <= withdrawable(u, c) + amount,
{
    let pct = c.total_percent as int;
    let d = DENOMINATOR as int;
    let x = u.lpusd_amount * pct + amount * d;
    let s1 = x / pct;
    vstd::arithmetic::div_mod::lemma_fundamental_div_mod(x, pct);
    vstd::arithmetic::div_mod::lemma_mod_pos_bound(x, pct);
    assert(0 <= s1 <= x && s1 * pct <= x) by (nonlinear_arith)
        requires
            x == pct * s1 + x % pct,
            0 <= x % pct,
            0 <= x,
            1 <= pct,
    ;
    assert((s1 as u64) == s1);
    vstd::arithmetic::div_mod::lemma_div_is_ordered(s1 * pct, x, d);
    vstd::arithmetic::div_mod::lemma_hoist_over_denominator(u.lpusd_amount * pct, amount as int, DENOMINATOR as nat);
    vstd::arithmetic::mul::lemma_mul_is_commutative(amount as int, d);
}

/// A withdrawal leaves the user shares worth at most what its shares were
/// worth less the amount withdrawn.
pub proof fn withdrawal_leaves_at_most_rest(u: UserStateAccount, c: Config, amount: u64, pool: u64, authorized: bool)
    requires
        withdraw_fits(u, c, amount, pool, authorized),
        withdraw_result(u, c, amount, pool, authorized) is Ok,
    ensures
        withdrawable(
            UserStateAccount {
                lpusd_amount: ((u.lpusd_amount * c.total_percent - amount * DENOMINATOR) / (c.total_percent as int))
                    as u64,
                ..u
            },
            c,
        ) <= withdrawable(u, c) - amount,
{
    let pct = c.total_percent as int;
    let d = DENOMINATOR as int;
    let whole = u.lpusd_amount * pct;
    vstd::arithmetic::div_mod::lemma_fundamental_div_mod(whole, d);
    vstd::arithmetic::div_mod::lemma_mod_pos_bound(whole, d);
    if pct == 0 {
        vstd::arithmetic::mul::lemma_mul_by_zero_is_zero(u.lpusd_amount as int);
        vstd::arithmetic::mul::lemma_mul_is_commutative(u.lpusd_amount as int, pct);
    } else {
        let x = whole - amount * d;
        assert(x >= 0);
        let s1 = x / pct;
        vstd::arithmetic::div_mod::lemma_fundamental_div_mod(x, pct);
        vstd::arithmetic::div_mod::lemma_mod_pos_bound(x, pct);
        assert(0 <= s1 <= x && s1 * pct <= x) by (nonlinear_arith)
            requires
                x == pct * s1 + x % pct,
                0 <= x % pct,
                0 <= x,
                1 <= pct,
        ;
        assert((s1 as u64) == s1);
        vstd::arithmetic::div_mod::lemma_div_is_ordered(s1 * pct, x, d);
        vstd::arithmetic::div_mod::lemma_hoist_over_denominator(x, amount as int, DENOMINATOR as nat);
        vstd::arithmetic::mul::lemma_mul_is_commutative(amount as int, d);
    }
}

/// A liquidation that goes through adds its profit (truncated to 64 bits, as
/// the program stores it) to the pool, never
/// lowers the value of the pool's shares (where the new share value fits in
/// 64 bits, as the program stores it), and records the LpUSD that the swap
/// liquidation later requests, which is not zero.
pub proof fn liquidation_grows_pool(
    pre: Liquidate,
    post: Liquidate,
    p: Prices,
    authorized: bool,
    r: Result<(), ErrorCode>,
)
    requires
        liquidate_fits(pre.liquidator, pre.config, p, pre.auction_lpusd_amount, authorized),
        liquidate_done(pre, post, p, authorized, r),
        r is Ok,
        pre.config.total_percent * pool_after_profit(pre.config, pre.liquidator, p) / (pre.config.total_lpusd as int)
            <= u64::MAX,
    ensures
        liquidation_profit(pre.liquidator, p) >= 0,
        post.config.total_lpusd == pre.config.total_lpusd + (liquidation_profit(pre.liquidator, p) as u64),
        post.config.last_epoch_profit == liquidation_profit(pre.liquidator, p) as u64,
        post.config.total_percent >= pre.config.total_percent,
        post.user_account.total_request_lpusd == request_amount(pre.liquidator, p),
        post.user_account.total_request_lpusd != 0,
{
    let l = pre.liquidator;
    let c = pre.config;
    let profit = liquidation_profit(l, p);
    vstd::arithmetic::div_mod::lemma_div_pos_is_pos(position_value(l, p) - debt_value(l, p), p.usdc as int);
    vstd::arithmetic::div_mod::lemma_div_is_ordered_by_denominator(position_value(l, p) - debt_value(l, p), 1, p.usdc as int);
    let total = pool_after_profit(c, l, p);
    let pct = c.total_percent as int;
    let lp = c.total_lpusd as int;
    assert(pct * total >= pct * lp) by (nonlinear_arith)
        requires
            total >= lp,
            pct >= 0,
    ;
    vstd::arithmetic::div_mod::lemma_div_is_ordered(pct * lp, pct * total, lp);
    vstd::arithmetic::div_mod::lemma_div_multiples_vanish(pct, lp);
    vstd::arithmetic::mul::lemma_mul_is_commutative(pct, lp);
}

/// The amount of a token `liquidate_swap` hands over: the direct and lending
/// balances together.
pub open spec fn handed_over(l: Liquidator, a: Asset) -> u64 {
    match a {
        Asset::Btc => (l.btc_amount + l.lending_btc_amount) as u64,
        Asset::Msol => (l.msol_amount + l.lending_msol_amount) as u64,
        Asset::Usdc => (l.usdc_amount + l.lending_usdc_amount) as u64,
        Asset::Eth => (l.eth_amount + l.lending_eth_amount) as u64,
        Asset::Ust => (l.ust_amount + l.lending_ust_amount) as u64,
        Asset::Srm => (l.srm_amount + l.lending_srm_amount) as u64,
        Asset::Scnsol => (l.scnsol_amount + l.lending_scnsol_amount) as u64,
        Asset::Stsol => (l.stsol_amount + l.lending_stsol_amount) as u64,
        Asset::Usdt => (l.usdt_amount + l.lending_usdt_amount) as u64,
        Asset::Lpsol => l.lpsol_amount,
        Asset::Lpbtc => l.lpbtc_amount,
        Asset::Lpeth => l.lpeth_amount,
    }
}

/// `s` lists, once each and with the amount handed over, exactly the assets
/// of `done` that the position holds some of.
pub open spec fn lists_holdings(l: Liquidator, s: Seq<(Asset, u64)>, done: Set<Asset>) -> bool {
    &&& forall|i: int| 0 <= i < s.len() ==> {
        &&& s[i].1 == handed_over(l, s[i].0)
        &&& s[i].1 > 0
        &&& done.contains(s[i].0)
    }
    &&& forall|i: int, j: int| 0 <= i < j < s.len() ==> s[i].0 != s[j].0
    &&& forall|a: Asset| done.contains(a) && handed_over(l, a) > 0 ==> exists|i: int| 0 <= i < s.len() && s[i].0 == a
}

/// Appending a further asset's holding keeps the list exact.
proof fn lemma_push_holding(l: Liquidator, s: Seq<(Asset, u64)>, done: Set<Asset>, a: Asset)
    requires
        lists_holdings(l, s, done),
        !done.contains(a),
    ensures
        lists_holdings(l, push_nonzero(s, a, handed_over(l, a)), done.insert(a)),
{
    let s1 = push_nonzero(s, a, handed_over(l, a));
    let done1 = done.insert(a);
    assert forall|b: Asset| done1.contains(b) && handed_over(l, b) > 0 implies exists|i: int|
        0 <= i < s1.len() && s1[i].0 == b by {
        if b == a {
            assert(s1[s.len() as int].0 == b);
        } else {
            let i = choose|i: int| 0 <= i < s.len() && s[i].0 == b;
            assert(s1[i].0 == b);
        }
    }
}

/// A swap liquidation hands over every token of the position, once, with
/// its direct and lending balances together, and nothing else.
pub proof fn swap_hands_over_holdings(l: Liquidator)
    ensures
        ({
            let s = swap_transfers(l);
            &&& forall|i: int| 0 <= i < s.len() ==> s[i].1 == handed_over(l, s[i].0) && s[i].1 > 0
            &&& forall|i: int, j: int| 0 <= i < j < s.len() ==> s[i].0 != s[j].0
            &&& forall|a: Asset| handed_over(l, a) > 0 ==> exists|i: int| 0 <= i < s.len() && s[i].0 == a
        }),
{
    let s0 = Seq::<(Asset, u64)>::empty();
    let d0 = Set::<Asset>::empty();
    let s1 = push_nonzero(s0, Asset::Btc, handed_over(l, Asset::Btc));
    let d1 = d0.insert(Asset::Btc);
    lemma_push_holding(l, s0, d0, Asset::Btc);
    let s2 = push_nonzero(s1, Asset::Msol, handed_over(l, Asset::Msol));
    let d2 = d1.insert(Asset::Msol);
    lemma_push_holding(l, s1, d1, Asset::Msol);
    let s3 = push_nonzero(s2, Asset::Usdc, handed_over(l, Asset::Usdc));
    let d3 = d2.insert(Asset::Usdc);
    lemma_push_holding(l, s2, d2, Asset::Usdc);
    let s4 = push_nonzero(s3, Asset::Eth, handed_over(l, Asset::Eth));
    let d4 = d3.insert(Asset::Eth);
    lemma_push_holding(l, s3, d3, Asset::Eth);
    let s5 = push_nonzero(s4, Asset::Ust, handed_over(l, Asset::Ust));
    let d5 = d4.insert(Asset::Ust);
    lemma_push_holding(l, s4, d4, Asset::Ust);
    let s6 = push_nonzero(s5, Asset::Srm, handed_over(l, Asset::Srm));
    let d6 = d5.insert(Asset::Srm);
    lemma_push_holding(l, s5, d5, Asset::Srm);
    let s7 = push_nonzero(s6, Asset::Scnsol, handed_over(l, Asset::Scnsol));
    let d7 = d6.insert(Asset::Scnsol);
    lemma_push_holding(l, s6, d6, Asset::Scnsol);
    let s8 = push_nonzero(s7, Asset::Stsol, handed_over(l, Asset::Stsol));
    let d8 = d7.insert(Asset::Stsol);
    lemma_push_holding(l, s7, d7, Asset::Stsol);
    let s9 = push_nonzero(s8, Asset::Usdt, handed_over(l, Asset::Usdt));
    let d9 = d8.insert(Asset::Usdt);
    lemma_push_holding(l, s8, d8, Asset::Usdt);
    let s10 = push_nonzero(s9, Asset::Lpsol, handed_over(l, Asset::Lpsol));
    let d10 = d9.insert(Asset::Lpsol);
    lemma_push_holding(l, s9, d9, Asset::Lpsol);
    let s11 = push_nonzero(s10, Asset::Lpbtc, handed_over(l, Asset::Lpbtc));
    let d11 = d10.insert(Asset::Lpbtc);
    lemma_push_holding(l, s10, d10, Asset::Lpbtc);
    let s12 = push_nonzero(s11, Asset::Lpeth, handed_over(l, Asset::Lpeth));
    let d12 = d11.insert(Asset::Lpeth);
    lemma_push_holding(l, s11, d11, Asset::Lpeth);
    assert(s12 == swap_transfers(l));
    assert forall|a: Asset| d12.contains(a) by {
        match a {
            Asset::Btc => {},
            Asset::Msol => {},
            Asset::Usdc => {},
            Asset::Eth => {},
            Asset::Ust => {},
            Asset::Srm => {},
            Asset::Scnsol => {},
            Asset::Stsol => {},
            Asset::Usdt => {},
            Asset::Lpsol => {},
            Asset::Lpbtc => {},
            Asset::Lpeth => {},
        }
    }
    assert forall|a: Asset| handed_over(l, a) > 0 implies exists|i: int| 0 <= i < s12.len() && s12[i].0 == a by {
        assert(d12.contains(a));
    }
}

/// `deposit_fits`, computed.
pub fn check_deposit_fits(u: &UserStateAccount, c: &Config, amount: u64) -> (r: bool)
    ensures
        r == deposit_fits(*u, *c, amount),
{
    let held = match u.lpusd_amount.checked_mul(c.total_percent) {
        None => return false,
        Some(x) => x,
    };
    let added = match amount.checked_mul(DENOMINATOR) {
        None => return false,
        Some(x) => x,
    };
    u.temp_amount.checked_add(amount).is_some() && held.checked_add(added).is_some() && c.total_percent != 0
        && c.total_lpusd.checked_add(amount).is_some() && c.total_deposited_lpusd.checked_add(amount).is_some()
}

/// Whether `withdraw_lpusd` computes without overflow or underflow (see
/// `withdraw_fits`), its authority derived as `withdraw_lpusd` derives it.
pub fn check_withdraw_lpusd_fits(ctx: &WithdrawLpUSD, amount: u64) -> (r: bool)
    ensures
        r == withdraw_fits(
            ctx.user_account,
            ctx.config,
            amount,
            ctx.pool_lpusd_amount,
            derived_program_key(PREFIX@, ctx.program_id) == Some(ctx.state_account),
        ),
{
    let authorized = match find_program_key(PREFIX, &ctx.program_id) {
        Some(k) => k.key_eq(&ctx.state_account),
        None => false,
    };
    let held = match ctx.user_account.lpusd_amount.checked_mul(ctx.config.total_percent) {
        None => return false,
        Some(x) => x,
    };
    if ctx.pool_lpusd_amount < amount || amount > held / DENOMINATOR || !authorized {
        return true;
    }
    ctx.config.total_lpusd >= ctx.user_account.lpusd_amount
}

/// A non-negative aggregate price is read as it is reported.
pub proof fn nonnegative_prices_read_as_reported(agg: i64)
    requires
        0 <= agg,
    ensures
        price_of_aggregate(agg) == agg,
{
}

/// A liquidation prices each asset at the aggregate price of that asset's
/// own Pyth account.
pub proof fn liquidation_prices_come_from_their_accounts(ctx: Liquidate)
    requires
        0 <= ctx.pyth_btc_account.agg_price,
        0 <= ctx.pyth_sol_account.agg_price,
        0 <= ctx.pyth_usdc_account.agg_price,
        0 <= ctx.pyth_msol_account.agg_price,
        0 <= ctx.pyth_eth_account.agg_price,
        0 <= ctx.pyth_ust_account.agg_price,
        0 <= ctx.pyth_srm_account.agg_price,
        0 <= ctx.pyth_scnsol_account.agg_price,
        0 <= ctx.pyth_stsol_account.agg_price,
        0 <= ctx.pyth_usdt_account.agg_price,
    ensures
        liquidation_prices(ctx).btc == ctx.pyth_btc_account.agg_price,
        liquidation_prices(ctx).sol == ctx.pyth_sol_account.agg_price,
        liquidation_prices(ctx).usdc == ctx.pyth_usdc_account.agg_price,
        liquidation_prices(ctx).msol == ctx.pyth_msol_account.agg_price,
        liquidation_prices(ctx).eth == ctx.pyth_eth_account.agg_price,
        liquidation_prices(ctx).ust == ctx.pyth_ust_account.agg_price,
        liquidation_prices(ctx).srm == ctx.pyth_srm_account.agg_price,
        liquidation_prices(ctx).scnsol == ctx.pyth_scnsol_account.agg_price,
        liquidation_prices(ctx).stsol == ctx.pyth_stsol_account.agg_price,
        liquidation_prices(ctx).usdt == ctx.pyth_usdt_account.agg_price,
{
}

/// The LpUSD a borrowed amount `b` converts to is its value at `price`
/// expressed in LpUSD, rounded down: that many LpUSD are worth at most the
/// debt, one more would be worth more (where the amount fits in 64 bits).
pub proof fn lp_debt_converts_at_its_value(p: Prices, price: u128, b: u64)
    requires
        p.usdc > 0,
        price * b / (p.usdc as int) <= u64::MAX,
    ensures
        converted(p, price, b) * p.usdc <= price * b,
        price * b < (converted(p, price, b) + 1) * p.usdc,
{
    let v = price * b;
    let d = p.usdc as int;
    vstd::arithmetic::mul::lemma_mul_nonnegative(price as int, b as int);
    vstd::arithmetic::div_mod::lemma_fundamental_div_mod(v, d);
    vstd::arithmetic::div_mod::lemma_mod_pos_bound(v, d);
    vstd::arithmetic::div_mod::lemma_div_pos_is_pos(v, d);
    let q = v / d;
    assert(converted(p, price, b) == q);
    assert(q * d <= v && v < (q + 1) * d) by (nonlinear_arith)
        requires
            v == d * q + v % d,
            0 <= v % d < d,
    ;
}

/// The LpUSD a liquidation counts for the swap is the position's own LpUSD
/// plus each LP debt converted to LpUSD at the SOL price, rounded down; the
/// LpUSD it requests is the position's value less that, in LpUSD (where
/// each converted debt fits in 64 bits).
pub proof fn liquidation_counts_lp_debts_in_lpusd(l: Liquidator, p: Prices)
    requires
        p.usdc > 0,
        p.sol * l.borrowed_lpsol / (p.usdc as int) <= u64::MAX,
        p.sol * l.borrowed_lpbtc / (p.usdc as int) <= u64::MAX,
        p.sol * l.borrowed_lpeth / (p.usdc as int) <= u64::MAX,
    ensures
        lpusd_for_swap(l, p) == l.lpusd_amount + p.sol * l.borrowed_lpsol / (p.usdc as int) + p.sol
            * l.borrowed_lpbtc / (p.usdc as int) + p.sol * l.borrowed_lpeth / (p.usdc as int),
        request_amount(l, p) == ((position_value(l, p) - p.usdc * (l.lpusd_amount + p.sol * l.borrowed_lpsol
            / (p.usdc as int) + p.sol * l.borrowed_lpbtc / (p.usdc as int) + p.sol * l.borrowed_lpeth
            / (p.usdc as int))) / (p.usdc as int)) as u64,
{
    lemma_conversion_term_is_quotient(p, p.sol, l.borrowed_lpsol);
    lemma_conversion_term_is_quotient(p, p.sol, l.borrowed_lpbtc);
    lemma_conversion_term_is_quotient(p, p.sol, l.borrowed_lpeth);
}

/// `conversion_term` is the plain quotient where it fits in 64 bits.
proof fn lemma_conversion_term_is_quotient(p: Prices, price: u128, b: u64)
    requires
        p.usdc > 0,
        price * b / (p.usdc as int) <= u64::MAX,
    ensures
        conversion_term(p, price, b) == price * b / (p.usdc as int),
{
    vstd::arithmetic::mul::lemma_mul_nonnegative(price as int, b as int);
    vstd::arithmetic::div_mod::lemma_div_pos_is_pos(price * b, p.usdc as int);
    if b == 0 {
        vstd::arithmetic::mul::lemma_mul_by_zero_is_zero(price as int);
        vstd::arithmetic::div_mod::lemma_div_of0(p.usdc as int);
    }
}

/// Each holding of a position counts at its asset's price, direct and
/// lending balances together and LP tokens at their underlying asset's
/// price: changing one balance changes the position's value by that price
/// times the change.
pub proof fn holdings_count_at_their_price(l: Liquidator, p: Prices, v: u64)
    ensures
        position_value(Liquidator { sol_amount: v, ..l }, p) == position_value(l, p) + p.sol * (v + l.lending_sol_amount) - p.sol * (l.sol_amount + l.lending_sol_amount),
        position_value(Liquidator { lending_sol_amount: v, ..l }, p) == position_value(l, p) + p.sol * (l.sol_amount + v) - p.sol * (l.sol_amount + l.lending_sol_amount),
        position_value(Liquidator { btc_amount: v, ..l }, p) == position_value(l, p) + p.btc * (v + l.lending_btc_amount) - p.btc * (l.btc_amount + l.lending_btc_amount),
        position_value(Liquidator { lending_btc_amount: v, ..l }, p) == position_value(l, p) + p.btc * (l.btc_amount + v) - p.btc * (l.btc_amount + l.lending_btc_amount),
        position_value(Liquidator { usdc_amount: v, ..l }, p) == position_value(l, p) + p.usdc * (v + l.lending_usdc_amount) - p.usdc * (l.usdc_amount + l.lending_usdc_amount),
        position_value(Liquidator { lending_usdc_amount: v, ..l }, p) == position_value(l, p) + p.usdc * (l.usdc_amount + v) - p.usdc * (l.usdc_amount + l.lending_usdc_amount),
        position_value(Liquidator { eth_amount: v, ..l }, p) == position_value(l, p) + p.eth * (v + l.lending_eth_amount) - p.eth * (l.eth_amount + l.lending_eth_amount),
        position_value(Liquidator { lending_eth_amount: v, ..l }, p) == position_value(l, p) + p.eth * (l.eth_amount + v) - p.eth * (l.eth_amount + l.lending_eth_amount),
        position_value(Liquidator { msol_amount: v, ..l }, p) == position_value(l, p) + p.msol * (v + l.lending_msol_amount) - p.msol * (l.msol_amount + l.lending_msol_amount),
        position_value(Liquidator { lending_msol_amount: v, ..l }, p) == position_value(l, p) + p.msol * (l.msol_amount + v) - p.msol * (l.msol_amount + l.lending_msol_amount),
        position_value(Liquidator { ust_amount: v, ..l }, p) == position_value(l, p) + p.ust * (v + l.lending_ust_amount) - p.ust * (l.ust_amount + l.lending_ust_amount),
        position_value(Liquidator { lending_ust_amount: v, ..l }, p) == position_value(l, p) + p.ust * (l.ust_amount + v) - p.ust * (l.ust_amount + l.lending_ust_amount),
        position_value(Liquidator { srm_amount: v, ..l }, p) == position_value(l, p) + p.srm * (v + l.lending_srm_amount) - p.srm * (l.srm_amount + l.lending_srm_amount),
        position_value(Liquidator { lending_srm_amount: v, ..l }, p) == position_value(l, p) + p.srm * (l.srm_amount + v) - p.srm * (l.srm_amount + l.lending_srm_amount),
        position_value(Liquidator { scnsol_amount: v, ..l }, p) == position_value(l, p) + p.scnsol * (v + l.lending_scnsol_amount) - p.scnsol * (l.scnsol_amount + l.lending_scnsol_amount),
        position_value(Liquidator { lending_scnsol_amount: v, ..l }, p) == position_value(l, p) + p.scnsol * (l.scnsol_amount + v) - p.scnsol * (l.scnsol_amount + l.lending_scnsol_amount),
        position_value(Liquidator { stsol_amount: v, ..l }, p) == position_value(l, p) + p.stsol * (v + l.lending_stsol_amount) - p.stsol * (l.stsol_amount + l.lending_stsol_amount),
        position_value(Liquidator { lending_stsol_amount: v, ..l }, p) == position_value(l, p) + p.stsol * (l.stsol_amount + v) - p.stsol * (l.stsol_amount + l.lending_stsol_amount),
        position_value(Liquidator { usdt_amount: v, ..l }, p) == position_value(l, p) + p.usdt * (v + l.lending_usdt_amount) - p.usdt * (l.usdt_amount + l.lending_usdt_amount),
        position_value(Liquidator { lending_usdt_amount: v, ..l }, p) == position_value(l, p) + p.usdt * (l.usdt_amount + v) - p.usdt * (l.usdt_amount + l.lending_usdt_amount),
        position_value(Liquidator { lpsol_amount: v, ..l }, p) == position_value(l, p) + p.sol * v - p.sol * l.lpsol_amount,
        position_value(Liquidator { lpbtc_amount: v, ..l }, p) == position_value(l, p) + p.btc * v - p.btc * l.lpbtc_amount,
        position_value(Liquidator { lpeth_amount: v, ..l }, p) == position_value(l, p) + p.eth * v - p.eth * l.lpeth_amount,
        position_value(Liquidator { lpusd_amount: v, ..l }, p) == position_value(l, p) + p.usdc * v - p.usdc * l.lpusd_amount,
{
}

/// Each LP debt counts at its underlying asset's price.
pub proof fn debts_count_at_their_price(l: Liquidator, p: Prices, v: u64)
    ensures
        debt_value(Liquidator { borrowed_lpusd: v, ..l }, p) == debt_value(l, p) + v * p.usdc - l.borrowed_lpusd * p.usdc,
        debt_value(Liquidator { borrowed_lpsol: v, ..l }, p) == debt_value(l, p) + v * p.sol - l.borrowed_lpsol * p.sol,
        debt_value(Liquidator { borrowed_lpbtc: v, ..l }, p) == debt_value(l, p) + v * p.btc - l.borrowed_lpbtc * p.btc,
        debt_value(Liquidator { borrowed_lpeth: v, ..l }, p) == debt_value(l, p) + v * p.eth - l.borrowed_lpeth * p.eth,
{
}

/// A deposit buys, at the pool's share value, the shares that the user's
/// current shares plus the amount are worth, rounded down.
pub proof fn auction_deposit_shares_round_down(shares: u64, percent: u64, amount: u64)
    requires
        percent != 0,
    ensures
        shares_after_deposit(shares, percent, amount) * percent <= shares * percent + amount * DENOMINATOR,
        shares * percent + amount * DENOMINATOR < (shares_after_deposit(shares, percent, amount) + 1) * percent,
{
    vstd::arithmetic::mul::lemma_mul_nonnegative(shares as int, percent as int);
    crate::value::lemma_quotient_rounds_down(shares * percent + amount * DENOMINATOR, percent as int);
}

/// A depositor can withdraw its shares times the pool's share value,
/// rounded down.
pub proof fn withdrawable_rounds_down(u: UserStateAccount, c: Config)
    ensures
        withdrawable(u, c) * DENOMINATOR <= u.lpusd_amount * c.total_percent,
        u.lpusd_amount * c.total_percent < (withdrawable(u, c) + 1) * DENOMINATOR,
{
    vstd::arithmetic::mul::lemma_mul_nonnegative(u.lpusd_amount as int, c.total_percent as int);
    crate::value::lemma_quotient_rounds_down(u.lpusd_amount * c.total_percent, DENOMINATOR as int);
}

} // verus!
