//! The collateralised borrowing protocol: users deposit SOL and tokens as
//! collateral and borrow LP tokens against it up to a loan-to-value limit.
use vstd::prelude::*;
use crate::pubkey::{Pubkey, list_contains, zero_key, zero_pubkey};
use crate::pda::{derived_program_key, find_program_key};
use crate::oracle::PythPrice;
use crate::value::{accumulate, checked_accumulate, lemma_terms_nonnegative};

verus! {

/// Loan-to-value limit, in percent.
pub const LTV: u128 = 85;
/// Denominator of `LTV`.
pub const DOMINATOR: u128 = 100;
/// Seed of the program's state account.
pub const PREFIX: &'static str = "cbsprotocol2";

/// The program's state account.
#[derive(Clone, Copy, Debug)]
pub struct StateAccount {
    pub owner: Pubkey,
    pub liquidation_run: bool,
}

/// The protocol configuration: the mints it accepts, its pools and totals.
#[derive(Clone, Copy, Debug)]
pub struct Config {
    pub state_account: Pubkey,

    pub total_borrowed_lpusd: u64,
    pub total_borrowed_lpsol: u64,
    pub total_borrowed_lpbtc: u64,
    pub total_borrowed_lpeth: u64,

    pub total_deposited_sol: u64,
    pub total_deposited_usdc: u64,
    pub total_deposited_btc: u64,
    pub total_deposited_eth: u64,
    pub total_deposited_msol: u64,
    pub total_deposited_ust: u64,
    pub total_deposited_srm: u64,
    pub total_deposited_scnsol: u64,
    pub total_deposited_stsol: u64,
    pub total_deposited_usdt: u64,
    pub total_deposited_lpsol: u64,
    pub total_deposited_lpusd: u64,
    pub total_deposited_lpbtc: u64,
    pub total_deposited_lpeth: u64,

    pub lpsol_mint: Pubkey,
    pub lpusd_mint: Pubkey,
    pub lpbtc_mint: Pubkey,
    pub lpeth_mint: Pubkey,
    pub btc_mint: Pubkey,
    pub eth_mint: Pubkey,
    pub usdc_mint: Pubkey,
    pub msol_mint: Pubkey,
    pub ust_mint: Pubkey,
    pub srm_mint: Pubkey,
    pub scnsol_mint: Pubkey,
    pub stsol_mint: Pubkey,
    pub usdt_mint: Pubkey,

    pub pool_btc: Pubkey,
    pub pool_usdc: Pubkey,
    pub pool_msol: Pubkey,
    pub pool_eth: Pubkey,
    pub pool_ust: Pubkey,
    pub pool_srm: Pubkey,
    pub pool_scnsol: Pubkey,
    pub pool_stsol: Pubkey,
    pub pool_usdt: Pubkey,
    pub pool_lpsol: Pubkey,
    pub pool_lpusd: Pubkey,
    pub pool_lpbtc: Pubkey,
    pub pool_lpeth: Pubkey,
}

/// A user's position: what it deposited and what it borrowed.
#[derive(Clone, Copy, Debug)]
pub struct UserAccount {
    pub borrowed_lpusd: u64,
    pub borrowed_lpsol: u64,
    pub borrowed_lpbtc: u64,
    pub borrowed_lpeth: u64,

    pub btc_amount: u64,
    pub sol_amount: u64,
    pub usdc_amount: u64,
    pub eth_amount: u64,
    pub msol_amount: u64,
    pub ust_amount: u64,
    pub srm_amount: u64,
    pub scnsol_amount: u64,
    pub stsol_amount: u64,
    pub usdt_amount: u64,

    pub lpsol_amount: u64,
    pub lpusd_amount: u64,
    pub lpeth_amount: u64,
    pub lpbtc_amount: u64,
    pub owner: Pubkey,
    pub bump: u8,
}

/// Why an instruction is refused.
#[derive(Clone, Copy, Debug, PartialEq, Eq, Structural)]
pub enum ErrorCode {
    InsufficientAmount,
    BorrowFailed,
    BorrowExceed,
    InvalidAmount,
    InvalidToken,
    InvalidOwner,
}

/// Oracle prices of the collateral assets; an LP token is priced as its
/// underlying asset.
#[derive(Clone, Copy, Debug)]
pub struct Prices {
    pub btc: u128,
    pub sol: u128,
    pub usdc: u128,
    pub msol: u128,
    pub eth: u128,
    pub ust: u128,
    pub srm: u128,
    pub scnsol: u128,
    pub stsol: u128,
    pub usdt: u128,
}

/// Value of everything a user deposited, at the given prices.
pub open spec fn collateral_value(u: UserAccount, p: Prices) -> int {
    p.btc * u.btc_amount + p.sol * u.sol_amount + p.usdc * u.usdc_amount
        + p.msol * u.msol_amount + p.eth * u.eth_amount + p.ust * u.ust_amount
        + p.srm * u.srm_amount + p.scnsol * u.scnsol_amount + p.stsol * u.stsol_amount
        + p.usdt * u.usdt_amount + p.usdc * u.lpusd_amount + p.sol * u.lpsol_amount
        + p.btc * u.lpbtc_amount + p.eth * u.lpeth_amount
}

/// Value of everything a user borrowed, at the given prices.
pub open spec fn borrowed_value(u: UserAccount, p: Prices) -> int {
    p.usdc * u.borrowed_lpusd + p.sol * u.borrowed_lpsol + p.btc * u.borrowed_lpbtc
        + p.eth * u.borrowed_lpeth
}

/// The price a Pyth aggregate price stands for: the signed value cast to
/// `u128` as the program casts it.
pub open spec fn price_of_aggregate(agg: i64) -> u128 {
    agg as u128
}

/// Reads the aggregate price out of a Pyth price account.
pub fn get_price(pyth_account: &PythPrice) -> (price: u128)
    ensures
        price == price_of_aggregate(pyth_account.agg_price),
{
    pyth_account.agg_price as u128
}

/// `x + amount` where `hit` holds, else `x`.
#[verifier::opaque]
pub open spec fn credit(x: u64, hit: bool, amount: u64) -> u64 {
    if hit { (x + amount) as u64 } else { x }
}

/// The user's position after depositing `amount` of the token `mint`: every
/// collateral whose configured mint is `mint` grows by `amount`.
pub open spec fn deposited_user(u: UserAccount, c: Config, mint: Pubkey, amount: u64) -> UserAccount {
    UserAccount {
        btc_amount: credit(u.btc_amount, mint == c.btc_mint, amount),
        usdc_amount: credit(u.usdc_amount, mint == c.usdc_mint, amount),
        msol_amount: credit(u.msol_amount, mint == c.msol_mint, amount),
        eth_amount: credit(u.eth_amount, mint == c.eth_mint, amount),
        ust_amount: credit(u.ust_amount, mint == c.ust_mint, amount),
        srm_amount: credit(u.srm_amount, mint == c.srm_mint, amount),
        scnsol_amount: credit(u.scnsol_amount, mint == c.scnsol_mint, amount),
        stsol_amount: credit(u.stsol_amount, mint == c.stsol_mint, amount),
        usdt_amount: credit(u.usdt_amount, mint == c.usdt_mint, amount),
        lpusd_amount: credit(u.lpusd_amount, mint == c.lpusd_mint, amount),
        lpsol_amount: credit(u.lpsol_amount, mint == c.lpsol_mint, amount),
        lpeth_amount: credit(u.lpeth_amount, mint == c.lpeth_mint, amount),
        lpbtc_amount: credit(u.lpbtc_amount, mint == c.lpbtc_mint, amount),
        ..u
    }
}

/// The configuration after a deposit of `amount` of the token `mint`: the
/// matching totals grow by `amount`.
pub open spec fn deposited_config(c: Config, mint: Pubkey, amount: u64) -> Config {
    Config {
        total_deposited_btc: credit(c.total_deposited_btc, mint == c.btc_mint, amount),
        total_deposited_usdc: credit(c.total_deposited_usdc, mint == c.usdc_mint, amount),
        total_deposited_msol: credit(c.total_deposited_msol, mint == c.msol_mint, amount),
        total_deposited_eth: credit(c.total_deposited_eth, mint == c.eth_mint, amount),
        total_deposited_ust: credit(c.total_deposited_ust, mint == c.ust_mint, amount),
        total_deposited_srm: credit(c.total_deposited_srm, mint == c.srm_mint, amount),
        total_deposited_scnsol: credit(c.total_deposited_scnsol, mint == c.scnsol_mint, amount),
        total_deposited_stsol: credit(c.total_deposited_stsol, mint == c.stsol_mint, amount),
        total_deposited_usdt: credit(c.total_deposited_usdt, mint == c.usdt_mint, amount),
        total_deposited_lpusd: credit(c.total_deposited_lpusd, mint == c.lpusd_mint, amount),
        total_deposited_lpsol: credit(c.total_deposited_lpsol, mint == c.lpsol_mint, amount),
        total_deposited_lpeth: credit(c.total_deposited_lpeth, mint == c.lpeth_mint, amount),
        total_deposited_lpbtc: credit(c.total_deposited_lpbtc, mint == c.lpbtc_mint, amount),
        ..c
    }
}

/// `credit(x, hit, amount)`, computed.
pub fn credit_if(x: u64, hit: bool, amount: u64) -> (r: u64)
    requires
        hit ==> x + amount <= u64::MAX,
    ensures
        r == credit(x, hit, amount),
{
    proof {
        reveal(credit);
    }
    if hit { x + amount } else { x }
}

/// `x + amount` fits in a `u64` where `hit` holds.
pub open spec fn fits(x: u64, hit: bool, amount: u64) -> bool {
    hit ==> x + amount <= u64::MAX
}

/// No balance or total that a deposit of `amount` of `mint` raises overflows.
pub open spec fn deposit_fits(u: UserAccount, c: Config, mint: Pubkey, amount: u64) -> bool {
    &&& fits(u.btc_amount, mint == c.btc_mint, amount)
    &&& fits(c.total_deposited_btc, mint == c.btc_mint, amount)
    &&& fits(u.usdc_amount, mint == c.usdc_mint, amount)
    &&& fits(c.total_deposited_usdc, mint == c.usdc_mint, amount)
    &&& fits(u.msol_amount, mint == c.msol_mint, amount)
    &&& fits(c.total_deposited_msol, mint == c.msol_mint, amount)
    &&& fits(u.eth_amount, mint == c.eth_mint, amount)
    &&& fits(c.total_deposited_eth, mint == c.eth_mint, amount)
    &&& fits(u.ust_amount, mint == c.ust_mint, amount)
    &&& fits(c.total_deposited_ust, mint == c.ust_mint, amount)
    &&& fits(u.srm_amount, mint == c.srm_mint, amount)
    &&& fits(c.total_deposited_srm, mint == c.srm_mint, amount)
    &&& fits(u.scnsol_amount, mint == c.scnsol_mint, amount)
    &&& fits(c.total_deposited_scnsol, mint == c.scnsol_mint, amount)
    &&& fits(u.stsol_amount, mint == c.stsol_mint, amount)
    &&& fits(c.total_deposited_stsol, mint == c.stsol_mint, amount)
    &&& fits(u.usdt_amount, mint == c.usdt_mint, amount)
    &&& fits(c.total_deposited_usdt, mint == c.usdt_mint, amount)
    &&& fits(u.lpusd_amount, mint == c.lpusd_mint, amount)
    &&& fits(c.total_deposited_lpusd, mint == c.lpusd_mint, amount)
    &&& fits(u.lpsol_amount, mint == c.lpsol_mint, amount)
    &&& fits(c.total_deposited_lpsol, mint == c.lpsol_mint, amount)
    &&& fits(u.lpeth_amount, mint == c.lpeth_mint, amount)
    &&& fits(c.total_deposited_lpeth, mint == c.lpeth_mint, amount)
    &&& fits(u.lpbtc_amount, mint == c.lpbtc_mint, amount)
    &&& fits(c.total_deposited_lpbtc, mint == c.lpbtc_mint, amount)
}

pub struct DepositCollateral {
    pub user_authority: Pubkey,
    /// Balance of the user's token account.
    pub user_collateral_amount: u64,
    /// Mint of the user's token account.
    pub collateral_mint: Pubkey,
    pub config: Config,
    pub user_account: UserAccount,
    /// Addresses on the protocol's whitelist.
    pub whitelist: Vec<Pubkey>,
}

/// The position and configuration after depositing `amount` of `mint`.
pub fn apply_deposit(u0: &UserAccount, c0: &Config, mint: &Pubkey, amount: u64) -> (r: (UserAccount, Config))
    requires
        deposit_fits(*u0, *c0, *mint, amount),
    ensures
        r.0 == deposited_user(*u0, *c0, *mint, amount),
        r.1 == deposited_config(*c0, *mint, amount),
{
    let hit_btc = mint.key_eq(&c0.btc_mint);
    let hit_usdc = mint.key_eq(&c0.usdc_mint);
    let hit_msol = mint.key_eq(&c0.msol_mint);
    let hit_eth = mint.key_eq(&c0.eth_mint);
    let hit_ust = mint.key_eq(&c0.ust_mint);
    let hit_srm = mint.key_eq(&c0.srm_mint);
    let hit_scnsol = mint.key_eq(&c0.scnsol_mint);
    let hit_stsol = mint.key_eq(&c0.stsol_mint);
    let hit_usdt = mint.key_eq(&c0.usdt_mint);
    let hit_lpusd = mint.key_eq(&c0.lpusd_mint);
    let hit_lpsol = mint.key_eq(&c0.lpsol_mint);
    let hit_lpeth = mint.key_eq(&c0.lpeth_mint);
    let hit_lpbtc = mint.key_eq(&c0.lpbtc_mint);
    let u1 = UserAccount {
        btc_amount: credit_if(u0.btc_amount, hit_btc, amount),
        usdc_amount: credit_if(u0.usdc_amount, hit_usdc, amount),
        msol_amount: credit_if(u0.msol_amount, hit_msol, amount),
        eth_amount: credit_if(u0.eth_amount, hit_eth, amount),
        ust_amount: credit_if(u0.ust_amount, hit_ust, amount),
        srm_amount: credit_if(u0.srm_amount, hit_srm, amount),
        scnsol_amount: credit_if(u0.scnsol_amount, hit_scnsol, amount),
        stsol_amount: credit_if(u0.stsol_amount, hit_stsol, amount),
        usdt_amount: credit_if(u0.usdt_amount, hit_usdt, amount),
        lpusd_amount: credit_if(u0.lpusd_amount, hit_lpusd, amount),
        lpsol_amount: credit_if(u0.lpsol_amount, hit_lpsol, amount),
        lpeth_amount: credit_if(u0.lpeth_amount, hit_lpeth, amount),
        lpbtc_amount: credit_if(u0.lpbtc_amount, hit_lpbtc, amount),
        ..*u0
    };
    let c1 = Config {
        total_deposited_btc: credit_if(c0.total_deposited_btc, hit_btc, amount),
        total_deposited_usdc: credit_if(c0.total_deposited_usdc, hit_usdc, amount),
        total_deposited_msol: credit_if(c0.total_deposited_msol, hit_msol, amount),
        total_deposited_eth: credit_if(c0.total_deposited_eth, hit_eth, amount),
        total_deposited_ust: credit_if(c0.total_deposited_ust, hit_ust, amount),
        total_deposited_srm: credit_if(c0.total_deposited_srm, hit_srm, amount),
        total_deposited_scnsol: credit_if(c0.total_deposited_scnsol, hit_scnsol, amount),
        total_deposited_stsol: credit_if(c0.total_deposited_stsol, hit_stsol, amount),
        total_deposited_usdt: credit_if(c0.total_deposited_usdt, hit_usdt, amount),
        total_deposited_lpusd: credit_if(c0.total_deposited_lpusd, hit_lpusd, amount),
        total_deposited_lpsol: credit_if(c0.total_deposited_lpsol, hit_lpsol, amount),
        total_deposited_lpeth: credit_if(c0.total_deposited_lpeth, hit_lpeth, amount),
        total_deposited_lpbtc: credit_if(c0.total_deposited_lpbtc, hit_lpbtc, amount),
        ..*c0
    };
    (u1, c1)
}

/// `fits(x, hit, amount)`, computed.
fn fits_now(x: u64, hit: bool, amount: u64) -> (r: bool)
    ensures
        r == fits(x, hit, amount),
{
    !hit || x.checked_add(amount).is_some()
}

/// `deposit_fits`, computed: whether a deposit of `amount` of `mint` raises
/// no balance or total past `u64::MAX` (the program aborts where one does).
pub fn check_deposit_fits(u: &UserAccount, c: &Config, mint: &Pubkey, amount: u64) -> (r: bool)
    ensures
        r == deposit_fits(*u, *c, *mint, amount),
{
    let hit = mint.key_eq(&c.btc_mint);
    let ok = fits_now(u.btc_amount, hit, amount) && fits_now(c.total_deposited_btc, hit, amount);
    let hit = mint.key_eq(&c.usdc_mint);
    let ok = ok && fits_now(u.usdc_amount, hit, amount) && fits_now(c.total_deposited_usdc, hit, amount);
    let hit = mint.key_eq(&c.msol_mint);
    let ok = ok && fits_now(u.msol_amount, hit, amount) && fits_now(c.total_deposited_msol, hit, amount);
    let hit = mint.key_eq(&c.eth_mint);
    let ok = ok && fits_now(u.eth_amount, hit, amount) && fits_now(c.total_deposited_eth, hit, amount);
    let hit = mint.key_eq(&c.ust_mint);
    let ok = ok && fits_now(u.ust_amount, hit, amount) && fits_now(c.total_deposited_ust, hit, amount);
    let hit = mint.key_eq(&c.srm_mint);
    let ok = ok && fits_now(u.srm_amount, hit, amount) && fits_now(c.total_deposited_srm, hit, amount);
    let hit = mint.key_eq(&c.scnsol_mint);
    let ok = ok && fits_now(u.scnsol_amount, hit, amount) && fits_now(c.total_deposited_scnsol, hit, amount);
    let hit = mint.key_eq(&c.stsol_mint);
    let ok = ok && fits_now(u.stsol_amount, hit, amount) && fits_now(c.total_deposited_stsol, hit, amount);
    let hit = mint.key_eq(&c.usdt_mint);
    let ok = ok && fits_now(u.usdt_amount, hit, amount) && fits_now(c.total_deposited_usdt, hit, amount);
    let hit = mint.key_eq(&c.lpusd_mint);
    let ok = ok && fits_now(u.lpusd_amount, hit, amount) && fits_now(c.total_deposited_lpusd, hit, amount);
    let hit = mint.key_eq(&c.lpsol_mint);
    let ok = ok && fits_now(u.lpsol_amount, hit, amount) && fits_now(c.total_deposited_lpsol, hit, amount);
    let hit = mint.key_eq(&c.lpeth_mint);
    let ok = ok && fits_now(u.lpeth_amount, hit, amount) && fits_now(c.total_deposited_lpeth, hit, amount);
    let hit = mint.key_eq(&c.lpbtc_mint);
    ok && fits_now(u.lpbtc_amount, hit, amount) && fits_now(c.total_deposited_lpbtc, hit, amount)
}

/// Deposits `amount` of a collateral token. On success the caller moves
/// `amount` from the user's token account to the pool, and, where the result
/// is `Ok(true)`, adds the user to the whitelist.
pub fn deposit_collateral(ctx: &mut DepositCollateral, amount: u64) -> (r: Result<bool, ErrorCode>)
    requires
        old(ctx).user_collateral_amount >= amount ==> deposit_fits(
            old(ctx).user_account,
            old(ctx).config,
            old(ctx).collateral_mint,
            amount,
        ),
    ensures
        old(ctx).user_collateral_amount < amount ==> r == Err::<bool, ErrorCode>(
            ErrorCode::InsufficientAmount,
        ) && *final(ctx) == *old(ctx),
        old(ctx).user_collateral_amount >= amount ==> {
            &&& r == Ok::<bool, ErrorCode>(!old(ctx).whitelist@.contains(old(ctx).user_authority))
            &&& final(ctx).user_account == deposited_user(
                old(ctx).user_account,
                old(ctx).config,
                old(ctx).collateral_mint,
                amount,
            )
            &&& final(ctx).config == deposited_config(old(ctx).config, old(ctx).collateral_mint, amount)
            &&& final(ctx).user_authority == old(ctx).user_authority
            &&& final(ctx).user_collateral_amount == old(ctx).user_collateral_amount
            &&& final(ctx).collateral_mint == old(ctx).collateral_mint
            &&& final(ctx).whitelist == old(ctx).whitelist
        },
{
    if ctx.user_collateral_amount < amount {
        return Err(ErrorCode::InsufficientAmount);
    }
    let (u1, c1) = apply_deposit(&ctx.user_account, &ctx.config, &ctx.collateral_mint, amount);
    ctx.user_account = u1;
    ctx.config = c1;
    let listed = list_contains(ctx.whitelist.as_slice(), &ctx.user_authority);
    Ok(!listed)
}


/// Each price-weighted amount in a position is natural.
pub proof fn lemma_position_terms(u: UserAccount, p: Prices)
    ensures
        p.btc * u.btc_amount >= 0,
        p.sol * u.sol_amount >= 0,
        p.usdc * u.usdc_amount >= 0,
        p.msol * u.msol_amount >= 0,
        p.eth * u.eth_amount >= 0,
        p.ust * u.ust_amount >= 0,
        p.srm * u.srm_amount >= 0,
        p.scnsol * u.scnsol_amount >= 0,
        p.stsol * u.stsol_amount >= 0,
        p.usdt * u.usdt_amount >= 0,
        p.usdc * u.lpusd_amount >= 0,
        p.sol * u.lpsol_amount >= 0,
        p.btc * u.lpbtc_amount >= 0,
        p.eth * u.lpeth_amount >= 0,
        p.usdc * u.borrowed_lpusd >= 0,
        p.sol * u.borrowed_lpsol >= 0,
        p.btc * u.borrowed_lpbtc >= 0,
        p.eth * u.borrowed_lpeth >= 0,
{
    lemma_terms_nonnegative(p.btc, u.btc_amount);
    lemma_terms_nonnegative(p.sol, u.sol_amount);
    lemma_terms_nonnegative(p.usdc, u.usdc_amount);
    lemma_terms_nonnegative(p.msol, u.msol_amount);
    lemma_terms_nonnegative(p.eth, u.eth_amount);
    lemma_terms_nonnegative(p.ust, u.ust_amount);
    lemma_terms_nonnegative(p.srm, u.srm_amount);
    lemma_terms_nonnegative(p.scnsol, u.scnsol_amount);
    lemma_terms_nonnegative(p.stsol, u.stsol_amount);
    lemma_terms_nonnegative(p.usdt, u.usdt_amount);
    lemma_terms_nonnegative(p.usdc, u.lpusd_amount);
    lemma_terms_nonnegative(p.sol, u.lpsol_amount);
    lemma_terms_nonnegative(p.btc, u.lpbtc_amount);
    lemma_terms_nonnegative(p.eth, u.lpeth_amount);
    lemma_terms_nonnegative(p.usdc, u.borrowed_lpusd);
    lemma_terms_nonnegative(p.sol, u.borrowed_lpsol);
    lemma_terms_nonnegative(p.btc, u.borrowed_lpbtc);
    lemma_terms_nonnegative(p.eth, u.borrowed_lpeth);
}

/// `collateral_value`, computed; the caller has shown that it fits.
pub fn collateral_total(u: &UserAccount, p: &Prices) -> (r: u128)
    requires
        collateral_value(*u, *p) <= u128::MAX,
    ensures
        r == collateral_value(*u, *p),
{
    proof {
        lemma_position_terms(*u, *p);
    }
    let mut total: u128 = 0;
    total = accumulate(total, p.btc, u.btc_amount);
    total = accumulate(total, p.sol, u.sol_amount);
    total = accumulate(total, p.usdc, u.usdc_amount);
    total = accumulate(total, p.msol, u.msol_amount);
    total = accumulate(total, p.eth, u.eth_amount);
    total = accumulate(total, p.ust, u.ust_amount);
    total = accumulate(total, p.srm, u.srm_amount);
    total = accumulate(total, p.scnsol, u.scnsol_amount);
    total = accumulate(total, p.stsol, u.stsol_amount);
    total = accumulate(total, p.usdt, u.usdt_amount);
    total = accumulate(total, p.usdc, u.lpusd_amount);
    total = accumulate(total, p.sol, u.lpsol_amount);
    total = accumulate(total, p.btc, u.lpbtc_amount);
    total = accumulate(total, p.eth, u.lpeth_amount);
    total
}

/// `collateral_value` where it fits in a `u128`, else `None`.
pub fn checked_collateral_total(u: &UserAccount, p: &Prices) -> (r: Option<u128>)
    ensures
        collateral_value(*u, *p) <= u128::MAX ==> r == Some(collateral_value(*u, *p) as u128),
        collateral_value(*u, *p) > u128::MAX ==> r is None,
{
    proof {
        lemma_position_terms(*u, *p);
    }
    let total: u128 = 0;
    let total = match checked_accumulate(total, p.btc, u.btc_amount) {
        Some(t) => t,
        None => return None,
    };
    let total = match checked_accumulate(total, p.sol, u.sol_amount) {
        Some(t) => t,
        None => return None,
    };
    let total = match checked_accumulate(total, p.usdc, u.usdc_amount) {
        Some(t) => t,
        None => return None,
    };
    let total = match checked_accumulate(total, p.msol, u.msol_amount) {
        Some(t) => t,
        None => return None,
    };
    let total = match checked_accumulate(total, p.eth, u.eth_amount) {
        Some(t) => t,
        None => return None,
    };
    let total = match checked_accumulate(total, p.ust, u.ust_amount) {
        Some(t) => t,
        None => return None,
    };
    let total = match checked_accumulate(total, p.srm, u.srm_amount) {
        Some(t) => t,
        None => return None,
    };
    let total = match checked_accumulate(total, p.scnsol, u.scnsol_amount) {
        Some(t) => t,
        None => return None,
    };
    let total = match checked_accumulate(total, p.stsol, u.stsol_amount) {
        Some(t) => t,
        None => return None,
    };
    let total = match checked_accumulate(total, p.usdt, u.usdt_amount) {
        Some(t) => t,
        None => return None,
    };
    let total = match checked_accumulate(total, p.usdc, u.lpusd_amount) {
        Some(t) => t,
        None => return None,
    };
    let total = match checked_accumulate(total, p.sol, u.lpsol_amount) {
        Some(t) => t,
        None => return None,
    };
    let total = match checked_accumulate(total, p.btc, u.lpbtc_amount) {
        Some(t) => t,
        None => return None,
    };
    let total = match checked_accumulate(total, p.eth, u.lpeth_amount) {
        Some(t) => t,
        None => return None,
    };
    Some(total)
}

/// `borrowed_value`, computed; the caller has shown that it fits.
pub fn borrowed_total(u: &UserAccount, p: &Prices) -> (r: u128)
    requires
        borrowed_value(*u, *p) <= u128::MAX,
    ensures
        r == borrowed_value(*u, *p),
{
    proof {
        lemma_position_terms(*u, *p);
    }
    let mut total: u128 = 0;
    total = accumulate(total, p.usdc, u.borrowed_lpusd);
    total = accumulate(total, p.sol, u.borrowed_lpsol);
    total = accumulate(total, p.btc, u.borrowed_lpbtc);
    total = accumulate(total, p.eth, u.borrowed_lpeth);
    total
}

/// `borrowed_value` where it fits in a `u128`, else `None`.
pub fn checked_borrowed_total(u: &UserAccount, p: &Prices) -> (r: Option<u128>)
    ensures
        borrowed_value(*u, *p) <= u128::MAX ==> r == Some(borrowed_value(*u, *p) as u128),
        borrowed_value(*u, *p) > u128::MAX ==> r is None,
{
    proof {
        lemma_position_terms(*u, *p);
    }
    let total: u128 = 0;
    let total = match checked_accumulate(total, p.usdc, u.borrowed_lpusd) {
        Some(t) => t,
        None => return None,
    };
    let total = match checked_accumulate(total, p.sol, u.borrowed_lpsol) {
        Some(t) => t,
        None => return None,
    };
    let total = match checked_accumulate(total, p.btc, u.borrowed_lpbtc) {
        Some(t) => t,
        None => return None,
    };
    let total = match checked_accumulate(total, p.eth, u.borrowed_lpeth) {
        Some(t) => t,
        None => return None,
    };
    Some(total)
}

/// An LP token the protocol lends.
#[derive(Clone, Copy, Debug, PartialEq, Eq, Structural)]
pub enum LpToken {
    Lpusd,
    Lpsol,
    Lpbtc,
    Lpeth,
}

/// The LP token a borrow of `mint` is for, tested in the order LpUSD, LpSOL,
/// LpBTC, LpETH.
pub open spec fn borrow_target(c: Config, mint: Pubkey) -> Option<LpToken> {
    if mint == c.lpusd_mint {
        Some(LpToken::Lpusd)
    } else if mint == c.lpsol_mint {
        Some(LpToken::Lpsol)
    } else if mint == c.lpbtc_mint {
        Some(LpToken::Lpbtc)
    } else if mint == c.lpeth_mint {
        Some(LpToken::Lpeth)
    } else {
        None
    }
}

/// The price of an LP token: that of its underlying asset.
pub open spec fn lp_price(p: Prices, t: LpToken) -> u128 {
    match t {
        LpToken::Lpusd => p.usdc,
        LpToken::Lpsol => p.sol,
        LpToken::Lpbtc => p.btc,
        LpToken::Lpeth => p.eth,
    }
}

/// How much of an LP token the user borrowed.
pub open spec fn borrowed_of(u: UserAccount, t: LpToken) -> u64 {
    match t {
        LpToken::Lpusd => u.borrowed_lpusd,
        LpToken::Lpsol => u.borrowed_lpsol,
        LpToken::Lpbtc => u.borrowed_lpbtc,
        LpToken::Lpeth => u.borrowed_lpeth,
    }
}

/// How much of an LP token all users borrowed.
pub open spec fn total_borrowed_of(c: Config, t: LpToken) -> u64 {
    match t {
        LpToken::Lpusd => c.total_borrowed_lpusd,
        LpToken::Lpsol => c.total_borrowed_lpsol,
        LpToken::Lpbtc => c.total_borrowed_lpbtc,
        LpToken::Lpeth => c.total_borrowed_lpeth,
    }
}

/// The position with the borrowed amount of `t` set to `v`.
pub open spec fn with_borrowed(u: UserAccount, t: LpToken, v: u64) -> UserAccount {
    match t {
        LpToken::Lpusd => UserAccount { borrowed_lpusd: v, ..u },
        LpToken::Lpsol => UserAccount { borrowed_lpsol: v, ..u },
        LpToken::Lpbtc => UserAccount { borrowed_lpbtc: v, ..u },
        LpToken::Lpeth => UserAccount { borrowed_lpeth: v, ..u },
    }
}

/// The configuration with the total borrowed of `t` set to `v`.
pub open spec fn with_total_borrowed(c: Config, t: LpToken, v: u64) -> Config {
    match t {
        LpToken::Lpusd => Config { total_borrowed_lpusd: v, ..c },
        LpToken::Lpsol => Config { total_borrowed_lpsol: v, ..c },
        LpToken::Lpbtc => Config { total_borrowed_lpbtc: v, ..c },
        LpToken::Lpeth => Config { total_borrowed_lpeth: v, ..c },
    }
}

/// What a user may still borrow, in value: `LTV` percent of its collateral
/// (rounded down) less what it already borrowed.
pub open spec fn borrow_headroom(u: UserAccount, p: Prices) -> int {
    collateral_value(u, p) * LTV / (DOMINATOR as int) - borrowed_value(u, p)
}

/// The borrow of `amount` of `mint` computes without overflow or underflow.
pub open spec fn borrow_fits(u: UserAccount, c: Config, p: Prices, mint: Pubkey, amount: u64) -> bool {
    amount >= 1 ==> {
        &&& collateral_value(u, p) <= u128::MAX
        &&& borrowed_value(u, p) <= u128::MAX
        &&& (borrow_target(c, mint) matches Some(t) ==> {
            &&& amount * lp_price(p, t) <= u128::MAX
            &&& borrowed_of(u, t) + amount <= u64::MAX
            &&& total_borrowed_of(c, t) + amount <= u64::MAX
            &&& collateral_value(u, p) * LTV <= u128::MAX
            &&& borrowed_value(u, p) <= collateral_value(u, p) * LTV / (DOMINATOR as int)
        })
    }
}

/// The outcome of a borrow: the LP token lent, or why it is refused.
pub open spec fn borrow_result(
    u: UserAccount,
    c: Config,
    p: Prices,
    mint: Pubkey,
    amount: u64,
    program_authority: Option<Pubkey>,
    state_account: Pubkey,
) -> Result<LpToken, ErrorCode> {
    if amount < 1 {
        Err(ErrorCode::InvalidAmount)
    } else {
        match borrow_target(c, mint) {
            None => Err(ErrorCode::InvalidToken),
            Some(t) => if !(borrow_headroom(u, p) > amount * lp_price(p, t)) {
                Err(ErrorCode::BorrowExceed)
            } else if program_authority != Some(state_account) {
                Err(ErrorCode::InvalidOwner)
            } else {
                Ok(t)
            },
        }
    }
}

/// How a borrow leaves its accounts: on refusal as they were, else with the
/// amount added to the position's and the protocol's borrowed totals.
pub open spec fn borrow_done(
    pre: BorrowLpToken,
    post: BorrowLpToken,
    amount: u64,
    p: Prices,
    program_authority: Option<Pubkey>,
    r: Result<(), ErrorCode>,
) -> bool {
    match borrow_result(
        pre.user_account,
        pre.config,
        p,
        pre.collateral_mint,
        amount,
        program_authority,
        pre.state_account,
    ) {
        Err(e) => r == Err::<(), ErrorCode>(e) && post == pre,
        Ok(t) => {
            &&& r is Ok
            &&& post == BorrowLpToken {
                user_account: with_borrowed(pre.user_account, t, (borrowed_of(pre.user_account, t) + amount) as u64),
                config: with_total_borrowed(pre.config, t, (total_borrowed_of(pre.config, t) + amount) as u64),
                ..pre
            }
        },
    }
}

/// What `borrow_lptoken` reads and writes.
pub struct BorrowLpToken {
    pub program_id: Pubkey,
    /// Address of the program's state account.
    pub state_account: Pubkey,
    pub config: Config,
    pub user_account: UserAccount,
    /// Mint of the LP token to borrow.
    pub collateral_mint: Pubkey,
    pub pyth_btc_account: PythPrice,
    pub pyth_eth_account: PythPrice,
    pub pyth_usdc_account: PythPrice,
    pub pyth_sol_account: PythPrice,
    pub pyth_msol_account: PythPrice,
    pub pyth_ust_account: PythPrice,
    pub pyth_srm_account: PythPrice,
    pub pyth_scnsol_account: PythPrice,
    pub pyth_stsol_account: PythPrice,
    pub pyth_usdt_account: PythPrice,
}

/// The prices of the LP token `t`, computed.
fn lp_price_of(p: &Prices, t: LpToken) -> (r: u128)
    ensures
        r == lp_price(*p, t),
{
    match t {
        LpToken::Lpusd => p.usdc,
        LpToken::Lpsol => p.sol,
        LpToken::Lpbtc => p.btc,
        LpToken::Lpeth => p.eth,
    }
}

/// `borrow_target`, computed.
pub fn find_borrow_target(c: &Config, mint: &Pubkey) -> (r: Option<LpToken>)
    ensures
        r == borrow_target(*c, *mint),
{
    if mint.key_eq(&c.lpusd_mint) {
        Some(LpToken::Lpusd)
    } else if mint.key_eq(&c.lpsol_mint) {
        Some(LpToken::Lpsol)
    } else if mint.key_eq(&c.lpbtc_mint) {
        Some(LpToken::Lpbtc)
    } else if mint.key_eq(&c.lpeth_mint) {
        Some(LpToken::Lpeth)
    } else {
        None
    }
}

/// Records a borrow of `amount` of `t` in the position and the totals.
pub fn record_borrow(u: &UserAccount, c: &Config, t: LpToken, amount: u64) -> (r: (UserAccount, Config))
    requires
        borrowed_of(*u, t) + amount <= u64::MAX,
        total_borrowed_of(*c, t) + amount <= u64::MAX,
    ensures
        r.0 == with_borrowed(*u, t, (borrowed_of(*u, t) + amount) as u64),
        r.1 == with_total_borrowed(*c, t, (total_borrowed_of(*c, t) + amount) as u64),
{
    match t {
        LpToken::Lpusd => (
            UserAccount { borrowed_lpusd: u.borrowed_lpusd + amount, ..*u },
            Config { total_borrowed_lpusd: c.total_borrowed_lpusd + amount, ..*c },
        ),
        LpToken::Lpsol => (
            UserAccount { borrowed_lpsol: u.borrowed_lpsol + amount, ..*u },
            Config { total_borrowed_lpsol: c.total_borrowed_lpsol + amount, ..*c },
        ),
        LpToken::Lpbtc => (
            UserAccount { borrowed_lpbtc: u.borrowed_lpbtc + amount, ..*u },
            Config { total_borrowed_lpbtc: c.total_borrowed_lpbtc + amount, ..*c },
        ),
        LpToken::Lpeth => (
            UserAccount { borrowed_lpeth: u.borrowed_lpeth + amount, ..*u },
            Config { total_borrowed_lpeth: c.total_borrowed_lpeth + amount, ..*c },
        ),
    }
}

/// Borrows `amount` of the LP token `ctx.collateral_mint` at the given
/// prices, `program_authority` being the program's derived state address.
/// On success the caller mints `amount` of the token to the user.
pub fn borrow_lptoken_with_prices(
    ctx: &mut BorrowLpToken,
    amount: u64,
    prices: &Prices,
    program_authority: Option<Pubkey>,
) -> (r: Result<(), ErrorCode>)
    requires
        borrow_fits(old(ctx).user_account, old(ctx).config, *prices, old(ctx).collateral_mint, amount),
    ensures
        borrow_done(*old(ctx), *final(ctx), amount, *prices, program_authority, r),
{
    if amount < 1 {
        return Err(ErrorCode::InvalidAmount);
    }
    let total_price = collateral_total(&ctx.user_account, prices);
    let total_borrowed_price = borrowed_total(&ctx.user_account, prices);
    let target = find_borrow_target(&ctx.config, &ctx.collateral_mint);
    let t = match target {
        None => return Err(ErrorCode::InvalidToken),
        Some(t) => t,
    };
    let price = lp_price_of(prices, t);
    let borrow_value = amount as u128 * price;
    let borrable_total = total_price * LTV / DOMINATOR - total_borrowed_price;
    if borrable_total > borrow_value {
        let authorized = match program_authority {
            Some(k) => k.key_eq(&ctx.state_account),
            None => false,
        };
        if !authorized {
            return Err(ErrorCode::InvalidOwner);
        }
        let (u1, c1) = record_borrow(&ctx.user_account, &ctx.config, t, amount);
        ctx.user_account = u1;
        ctx.config = c1;
        Ok(())
    } else {
        Err(ErrorCode::BorrowExceed)
    }
}


/// The ten collateral prices that the given Pyth accounts report.
pub open spec fn prices_from(
    btc: PythPrice,
    sol: PythPrice,
    usdc: PythPrice,
    msol: PythPrice,
    eth: PythPrice,
    ust: PythPrice,
    srm: PythPrice,
    scnsol: PythPrice,
    stsol: PythPrice,
    usdt: PythPrice,
) -> Prices {
    Prices {
        btc: price_of_aggregate(btc.agg_price),
        sol: price_of_aggregate(sol.agg_price),
        usdc: price_of_aggregate(usdc.agg_price),
        msol: price_of_aggregate(msol.agg_price),
        eth: price_of_aggregate(eth.agg_price),
        ust: price_of_aggregate(ust.agg_price),
        srm: price_of_aggregate(srm.agg_price),
        scnsol: price_of_aggregate(scnsol.agg_price),
        stsol: price_of_aggregate(stsol.agg_price),
        usdt: price_of_aggregate(usdt.agg_price),
    }
}

/// The prices that a borrow reads from its Pyth accounts.
pub open spec fn borrow_prices(ctx: BorrowLpToken) -> Prices {
    prices_from(
        ctx.pyth_btc_account,
        ctx.pyth_sol_account,
        ctx.pyth_usdc_account,
        ctx.pyth_msol_account,
        ctx.pyth_eth_account,
        ctx.pyth_ust_account,
        ctx.pyth_srm_account,
        ctx.pyth_scnsol_account,
        ctx.pyth_stsol_account,
        ctx.pyth_usdt_account,
    )
}

/// Reads the ten collateral prices out of their Pyth price accounts.
pub fn read_prices(
    btc: &PythPrice,
    sol: &PythPrice,
    usdc: &PythPrice,
    msol: &PythPrice,
    eth: &PythPrice,
    ust: &PythPrice,
    srm: &PythPrice,
    scnsol: &PythPrice,
    stsol: &PythPrice,
    usdt: &PythPrice,
) -> (p: Prices)
    ensures
        p == prices_from(*btc, *sol, *usdc, *msol, *eth, *ust, *srm, *scnsol, *stsol, *usdt),
{
    Prices {
        btc: get_price(btc),
        sol: get_price(sol),
        usdc: get_price(usdc),
        msol: get_price(msol),
        eth: get_price(eth),
        ust: get_price(ust),
        srm: get_price(srm),
        scnsol: get_price(scnsol),
        stsol: get_price(stsol),
        usdt: get_price(usdt),
    }
}

/// How much of `t` the user borrowed, computed.
fn borrowed_amount(u: &UserAccount, t: LpToken) -> (r: u64)
    ensures
        r == borrowed_of(*u, t),
{
    match t {
        LpToken::Lpusd => u.borrowed_lpusd,
        LpToken::Lpsol => u.borrowed_lpsol,
        LpToken::Lpbtc => u.borrowed_lpbtc,
        LpToken::Lpeth => u.borrowed_lpeth,
    }
}

/// How much of `t` all users borrowed, computed.
fn total_borrowed_amount(c: &Config, t: LpToken) -> (r: u64)
    ensures
        r == total_borrowed_of(*c, t),
{
    match t {
        LpToken::Lpusd => c.total_borrowed_lpusd,
        LpToken::Lpsol => c.total_borrowed_lpsol,
        LpToken::Lpbtc => c.total_borrowed_lpbtc,
        LpToken::Lpeth => c.total_borrowed_lpeth,
    }
}

/// `borrow_fits`, computed.
pub fn check_borrow_fits(u: &UserAccount, c: &Config, p: &Prices, mint: &Pubkey, amount: u64) -> (r: bool)
    ensures
        r == borrow_fits(*u, *c, *p, *mint, amount),
{
    if amount < 1 {
        return true;
    }
    let total = match checked_collateral_total(u, p) {
        None => return false,
        Some(t) => t,
    };
    let borrowed = match checked_borrowed_total(u, p) {
        None => return false,
        Some(b) => b,
    };
    match find_borrow_target(c, mint) {
        None => true,
        Some(t) => {
            let price = lp_price_of(p, t);
            let value_fits = (amount as u128).checked_mul(price).is_some();
            let user_fits = borrowed_amount(u, t).checked_add(amount).is_some();
            let total_fits = total_borrowed_amount(c, t).checked_add(amount).is_some();
            let limit_fits = match total.checked_mul(LTV) {
                None => false,
                Some(x) => borrowed <= x / DOMINATOR,
            };
            value_fits && user_fits && total_fits && limit_fits
        },
    }
}

/// Borrows `amount` of the LP token `ctx.collateral_mint`, pricing the
/// position with the Pyth accounts in `ctx`. `None` where the program would
/// abort on an arithmetic overflow or underflow at the prices read; the
/// accounts are then unchanged. On `Some(Ok(()))` the caller mints `amount`
/// of the token to the user.
pub fn borrow_lptoken(ctx: &mut BorrowLpToken, amount: u64) -> (r: Option<Result<(), ErrorCode>>)
    ensures
        amount < 1 ==> r == Some(Err::<(), ErrorCode>(ErrorCode::InvalidAmount)) && *final(ctx) == *old(ctx),
        r is None <==> !borrow_fits(
            old(ctx).user_account,
            old(ctx).config,
            borrow_prices(*old(ctx)),
            old(ctx).collateral_mint,
            amount,
        ),
        r is None ==> *final(ctx) == *old(ctx),
        amount >= 1 && r is Some ==> borrow_done(
            *old(ctx),
            *final(ctx),
            amount,
            borrow_prices(*old(ctx)),
            derived_program_key(PREFIX@, old(ctx).program_id),
            r.unwrap(),
        ),
{
    if amount < 1 {
        return Some(Err(ErrorCode::InvalidAmount));
    }
    let prices = read_prices(
        &ctx.pyth_btc_account,
        &ctx.pyth_sol_account,
        &ctx.pyth_usdc_account,
        &ctx.pyth_msol_account,
        &ctx.pyth_eth_account,
        &ctx.pyth_ust_account,
        &ctx.pyth_srm_account,
        &ctx.pyth_scnsol_account,
        &ctx.pyth_stsol_account,
        &ctx.pyth_usdt_account,
    );
    if !check_borrow_fits(&ctx.user_account, &ctx.config, &prices, &ctx.collateral_mint, amount) {
        return None;
    }
    let program_authority = find_program_key(PREFIX, &ctx.program_id);
    let r = borrow_lptoken_with_prices(ctx, amount, &prices, program_authority);
    Some(r)
}

/// What a position can still release, in units of an asset priced `price`:
/// its collateral value less the collateral its borrows need at `LTV`.
pub open spec fn withdraw_limit(u: UserAccount, p: Prices, price: u128) -> int {
    (collateral_value(u, p) - borrowed_value(u, p) * DOMINATOR / (LTV as int)) / (price as int)
}

/// The position's value fits and its borrows are covered at `LTV`; the
/// common first steps of both withdrawals.
pub open spec fn valuation_fits(u: UserAccount, p: Prices) -> bool {
    &&& collateral_value(u, p) <= u128::MAX
    &&& borrowed_value(u, p) <= u128::MAX
    &&& collateral_value(u, p) * LTV <= u128::MAX
    &&& borrowed_value(u, p) * DOMINATOR <= u128::MAX
}

/// The borrows are covered: `LTV` percent of the collateral is at least the
/// value borrowed.
pub open spec fn within_ltv(u: UserAccount, p: Prices) -> bool {
    collateral_value(u, p) * LTV >= borrowed_value(u, p) * DOMINATOR
}

/// A withdrawal of `amount` SOL computes without overflow, underflow or
/// division by zero.
pub open spec fn withdraw_sol_fits(u: UserAccount, c: Config, p: Prices, amount: u64) -> bool {
    &&& valuation_fits(u, p)
    &&& (within_ltv(u, p) && amount <= u.sol_amount ==> {
        &&& p.sol != 0
        &&& (amount <= (withdraw_limit(u, p, p.sol) as u64) ==> c.total_deposited_sol >= amount)
    })
}

/// The outcome of a withdrawal of `amount` SOL.
pub open spec fn withdraw_sol_result(u: UserAccount, p: Prices, amount: u64) -> Result<(), ErrorCode> {
    if !within_ltv(u, p) {
        Err(ErrorCode::InvalidAmount)
    } else if amount > u.sol_amount {
        Err(ErrorCode::InvalidAmount)
    } else if amount > (withdraw_limit(u, p, p.sol) as u64) {
        Err(ErrorCode::InvalidAmount)
    } else {
        Ok(())
    }
}

/// What `withdraw_sol` reads and writes.
pub struct WithdrawSOL {
    pub config: Config,
    pub user_account: UserAccount,
    pub pyth_btc_account: PythPrice,
    pub pyth_usdc_account: PythPrice,
    pub pyth_sol_account: PythPrice,
    pub pyth_eth_account: PythPrice,
    pub pyth_msol_account: PythPrice,
    pub pyth_ust_account: PythPrice,
    pub pyth_srm_account: PythPrice,
    pub pyth_scnsol_account: PythPrice,
    pub pyth_stsol_account: PythPrice,
    pub pyth_usdt_account: PythPrice,
}

/// How a SOL withdrawal leaves its accounts.
pub open spec fn withdraw_sol_done(pre: WithdrawSOL, post: WithdrawSOL, amount: u64, p: Prices, r: Result<(), ErrorCode>) -> bool {
    match withdraw_sol_result(pre.user_account, p, amount) {
        Err(e) => r == Err::<(), ErrorCode>(e) && post == pre,
        Ok(()) => {
            &&& r is Ok
            &&& post == WithdrawSOL {
                user_account: UserAccount { sol_amount: (pre.user_account.sol_amount - amount) as u64, ..pre.user_account },
                config: Config { total_deposited_sol: (pre.config.total_deposited_sol - amount) as u64, ..pre.config },
                ..pre
            }
        },
    }
}

/// `withdraw_limit` truncated to a `u64` as the program truncates it; the
/// caller has shown that the valuation fits, the borrows are covered and the
/// price is not zero.
fn limit_units(total: u128, borrowed: u128, price: u128, u: &UserAccount, p: &Prices) -> (r: u64)
    requires
        total == collateral_value(*u, *p),
        borrowed == borrowed_value(*u, *p),
        valuation_fits(*u, *p),
        within_ltv(*u, *p),
        price != 0,
    ensures
        r == (withdraw_limit(*u, *p, price) as u64),
{
    let reserved = borrowed * DOMINATOR / LTV;
    proof {
        vstd::arithmetic::div_mod::lemma_div_is_ordered(
            borrowed * DOMINATOR,
            total * LTV,
            LTV as int,
        );
        vstd::arithmetic::div_mod::lemma_div_multiples_vanish(total as int, LTV as int);
        vstd::arithmetic::mul::lemma_mul_is_commutative(total as int, LTV as int);
    }
    let free = total - reserved;
    #[verifier::truncate]
    let units = (free / price) as u64;
    units
}

/// Withdraws `amount` SOL at the given prices. On success the caller moves
/// `amount` lamports from the program's state account to the user.
pub fn withdraw_sol_with_prices(ctx: &mut WithdrawSOL, amount: u64, prices: &Prices) -> (r: Result<(), ErrorCode>)
    requires
        withdraw_sol_fits(old(ctx).user_account, old(ctx).config, *prices, amount),
    ensures
        withdraw_sol_done(*old(ctx), *final(ctx), amount, *prices, r),
{
    let total_price = collateral_total(&ctx.user_account, prices);
    let borrowed_total = borrowed_total(&ctx.user_account, prices);
    if total_price * LTV < borrowed_total * DOMINATOR {
        return Err(ErrorCode::InvalidAmount);
    }
    if amount > ctx.user_account.sol_amount {
        return Err(ErrorCode::InvalidAmount);
    }
    let borrowable_amount = limit_units(total_price, borrowed_total, prices.sol, &ctx.user_account, prices);
    if amount > borrowable_amount {
        return Err(ErrorCode::InvalidAmount);
    }
    ctx.user_account.sol_amount = ctx.user_account.sol_amount - amount;
    ctx.config.total_deposited_sol = ctx.config.total_deposited_sol - amount;
    Ok(())
}

/// The collateral and borrowed values where `valuation_fits`, else `None`.
pub fn checked_valuation(u: &UserAccount, p: &Prices) -> (r: Option<(u128, u128)>)
    ensures
        valuation_fits(*u, *p) ==> r == Some(
            (collateral_value(*u, *p) as u128, borrowed_value(*u, *p) as u128),
        ),
        !valuation_fits(*u, *p) ==> r is None,
{
    let total = match checked_collateral_total(u, p) {
        None => return None,
        Some(t) => t,
    };
    let borrowed = match checked_borrowed_total(u, p) {
        None => return None,
        Some(b) => b,
    };
    if total.checked_mul(LTV).is_none() || borrowed.checked_mul(DOMINATOR).is_none() {
        return None;
    }
    Some((total, borrowed))
}

/// `withdraw_sol_fits`, computed.
pub fn check_withdraw_sol_fits(u: &UserAccount, c: &Config, p: &Prices, amount: u64) -> (r: bool)
    ensures
        r == withdraw_sol_fits(*u, *c, *p, amount),
{
    let (total, borrowed) = match checked_valuation(u, p) {
        None => return false,
        Some(v) => v,
    };
    if total * LTV < borrowed * DOMINATOR || amount > u.sol_amount {
        return true;
    }
    if p.sol == 0 {
        return false;
    }
    let limit = limit_units(total, borrowed, p.sol, u, p);
    amount > limit || c.total_deposited_sol >= amount
}

/// The prices that a SOL withdrawal reads from its Pyth accounts.
pub open spec fn withdraw_sol_prices(ctx: WithdrawSOL) -> Prices {
    prices_from(
        ctx.pyth_btc_account,
        ctx.pyth_sol_account,
        ctx.pyth_usdc_account,
        ctx.pyth_msol_account,
        ctx.pyth_eth_account,
        ctx.pyth_ust_account,
        ctx.pyth_srm_account,
        ctx.pyth_scnsol_account,
        ctx.pyth_stsol_account,
        ctx.pyth_usdt_account,
    )
}

/// Reads the prices a position is valued at from the ten Pyth accounts.
fn read_withdraw_prices(ctx: &WithdrawSOL) -> (p: Prices)
    ensures
        p == withdraw_sol_prices(*ctx),
{
    read_prices(
        &ctx.pyth_btc_account,
        &ctx.pyth_sol_account,
        &ctx.pyth_usdc_account,
        &ctx.pyth_msol_account,
        &ctx.pyth_eth_account,
        &ctx.pyth_ust_account,
        &ctx.pyth_srm_account,
        &ctx.pyth_scnsol_account,
        &ctx.pyth_stsol_account,
        &ctx.pyth_usdt_account,
    )
}

/// Withdraws `amount` SOL, valuing the position with the Pyth accounts in
/// `ctx`. `None` where the program would abort on an arithmetic fault at the
/// prices read; the accounts are then unchanged. On `Some(Ok(()))` the caller
/// moves `amount` lamports from the program's state account to the user.
pub fn withdraw_sol(ctx: &mut WithdrawSOL, amount: u64) -> (r: Option<Result<(), ErrorCode>>)
    ensures
        r is None <==> !withdraw_sol_fits(
            old(ctx).user_account,
            old(ctx).config,
            withdraw_sol_prices(*old(ctx)),
            amount,
        ),
        r is None ==> *final(ctx) == *old(ctx),
        r is Some ==> withdraw_sol_done(*old(ctx), *final(ctx), amount, withdraw_sol_prices(*old(ctx)), r.unwrap()),
{
    let prices = read_withdraw_prices(ctx);
    if !check_withdraw_sol_fits(&ctx.user_account, &ctx.config, &prices, amount) {
        return None;
    }
    let r = withdraw_sol_with_prices(ctx, amount, &prices);
    Some(r)
}


/// A token the protocol holds as collateral, in the order a withdrawal
/// matches its mint.
#[derive(Clone, Copy, Debug, PartialEq, Eq, Structural)]
pub enum Collateral {
    Usdc,
    Msol,
    Eth,
    Btc,
    Ust,
    Srm,
    Scnsol,
    Stsol,
    Usdt,
    Lpbtc,
    Lpeth,
    Lpusd,
    Lpsol,
}

/// How much of a collateral token the user deposited.
pub open spec fn held(u: UserAccount, a: Collateral) -> u64 {
    match a {
        Collateral::Usdc => u.usdc_amount,
        Collateral::Msol => u.msol_amount,
        Collateral::Eth => u.eth_amount,
        Collateral::Btc => u.btc_amount,
        Collateral::Ust => u.ust_amount,
        Collateral::Srm => u.srm_amount,
        Collateral::Scnsol => u.scnsol_amount,
        Collateral::Stsol => u.stsol_amount,
        Collateral::Usdt => u.usdt_amount,
        Collateral::Lpbtc => u.lpbtc_amount,
        Collateral::Lpeth => u.lpeth_amount,
        Collateral::Lpusd => u.lpusd_amount,
        Collateral::Lpsol => u.lpsol_amount,
    }
}

/// How much of a collateral token all users deposited.
pub open spec fn deposited_total(c: Config, a: Collateral) -> u64 {
    match a {
        Collateral::Usdc => c.total_deposited_usdc,
        Collateral::Msol => c.total_deposited_msol,
        Collateral::Eth => c.total_deposited_eth,
        Collateral::Btc => c.total_deposited_btc,
        Collateral::Ust => c.total_deposited_ust,
        Collateral::Srm => c.total_deposited_srm,
        Collateral::Scnsol => c.total_deposited_scnsol,
        Collateral::Stsol => c.total_deposited_stsol,
        Collateral::Usdt => c.total_deposited_usdt,
        Collateral::Lpbtc => c.total_deposited_lpbtc,
        Collateral::Lpeth => c.total_deposited_lpeth,
        Collateral::Lpusd => c.total_deposited_lpusd,
        Collateral::Lpsol => c.total_deposited_lpsol,
    }
}

/// The price of a collateral token; an LP token is priced as its underlying asset.
pub open spec fn collateral_price(p: Prices, a: Collateral) -> u128 {
    match a {
        Collateral::Usdc => p.usdc,
        Collateral::Msol => p.msol,
        Collateral::Eth => p.eth,
        Collateral::Btc => p.btc,
        Collateral::Ust => p.ust,
        Collateral::Srm => p.srm,
        Collateral::Scnsol => p.scnsol,
        Collateral::Stsol => p.stsol,
        Collateral::Usdt => p.usdt,
        Collateral::Lpbtc => p.btc,
        Collateral::Lpeth => p.eth,
        Collateral::Lpusd => p.usdc,
        Collateral::Lpsol => p.sol,
    }
}

/// The position with the deposited amount of `a` set to `v`.
pub open spec fn with_held(u: UserAccount, a: Collateral, v: u64) -> UserAccount {
    match a {
        Collateral::Usdc => UserAccount { usdc_amount: v, ..u },
        Collateral::Msol => UserAccount { msol_amount: v, ..u },
        Collateral::Eth => UserAccount { eth_amount: v, ..u },
        Collateral::Btc => UserAccount { btc_amount: v, ..u },
        Collateral::Ust => UserAccount { ust_amount: v, ..u },
        Collateral::Srm => UserAccount { srm_amount: v, ..u },
        Collateral::Scnsol => UserAccount { scnsol_amount: v, ..u },
        Collateral::Stsol => UserAccount { stsol_amount: v, ..u },
        Collateral::Usdt => UserAccount { usdt_amount: v, ..u },
        Collateral::Lpbtc => UserAccount { lpbtc_amount: v, ..u },
        Collateral::Lpeth => UserAccount { lpeth_amount: v, ..u },
        Collateral::Lpusd => UserAccount { lpusd_amount: v, ..u },
        Collateral::Lpsol => UserAccount { lpsol_amount: v, ..u },
    }
}

/// The configuration with the total deposited of `a` set to `v`.
pub open spec fn with_deposited_total(c: Config, a: Collateral, v: u64) -> Config {
    match a {
        Collateral::Usdc => Config { total_deposited_usdc: v, ..c },
        Collateral::Msol => Config { total_deposited_msol: v, ..c },
        Collateral::Eth => Config { total_deposited_eth: v, ..c },
        Collateral::Btc => Config { total_deposited_btc: v, ..c },
        Collateral::Ust => Config { total_deposited_ust: v, ..c },
        Collateral::Srm => Config { total_deposited_srm: v, ..c },
        Collateral::Scnsol => Config { total_deposited_scnsol: v, ..c },
        Collateral::Stsol => Config { total_deposited_stsol: v, ..c },
        Collateral::Usdt => Config { total_deposited_usdt: v, ..c },
        Collateral::Lpbtc => Config { total_deposited_lpbtc: v, ..c },
        Collateral::Lpeth => Config { total_deposited_lpeth: v, ..c },
        Collateral::Lpusd => Config { total_deposited_lpusd: v, ..c },
        Collateral::Lpsol => Config { total_deposited_lpsol: v, ..c },
    }
}

/// The collateral token a withdrawal of `mint` is for, the first in
/// `Collateral`'s order whose mint is `mint`.
pub open spec fn withdraw_target(c: Config, mint: Pubkey) -> Option<Collateral> {
    if mint == c.usdc_mint {
        Some(Collateral::Usdc)
    } else if mint == c.msol_mint {
        Some(Collateral::Msol)
    } else if mint == c.eth_mint {
        Some(Collateral::Eth)
    } else if mint == c.btc_mint {
        Some(Collateral::Btc)
    } else if mint == c.ust_mint {
        Some(Collateral::Ust)
    } else if mint == c.srm_mint {
        Some(Collateral::Srm)
    } else if mint == c.scnsol_mint {
        Some(Collateral::Scnsol)
    } else if mint == c.stsol_mint {
        Some(Collateral::Stsol)
    } else if mint == c.usdt_mint {
        Some(Collateral::Usdt)
    } else if mint == c.lpbtc_mint {
        Some(Collateral::Lpbtc)
    } else if mint == c.lpeth_mint {
        Some(Collateral::Lpeth)
    } else if mint == c.lpusd_mint {
        Some(Collateral::Lpusd)
    } else if mint == c.lpsol_mint {
        Some(Collateral::Lpsol)
    } else {
        None
    }
}

/// `withdraw_target`, computed.
pub fn find_withdraw_target(c: &Config, mint: &Pubkey) -> (r: Option<Collateral>)
    ensures
        r == withdraw_target(*c, *mint),
{
    if mint.key_eq(&c.usdc_mint) {
        Some(Collateral::Usdc)
    } else if mint.key_eq(&c.msol_mint) {
        Some(Collateral::Msol)
    } else if mint.key_eq(&c.eth_mint) {
        Some(Collateral::Eth)
    } else if mint.key_eq(&c.btc_mint) {
        Some(Collateral::Btc)
    } else if mint.key_eq(&c.ust_mint) {
        Some(Collateral::Ust)
    } else if mint.key_eq(&c.srm_mint) {
        Some(Collateral::Srm)
    } else if mint.key_eq(&c.scnsol_mint) {
        Some(Collateral::Scnsol)
    } else if mint.key_eq(&c.stsol_mint) {
        Some(Collateral::Stsol)
    } else if mint.key_eq(&c.usdt_mint) {
        Some(Collateral::Usdt)
    } else if mint.key_eq(&c.lpbtc_mint) {
        Some(Collateral::Lpbtc)
    } else if mint.key_eq(&c.lpeth_mint) {
        Some(Collateral::Lpeth)
    } else if mint.key_eq(&c.lpusd_mint) {
        Some(Collateral::Lpusd)
    } else if mint.key_eq(&c.lpsol_mint) {
        Some(Collateral::Lpsol)
    } else {
        None
    }
}

/// `collateral_price`, computed.
fn collateral_price_of(p: &Prices, a: Collateral) -> (r: u128)
    ensures
        r == collateral_price(*p, a),
{
    match a {
        Collateral::Usdc => p.usdc,
        Collateral::Msol => p.msol,
        Collateral::Eth => p.eth,
        Collateral::Btc => p.btc,
        Collateral::Ust => p.ust,
        Collateral::Srm => p.srm,
        Collateral::Scnsol => p.scnsol,
        Collateral::Stsol => p.stsol,
        Collateral::Usdt => p.usdt,
        Collateral::Lpbtc => p.btc,
        Collateral::Lpeth => p.eth,
        Collateral::Lpusd => p.usdc,
        Collateral::Lpsol => p.sol,
    }
}

/// `held`, computed.
fn held_amount(u: &UserAccount, a: Collateral) -> (r: u64)
    ensures
        r == held(*u, a),
{
    match a {
        Collateral::Usdc => u.usdc_amount,
        Collateral::Msol => u.msol_amount,
        Collateral::Eth => u.eth_amount,
        Collateral::Btc => u.btc_amount,
        Collateral::Ust => u.ust_amount,
        Collateral::Srm => u.srm_amount,
        Collateral::Scnsol => u.scnsol_amount,
        Collateral::Stsol => u.stsol_amount,
        Collateral::Usdt => u.usdt_amount,
        Collateral::Lpbtc => u.lpbtc_amount,
        Collateral::Lpeth => u.lpeth_amount,
        Collateral::Lpusd => u.lpusd_amount,
        Collateral::Lpsol => u.lpsol_amount,
    }
}

/// `deposited_total`, computed.
fn deposited_amount(c: &Config, a: Collateral) -> (r: u64)
    ensures
        r == deposited_total(*c, a),
{
    match a {
        Collateral::Usdc => c.total_deposited_usdc,
        Collateral::Msol => c.total_deposited_msol,
        Collateral::Eth => c.total_deposited_eth,
        Collateral::Btc => c.total_deposited_btc,
        Collateral::Ust => c.total_deposited_ust,
        Collateral::Srm => c.total_deposited_srm,
        Collateral::Scnsol => c.total_deposited_scnsol,
        Collateral::Stsol => c.total_deposited_stsol,
        Collateral::Usdt => c.total_deposited_usdt,
        Collateral::Lpbtc => c.total_deposited_lpbtc,
        Collateral::Lpeth => c.total_deposited_lpeth,
        Collateral::Lpusd => c.total_deposited_lpusd,
        Collateral::Lpsol => c.total_deposited_lpsol,
    }
}

/// Takes `amount` of `a` out of the position and the totals.
pub fn record_withdrawal(u: &UserAccount, c: &Config, a: Collateral, amount: u64) -> (r: (UserAccount, Config))
    requires
        amount <= held(*u, a),
        amount <= deposited_total(*c, a),
    ensures
        r.0 == with_held(*u, a, (held(*u, a) - amount) as u64),
        r.1 == with_deposited_total(*c, a, (deposited_total(*c, a) - amount) as u64),
{
    match a {
        Collateral::Usdc => (
            UserAccount { usdc_amount: u.usdc_amount - amount, ..*u },
            Config { total_deposited_usdc: c.total_deposited_usdc - amount, ..*c },
        ),
        Collateral::Msol => (
            UserAccount { msol_amount: u.msol_amount - amount, ..*u },
            Config { total_deposited_msol: c.total_deposited_msol - amount, ..*c },
        ),
        Collateral::Eth => (
            UserAccount { eth_amount: u.eth_amount - amount, ..*u },
            Config { total_deposited_eth: c.total_deposited_eth - amount, ..*c },
        ),
        Collateral::Btc => (
            UserAccount { btc_amount: u.btc_amount - amount, ..*u },
            Config { total_deposited_btc: c.total_deposited_btc - amount, ..*c },
        ),
        Collateral::Ust => (
            UserAccount { ust_amount: u.ust_amount - amount, ..*u },
            Config { total_deposited_ust: c.total_deposited_ust - amount, ..*c },
        ),
        Collateral::Srm => (
            UserAccount { srm_amount: u.srm_amount - amount, ..*u },
            Config { total_deposited_srm: c.total_deposited_srm - amount, ..*c },
        ),
        Collateral::Scnsol => (
            UserAccount { scnsol_amount: u.scnsol_amount - amount, ..*u },
            Config { total_deposited_scnsol: c.total_deposited_scnsol - amount, ..*c },
        ),
        Collateral::Stsol => (
            UserAccount { stsol_amount: u.stsol_amount - amount, ..*u },
            Config { total_deposited_stsol: c.total_deposited_stsol - amount, ..*c },
        ),
        Collateral::Usdt => (
            UserAccount { usdt_amount: u.usdt_amount - amount, ..*u },
            Config { total_deposited_usdt: c.total_deposited_usdt - amount, ..*c },
        ),
        Collateral::Lpbtc => (
            UserAccount { lpbtc_amount: u.lpbtc_amount - amount, ..*u },
            Config { total_deposited_lpbtc: c.total_deposited_lpbtc - amount, ..*c },
        ),
        Collateral::Lpeth => (
            UserAccount { lpeth_amount: u.lpeth_amount - amount, ..*u },
            Config { total_deposited_lpeth: c.total_deposited_lpeth - amount, ..*c },
        ),
        Collateral::Lpusd => (
            UserAccount { lpusd_amount: u.lpusd_amount - amount, ..*u },
            Config { total_deposited_lpusd: c.total_deposited_lpusd - amount, ..*c },
        ),
        Collateral::Lpsol => (
            UserAccount { lpsol_amount: u.lpsol_amount - amount, ..*u },
            Config { total_deposited_lpsol: c.total_deposited_lpsol - amount, ..*c },
        ),
    }
}

/// A token withdrawal of `amount` of `mint` computes without overflow,
/// underflow or division by zero. An amount above the holding is refused
/// before anything is divided; one within the holding but above the
/// protocol's total for the token cannot be taken off that total.
pub open spec fn withdraw_token_fits(u: UserAccount, c: Config, p: Prices, mint: Pubkey, amount: u64) -> bool {
    &&& valuation_fits(u, p)
    &&& (within_ltv(u, p) ==> (withdraw_target(c, mint) matches Some(a) ==> (amount <= held(u, a) ==> {
        &&& amount <= deposited_total(c, a)
        &&& collateral_price(p, a) != 0
    })))
}

/// The outcome of a token withdrawal: the token released, or why it is
/// refused.
pub open spec fn withdraw_token_result(
    u: UserAccount,
    c: Config,
    p: Prices,
    mint: Pubkey,
    amount: u64,
    program_authority: Option<Pubkey>,
    state_account: Pubkey,
) -> Result<Collateral, ErrorCode> {
    if !within_ltv(u, p) {
        Err(ErrorCode::InvalidAmount)
    } else {
        match withdraw_target(c, mint) {
            None => Err(ErrorCode::InvalidToken),
            Some(a) => if amount > held(u, a) {
                Err(ErrorCode::InvalidAmount)
            } else if amount > (withdraw_limit(u, p, collateral_price(p, a)) as u64) {
                Err(ErrorCode::InvalidAmount)
            } else if program_authority != Some(state_account) {
                Err(ErrorCode::InvalidOwner)
            } else {
                Ok(a)
            },
        }
    }
}

/// What `withdraw_token` reads and writes.
pub struct WithdrawToken {
    pub program_id: Pubkey,
    /// Address of the program's state account.
    pub state_account: Pubkey,
    pub config: Config,
    pub user_account: UserAccount,
    /// Mint of the token to withdraw.
    pub dest_mint: Pubkey,
    pub pyth_btc_account: PythPrice,
    pub pyth_usdc_account: PythPrice,
    pub pyth_sol_account: PythPrice,
    pub pyth_eth_account: PythPrice,
    pub pyth_msol_account: PythPrice,
    pub pyth_ust_account: PythPrice,
    pub pyth_srm_account: PythPrice,
    pub pyth_scnsol_account: PythPrice,
    pub pyth_stsol_account: PythPrice,
    pub pyth_usdt_account: PythPrice,
}

/// The prices that a token withdrawal reads from its Pyth accounts.
pub open spec fn withdraw_token_prices(ctx: WithdrawToken) -> Prices {
    prices_from(
        ctx.pyth_btc_account,
        ctx.pyth_sol_account,
        ctx.pyth_usdc_account,
        ctx.pyth_msol_account,
        ctx.pyth_eth_account,
        ctx.pyth_ust_account,
        ctx.pyth_srm_account,
        ctx.pyth_scnsol_account,
        ctx.pyth_stsol_account,
        ctx.pyth_usdt_account,
    )
}

/// How a token withdrawal leaves its accounts.
pub open spec fn withdraw_token_done(
    pre: WithdrawToken,
    post: WithdrawToken,
    amount: u64,
    p: Prices,
    program_authority: Option<Pubkey>,
    r: Result<(), ErrorCode>,
) -> bool {
    match withdraw_token_result(pre.user_account, pre.config, p, pre.dest_mint, amount, program_authority, pre.state_account) {
        Err(e) => r == Err::<(), ErrorCode>(e) && post == pre,
        Ok(a) => {
            &&& r is Ok
            &&& post == WithdrawToken {
                user_account: with_held(pre.user_account, a, (held(pre.user_account, a) - amount) as u64),
                config: with_deposited_total(pre.config, a, (deposited_total(pre.config, a) - amount) as u64),
                ..pre
            }
        },
    }
}

/// Withdraws `amount` of the token `ctx.dest_mint` at the given prices,
/// `program_authority` being the program's derived state address. On
/// success the caller moves `amount` from the pool to the user.
pub fn withdraw_token_with_prices(
    ctx: &mut WithdrawToken,
    amount: u64,
    prices: &Prices,
    program_authority: Option<Pubkey>,
) -> (r: Result<(), ErrorCode>)
    requires
        withdraw_token_fits(old(ctx).user_account, old(ctx).config, *prices, old(ctx).dest_mint, amount),
    ensures
        withdraw_token_done(*old(ctx), *final(ctx), amount, *prices, program_authority, r),
{
    let total_price = collateral_total(&ctx.user_account, prices);
    let borrowed_total = borrowed_total(&ctx.user_account, prices);
    if total_price * LTV < borrowed_total * DOMINATOR {
        return Err(ErrorCode::InvalidAmount);
    }
    let a = match find_withdraw_target(&ctx.config, &ctx.dest_mint) {
        None => return Err(ErrorCode::InvalidToken),
        Some(a) => a,
    };
    if amount > held_amount(&ctx.user_account, a) {
        return Err(ErrorCode::InvalidAmount);
    }
    let dest_price = collateral_price_of(prices, a);
    let borrowable_amount = limit_units(total_price, borrowed_total, dest_price, &ctx.user_account, prices);
    if amount > borrowable_amount {
        return Err(ErrorCode::InvalidAmount);
    }
    let authorized = match program_authority {
        Some(k) => k.key_eq(&ctx.state_account),
        None => false,
    };
    if !authorized {
        return Err(ErrorCode::InvalidOwner);
    }
    let (u1, c1) = record_withdrawal(&ctx.user_account, &ctx.config, a, amount);
    ctx.user_account = u1;
    ctx.config = c1;
    Ok(())
}

/// `withdraw_token_fits`, computed.
pub fn check_withdraw_token_fits(u: &UserAccount, c: &Config, p: &Prices, mint: &Pubkey, amount: u64) -> (r: bool)
    ensures
        r == withdraw_token_fits(*u, *c, *p, *mint, amount),
{
    let (total, borrowed) = match checked_valuation(u, p) {
        None => return false,
        Some(v) => v,
    };
    if total * LTV < borrowed * DOMINATOR {
        return true;
    }
    match find_withdraw_target(c, mint) {
        None => true,
        Some(a) => amount > held_amount(u, a) || (amount <= deposited_amount(c, a) && collateral_price_of(p, a) != 0),
    }
}

/// Withdraws `amount` of the token `ctx.dest_mint`, valuing the position
/// with the Pyth accounts in `ctx`. `None` where the program would abort on
/// an arithmetic fault at the prices read; the accounts are then unchanged.
/// On `Some(Ok(()))` the caller moves `amount` from the pool to the user.
pub fn withdraw_token(ctx: &mut WithdrawToken, amount: u64) -> (r: Option<Result<(), ErrorCode>>)
    ensures
        r is None <==> !withdraw_token_fits(
            old(ctx).user_account,
            old(ctx).config,
            withdraw_token_prices(*old(ctx)),
            old(ctx).dest_mint,
            amount,
        ),
        r is None ==> *final(ctx) == *old(ctx),
        r is Some ==> withdraw_token_done(
            *old(ctx),
            *final(ctx),
            amount,
            withdraw_token_prices(*old(ctx)),
            derived_program_key(PREFIX@, old(ctx).program_id),
            r.unwrap(),
        ),
{
    let prices = read_prices(
        &ctx.pyth_btc_account,
        &ctx.pyth_sol_account,
        &ctx.pyth_usdc_account,
        &ctx.pyth_msol_account,
        &ctx.pyth_eth_account,
        &ctx.pyth_ust_account,
        &ctx.pyth_srm_account,
        &ctx.pyth_scnsol_account,
        &ctx.pyth_stsol_account,
        &ctx.pyth_usdt_account,
    );
    if !check_withdraw_token_fits(&ctx.user_account, &ctx.config, &prices, &ctx.dest_mint, amount) {
        return None;
    }
    let program_authority = find_program_key(PREFIX, &ctx.program_id);
    let r = withdraw_token_with_prices(ctx, amount, &prices, program_authority);
    Some(r)
}


/// `s` with `(a, v)` appended where `v` is not zero.
pub open spec fn push_nonzero(s: Seq<(Collateral, u64)>, a: Collateral, v: u64) -> Seq<(Collateral, u64)> {
    if v > 0 { s.push((a, v)) } else { s }
}

/// The token transfers a liquidation makes, in order: every token the user
/// deposited, with its amount.
pub open spec fn liquidation_transfers(u: UserAccount) -> Seq<(Collateral, u64)> {
    let s = Seq::<(Collateral, u64)>::empty();
    let s = push_nonzero(s, Collateral::Lpusd, u.lpusd_amount);
    let s = push_nonzero(s, Collateral::Lpsol, u.lpsol_amount);
    let s = push_nonzero(s, Collateral::Lpbtc, u.lpbtc_amount);
    let s = push_nonzero(s, Collateral::Lpeth, u.lpeth_amount);
    let s = push_nonzero(s, Collateral::Msol, u.msol_amount);
    let s = push_nonzero(s, Collateral::Btc, u.btc_amount);
    let s = push_nonzero(s, Collateral::Usdc, u.usdc_amount);
    let s = push_nonzero(s, Collateral::Eth, u.eth_amount);
    let s = push_nonzero(s, Collateral::Ust, u.ust_amount);
    let s = push_nonzero(s, Collateral::Srm, u.srm_amount);
    let s = push_nonzero(s, Collateral::Scnsol, u.scnsol_amount);
    let s = push_nonzero(s, Collateral::Stsol, u.stsol_amount);
    let s = push_nonzero(s, Collateral::Usdt, u.usdt_amount);
    s
}

/// The position emptied: nothing deposited, nothing borrowed.
pub open spec fn cleared(u: UserAccount) -> UserAccount {
    UserAccount {
        borrowed_lpusd: 0,
        borrowed_lpsol: 0,
        borrowed_lpbtc: 0,
        borrowed_lpeth: 0,
        btc_amount: 0,
        sol_amount: 0,
        usdc_amount: 0,
        eth_amount: 0,
        msol_amount: 0,
        ust_amount: 0,
        srm_amount: 0,
        scnsol_amount: 0,
        stsol_amount: 0,
        usdt_amount: 0,
        lpsol_amount: 0,
        lpusd_amount: 0,
        lpeth_amount: 0,
        lpbtc_amount: 0,
        ..u
    }
}

/// Appends `(a, v)` to `transfers` where `v` is not zero.
fn push_transfer(transfers: &mut Vec<(Collateral, u64)>, a: Collateral, v: u64)
    ensures
        final(transfers)@ == push_nonzero(old(transfers)@, a, v),
{
    if v > 0 {
        transfers.push((a, v));
    }
}

/// What a liquidation hands over to the auction: the token amounts, in
/// order, and the lamports.
pub struct Liquidation {
    pub tokens: Vec<(Collateral, u64)>,
    pub lamports: u64,
}

/// What `liquidate_collateral` reads and writes.
pub struct LiquidateCollateral {
    pub program_id: Pubkey,
    /// Address of the program's state account.
    pub state_account: Pubkey,
    pub user_account: UserAccount,
}

/// Liquidates a position, `program_authority` being the program's derived
/// state address: everything it deposited goes to the auction and the
/// position is emptied. On success the caller makes the returned token
/// transfers from the protocol's pools to the auction's and moves the
/// returned lamports from the state account to the auction.
pub fn liquidate_collateral_with_authority(
    ctx: &mut LiquidateCollateral,
    program_authority: Option<Pubkey>,
) -> (r: Result<Liquidation, ErrorCode>)
    ensures
        program_authority != Some(old(ctx).state_account) ==> r is Err && r->Err_0
            == ErrorCode::InvalidOwner && *final(ctx) == *old(ctx),
        program_authority == Some(old(ctx).state_account) ==> {
            &&& r is Ok
            &&& r->Ok_0.tokens@ == liquidation_transfers(old(ctx).user_account)
            &&& r->Ok_0.lamports == old(ctx).user_account.sol_amount
            &&& *final(ctx) == LiquidateCollateral { user_account: cleared(old(ctx).user_account), ..*old(ctx) }
        },
{
    let u = ctx.user_account;
    let authorized = match program_authority {
        Some(k) => k.key_eq(&ctx.state_account),
        None => false,
    };
    if !authorized {
        return Err(ErrorCode::InvalidOwner);
    }
    let mut tokens: Vec<(Collateral, u64)> = Vec::new();
    push_transfer(&mut tokens, Collateral::Lpusd, u.lpusd_amount);
    push_transfer(&mut tokens, Collateral::Lpsol, u.lpsol_amount);
    push_transfer(&mut tokens, Collateral::Lpbtc, u.lpbtc_amount);
    push_transfer(&mut tokens, Collateral::Lpeth, u.lpeth_amount);
    push_transfer(&mut tokens, Collateral::Msol, u.msol_amount);
    push_transfer(&mut tokens, Collateral::Btc, u.btc_amount);
    push_transfer(&mut tokens, Collateral::Usdc, u.usdc_amount);
    push_transfer(&mut tokens, Collateral::Eth, u.eth_amount);
    push_transfer(&mut tokens, Collateral::Ust, u.ust_amount);
    push_transfer(&mut tokens, Collateral::Srm, u.srm_amount);
    push_transfer(&mut tokens, Collateral::Scnsol, u.scnsol_amount);
    push_transfer(&mut tokens, Collateral::Stsol, u.stsol_amount);
    push_transfer(&mut tokens, Collateral::Usdt, u.usdt_amount);
    ctx.user_account = UserAccount {
        borrowed_lpusd: 0,
        borrowed_lpsol: 0,
        borrowed_lpbtc: 0,
        borrowed_lpeth: 0,
        btc_amount: 0,
        sol_amount: 0,
        usdc_amount: 0,
        eth_amount: 0,
        msol_amount: 0,
        ust_amount: 0,
        srm_amount: 0,
        scnsol_amount: 0,
        stsol_amount: 0,
        usdt_amount: 0,
        lpsol_amount: 0,
        lpusd_amount: 0,
        lpeth_amount: 0,
        lpbtc_amount: 0,
        ..u
    };
    Ok(Liquidation { tokens, lamports: u.sol_amount })
}

/// Liquidates a position: everything it deposited goes to the auction and
/// the position is emptied (see `liquidate_collateral_with_authority`).
pub fn liquidate_collateral(ctx: &mut LiquidateCollateral) -> (r: Result<Liquidation, ErrorCode>)
    ensures
        derived_program_key(PREFIX@, old(ctx).program_id) != Some(old(ctx).state_account) ==> r is Err
            && r->Err_0 == ErrorCode::InvalidOwner && *final(ctx) == *old(ctx),
        derived_program_key(PREFIX@, old(ctx).program_id) == Some(old(ctx).state_account) ==> {
            &&& r is Ok
            &&& r->Ok_0.tokens@ == liquidation_transfers(old(ctx).user_account)
            &&& r->Ok_0.lamports == old(ctx).user_account.sol_amount
            &&& *final(ctx) == LiquidateCollateral { user_account: cleared(old(ctx).user_account), ..*old(ctx) }
        },
{
    let program_authority = find_program_key(PREFIX, &ctx.program_id);
    liquidate_collateral_with_authority(ctx, program_authority)
}

/// What `deposit_sol` reads and writes.
pub struct DepositSOL {
    pub user_authority: Pubkey,
    /// The user's lamport balance.
    pub user_lamports: u64,
    pub config: Config,
    pub user_account: UserAccount,
    /// Addresses on the protocol's whitelist.
    pub whitelist: Vec<Pubkey>,
}

/// The position with `amount` more lamports deposited.
pub open spec fn sol_deposited(u: UserAccount, amount: u64) -> UserAccount {
    UserAccount { sol_amount: (u.sol_amount + amount) as u64, ..u }
}

/// The configuration with `amount` more lamports deposited in all.
pub open spec fn sol_deposit_recorded(c: Config, amount: u64) -> Config {
    Config { total_deposited_sol: (c.total_deposited_sol + amount) as u64, ..c }
}

/// Deposits `amount` lamports. On success the caller moves `amount` lamports
/// from the user to the program's state account and, where the result is
/// `Ok(true)`, adds the user to the whitelist.
pub fn deposit_sol(ctx: &mut DepositSOL, amount: u64) -> (r: Result<bool, ErrorCode>)
    requires
        old(ctx).user_lamports >= amount ==> {
            &&& old(ctx).user_account.sol_amount + amount <= u64::MAX
            &&& old(ctx).config.total_deposited_sol + amount <= u64::MAX
        },
    ensures
        old(ctx).user_lamports < amount ==> r == Err::<bool, ErrorCode>(ErrorCode::InsufficientAmount)
            && *final(ctx) == *old(ctx),
        old(ctx).user_lamports >= amount ==> {
            &&& r == Ok::<bool, ErrorCode>(!old(ctx).whitelist@.contains(old(ctx).user_authority))
            &&& *final(ctx) == DepositSOL {
                user_account: sol_deposited(old(ctx).user_account, amount),
                config: sol_deposit_recorded(old(ctx).config, amount),
                ..*old(ctx)
            }
        },
{
    if ctx.user_lamports < amount {
        return Err(ErrorCode::InsufficientAmount);
    }
    ctx.user_account.sol_amount = ctx.user_account.sol_amount + amount;
    ctx.config.total_deposited_sol = ctx.config.total_deposited_sol + amount;
    let listed = list_contains(ctx.whitelist.as_slice(), &ctx.user_authority);
    Ok(!listed)
}


/// Whether `repay_token` accepts the token `mint`.
pub open spec fn repay_accepted(c: Config, mint: Pubkey) -> bool {
    mint == c.usdc_mint || mint == c.eth_mint || mint == c.btc_mint || mint == c.lpusd_mint
        || mint == c.lpeth_mint || mint == c.lpbtc_mint || mint == c.lpsol_mint
}

/// The debt a repayment in `mint` reduces: USDC and LpUSD repay LpUSD, BTC
/// and LpBTC repay LpBTC, ETH and LpETH repay LpETH, LpSOL repays LpSOL.
pub open spec fn repay_target(c: Config, mint: Pubkey) -> Option<LpToken> {
    if mint == c.usdc_mint || mint == c.lpusd_mint {
        Some(LpToken::Lpusd)
    } else if mint == c.lpsol_mint {
        Some(LpToken::Lpsol)
    } else if mint == c.lpbtc_mint || mint == c.btc_mint {
        Some(LpToken::Lpbtc)
    } else if mint == c.lpeth_mint || mint == c.eth_mint {
        Some(LpToken::Lpeth)
    } else {
        None
    }
}

/// How a repayment reaches the protocol: underlying tokens are transferred
/// to the pool, LP tokens are burnt (both where the mint is configured as
/// both).
#[derive(Clone, Copy, Debug, PartialEq, Eq, Structural)]
pub struct RepayAction {
    pub transfer: bool,
    pub burn: bool,
}

/// The action a repayment in `mint` takes.
pub open spec fn repay_action(c: Config, mint: Pubkey) -> RepayAction {
    RepayAction {
        transfer: mint == c.usdc_mint || mint == c.eth_mint || mint == c.btc_mint,
        burn: mint == c.lpusd_mint || mint == c.lpeth_mint || mint == c.lpbtc_mint || mint == c.lpsol_mint,
    }
}

/// What `repay_token` reads and writes.
pub struct RepayToken {
    /// Balance of the user's token account.
    pub user_dest_amount: u64,
    /// Mint of the user's token account.
    pub user_dest_mint: Pubkey,
    pub config: Config,
    pub user_account: UserAccount,
}

/// Takes `amount` of `t` off the position's and the protocol's debt.
pub fn record_repayment(u: &UserAccount, c: &Config, t: LpToken, amount: u64) -> (r: (UserAccount, Config))
    requires
        amount <= borrowed_of(*u, t),
        amount <= total_borrowed_of(*c, t),
    ensures
        r.0 == with_borrowed(*u, t, (borrowed_of(*u, t) - amount) as u64),
        r.1 == with_total_borrowed(*c, t, (total_borrowed_of(*c, t) - amount) as u64),
{
    match t {
        LpToken::Lpusd => (
            UserAccount { borrowed_lpusd: u.borrowed_lpusd - amount, ..*u },
            Config { total_borrowed_lpusd: c.total_borrowed_lpusd - amount, ..*c },
        ),
        LpToken::Lpsol => (
            UserAccount { borrowed_lpsol: u.borrowed_lpsol - amount, ..*u },
            Config { total_borrowed_lpsol: c.total_borrowed_lpsol - amount, ..*c },
        ),
        LpToken::Lpbtc => (
            UserAccount { borrowed_lpbtc: u.borrowed_lpbtc - amount, ..*u },
            Config { total_borrowed_lpbtc: c.total_borrowed_lpbtc - amount, ..*c },
        ),
        LpToken::Lpeth => (
            UserAccount { borrowed_lpeth: u.borrowed_lpeth - amount, ..*u },
            Config { total_borrowed_lpeth: c.total_borrowed_lpeth - amount, ..*c },
        ),
    }
}

/// `repay_target`, computed.
fn find_repay_target(c: &Config, mint: &Pubkey) -> (r: Option<LpToken>)
    ensures
        r == repay_target(*c, *mint),
{
    if mint.key_eq(&c.usdc_mint) || mint.key_eq(&c.lpusd_mint) {
        Some(LpToken::Lpusd)
    } else if mint.key_eq(&c.lpsol_mint) {
        Some(LpToken::Lpsol)
    } else if mint.key_eq(&c.lpbtc_mint) || mint.key_eq(&c.btc_mint) {
        Some(LpToken::Lpbtc)
    } else if mint.key_eq(&c.lpeth_mint) || mint.key_eq(&c.eth_mint) {
        Some(LpToken::Lpeth)
    } else {
        None
    }
}

/// Whether a repayment of `amount` stays within the debt it repays, where
/// it gets that far (the program aborts on an underflow where it does not).
pub open spec fn repay_fits(ctx: RepayToken, amount: u64) -> bool {
    ctx.user_dest_amount >= amount ==> (repay_target(ctx.config, ctx.user_dest_mint) matches Some(t) ==> {
        &&& amount <= borrowed_of(ctx.user_account, t)
        &&& amount <= total_borrowed_of(ctx.config, t)
    })
}

/// `repay_fits`, computed.
pub fn check_repay_fits(ctx: &RepayToken, amount: u64) -> (r: bool)
    ensures
        r == repay_fits(*ctx, amount),
{
    if ctx.user_dest_amount < amount {
        return true;
    }
    match find_repay_target(&ctx.config, &ctx.user_dest_mint) {
        None => true,
        Some(t) => amount <= borrowed_amount(&ctx.user_account, t) && amount <= total_borrowed_amount(&ctx.config, t),
    }
}

/// How a repayment of `amount` leaves its accounts, and what it answers.
pub open spec fn repay_done(pre: RepayToken, post: RepayToken, amount: u64, r: Result<RepayAction, ErrorCode>) -> bool {
    &&& (pre.user_dest_amount < amount ==> r == Err::<RepayAction, ErrorCode>(ErrorCode::InsufficientAmount)
        && post == pre)
    &&& (pre.user_dest_amount >= amount && !repay_accepted(pre.config, pre.user_dest_mint) ==> r == Err::<
        RepayAction,
        ErrorCode,
    >(ErrorCode::InvalidToken) && post == pre)
    &&& (pre.user_dest_amount >= amount && repay_accepted(pre.config, pre.user_dest_mint) ==> {
        let t = repay_target(pre.config, pre.user_dest_mint)->Some_0;
        &&& repay_target(pre.config, pre.user_dest_mint) is Some
        &&& r == Ok::<RepayAction, ErrorCode>(repay_action(pre.config, pre.user_dest_mint))
        &&& post == RepayToken {
            user_account: with_borrowed(pre.user_account, t, (borrowed_of(pre.user_account, t) - amount) as u64),
            config: with_total_borrowed(pre.config, t, (total_borrowed_of(pre.config, t) - amount) as u64),
            ..pre
        }
    })
}

/// Repays `amount` of debt with the token `ctx.user_dest_mint`. On success
/// the caller transfers `amount` to the pool and/or burns it, as the
/// returned action says.
pub fn repay_token(ctx: &mut RepayToken, amount: u64) -> (r: Result<RepayAction, ErrorCode>)
    requires
        repay_fits(*old(ctx), amount),
    ensures
        old(ctx).user_dest_amount < amount ==> r == Err::<RepayAction, ErrorCode>(
            ErrorCode::InsufficientAmount,
        ) && *final(ctx) == *old(ctx),
        old(ctx).user_dest_amount >= amount && !repay_accepted(old(ctx).config, old(ctx).user_dest_mint)
            ==> r == Err::<RepayAction, ErrorCode>(ErrorCode::InvalidToken) && *final(ctx) == *old(ctx),
        old(ctx).user_dest_amount >= amount && repay_accepted(old(ctx).config, old(ctx).user_dest_mint)
            ==> {
            let t = repay_target(old(ctx).config, old(ctx).user_dest_mint)->Some_0;
            &&& repay_target(old(ctx).config, old(ctx).user_dest_mint) is Some
            &&& r == Ok::<RepayAction, ErrorCode>(repay_action(old(ctx).config, old(ctx).user_dest_mint))
            &&& *final(ctx) == RepayToken {
                user_account: with_borrowed(old(ctx).user_account, t, (borrowed_of(old(ctx).user_account, t) - amount) as u64),
                config: with_total_borrowed(old(ctx).config, t, (total_borrowed_of(old(ctx).config, t) - amount) as u64),
                ..*old(ctx)
            }
        },
        repay_done(*old(ctx), *final(ctx), amount, r),
{
    if ctx.user_dest_amount < amount {
        return Err(ErrorCode::InsufficientAmount);
    }
    let c = &ctx.config;
    let mint = &ctx.user_dest_mint;
    let is_usdc = mint.key_eq(&c.usdc_mint);
    let is_eth = mint.key_eq(&c.eth_mint);
    let is_btc = mint.key_eq(&c.btc_mint);
    let is_lpusd = mint.key_eq(&c.lpusd_mint);
    let is_lpeth = mint.key_eq(&c.lpeth_mint);
    let is_lpbtc = mint.key_eq(&c.lpbtc_mint);
    let is_lpsol = mint.key_eq(&c.lpsol_mint);
    if !is_usdc && !is_eth && !is_btc && !is_lpusd && !is_lpeth && !is_lpbtc && !is_lpsol {
        return Err(ErrorCode::InvalidToken);
    }
    let action = RepayAction {
        transfer: is_usdc || is_eth || is_btc,
        burn: is_lpusd || is_lpeth || is_lpbtc || is_lpsol,
    };
    let t = if is_usdc || is_lpusd {
        LpToken::Lpusd
    } else if is_lpsol {
        LpToken::Lpsol
    } else if is_lpbtc || is_btc {
        LpToken::Lpbtc
    } else {
        LpToken::Lpeth
    };
    let (u1, c1) = record_repayment(&ctx.user_account, &ctx.config, t, amount);
    ctx.user_account = u1;
    ctx.config = c1;
    Ok(action)
}

/// What `repay_sol` reads and writes.
pub struct RepaySOL {
    /// The user's lamport balance.
    pub user_lamports: u64,
    pub config: Config,
    pub user_account: UserAccount,
}

/// Repays `amount` lamports of LpSOL debt. On success the caller moves
/// `amount` lamports from the user to the program's state account.
pub fn repay_sol(ctx: &mut RepaySOL, amount: u64) -> (r: Result<(), ErrorCode>)
    requires
        old(ctx).user_lamports >= amount && amount <= old(ctx).user_account.borrowed_lpsol && amount != 0
            ==> amount <= old(ctx).config.total_borrowed_lpsol,
    ensures
        old(ctx).user_lamports < amount ==> r == Err::<(), ErrorCode>(ErrorCode::InsufficientAmount)
            && *final(ctx) == *old(ctx),
        old(ctx).user_lamports >= amount && (amount > old(ctx).user_account.borrowed_lpsol || amount == 0)
            ==> r == Err::<(), ErrorCode>(ErrorCode::InvalidAmount) && *final(ctx) == *old(ctx),
        old(ctx).user_lamports >= amount && amount <= old(ctx).user_account.borrowed_lpsol && amount != 0
            ==> r is Ok && *final(ctx) == (RepaySOL {
            user_account: with_borrowed(
                old(ctx).user_account,
                LpToken::Lpsol,
                (old(ctx).user_account.borrowed_lpsol - amount) as u64,
            ),
            config: with_total_borrowed(
                old(ctx).config,
                LpToken::Lpsol,
                (old(ctx).config.total_borrowed_lpsol - amount) as u64,
            ),
            ..*old(ctx)
        }),
{
    if ctx.user_lamports < amount {
        return Err(ErrorCode::InsufficientAmount);
    }
    if amount > ctx.user_account.borrowed_lpsol || amount == 0 {
        return Err(ErrorCode::InvalidAmount);
    }
    ctx.user_account.borrowed_lpsol = ctx.user_account.borrowed_lpsol - amount;
    ctx.config.total_borrowed_lpsol = ctx.config.total_borrowed_lpsol - amount;
    Ok(())
}

/// What `initialize` reads: the addresses it records.
pub struct Initialize {
    pub authority: Pubkey,
    pub state_account: Pubkey,
    pub usdc_mint: Pubkey,
    pub btc_mint: Pubkey,
    pub msol_mint: Pubkey,
    pub eth_mint: Pubkey,
    pub ust_mint: Pubkey,
    pub srm_mint: Pubkey,
    pub scnsol_mint: Pubkey,
    pub stsol_mint: Pubkey,
    pub usdt_mint: Pubkey,
    pub lpsol_mint: Pubkey,
    pub lpusd_mint: Pubkey,
    pub lpbtc_mint: Pubkey,
    pub lpeth_mint: Pubkey,
    pub pool_lpsol: Pubkey,
    pub pool_lpusd: Pubkey,
    pub pool_lpbtc: Pubkey,
    pub pool_lpeth: Pubkey,
}

/// The configuration `initialize` writes into a fresh account: the mints and
/// LP pools given, every total zero, the other pools unset.
pub open spec fn initial_config(ctx: Initialize) -> Config {
    Config {
        state_account: ctx.state_account,
        total_borrowed_lpusd: 0,
        total_borrowed_lpsol: 0,
        total_borrowed_lpbtc: 0,
        total_borrowed_lpeth: 0,
        total_deposited_sol: 0,
        total_deposited_usdc: 0,
        total_deposited_btc: 0,
        total_deposited_eth: 0,
        total_deposited_msol: 0,
        total_deposited_ust: 0,
        total_deposited_srm: 0,
        total_deposited_scnsol: 0,
        total_deposited_stsol: 0,
        total_deposited_usdt: 0,
        total_deposited_lpsol: 0,
        total_deposited_lpusd: 0,
        total_deposited_lpbtc: 0,
        total_deposited_lpeth: 0,
        btc_mint: ctx.btc_mint,
        usdc_mint: ctx.usdc_mint,
        eth_mint: ctx.eth_mint,
        msol_mint: ctx.msol_mint,
        ust_mint: ctx.ust_mint,
        srm_mint: ctx.srm_mint,
        scnsol_mint: ctx.scnsol_mint,
        stsol_mint: ctx.stsol_mint,
        usdt_mint: ctx.usdt_mint,
        lpusd_mint: ctx.lpusd_mint,
        lpsol_mint: ctx.lpsol_mint,
        lpbtc_mint: ctx.lpbtc_mint,
        lpeth_mint: ctx.lpeth_mint,
        pool_btc: zero_key(),
        pool_usdc: zero_key(),
        pool_msol: zero_key(),
        pool_eth: zero_key(),
        pool_ust: zero_key(),
        pool_srm: zero_key(),
        pool_scnsol: zero_key(),
        pool_stsol: zero_key(),
        pool_usdt: zero_key(),
        pool_lpsol: ctx.pool_lpsol,
        pool_lpusd: ctx.pool_lpusd,
        pool_lpbtc: ctx.pool_lpbtc,
        pool_lpeth: ctx.pool_lpeth,
    }
}

/// Sets up the protocol: the state account, owned by the authority, and
/// the configuration.
pub fn initialize(ctx: &Initialize) -> (r: (StateAccount, Config))
    ensures
        r.0 == (StateAccount { owner: ctx.authority, liquidation_run: false }),
        r.1 == initial_config(*ctx),
{
    let zero = zero_pubkey();
    let config = Config {
        state_account: ctx.state_account,
        total_borrowed_lpusd: 0,
        total_borrowed_lpsol: 0,
        total_borrowed_lpbtc: 0,
        total_borrowed_lpeth: 0,
        total_deposited_sol: 0,
        total_deposited_usdc: 0,
        total_deposited_btc: 0,
        total_deposited_eth: 0,
        total_deposited_msol: 0,
        total_deposited_ust: 0,
        total_deposited_srm: 0,
        total_deposited_scnsol: 0,
        total_deposited_stsol: 0,
        total_deposited_usdt: 0,
        total_deposited_lpsol: 0,
        total_deposited_lpusd: 0,
        total_deposited_lpbtc: 0,
        total_deposited_lpeth: 0,
        btc_mint: ctx.btc_mint,
        usdc_mint: ctx.usdc_mint,
        eth_mint: ctx.eth_mint,
        msol_mint: ctx.msol_mint,
        ust_mint: ctx.ust_mint,
        srm_mint: ctx.srm_mint,
        scnsol_mint: ctx.scnsol_mint,
        stsol_mint: ctx.stsol_mint,
        usdt_mint: ctx.usdt_mint,
        lpusd_mint: ctx.lpusd_mint,
        lpsol_mint: ctx.lpsol_mint,
        lpbtc_mint: ctx.lpbtc_mint,
        lpeth_mint: ctx.lpeth_mint,
        pool_btc: zero,
        pool_usdc: zero,
        pool_msol: zero,
        pool_eth: zero,
        pool_ust: zero,
        pool_srm: zero,
        pool_scnsol: zero,
        pool_stsol: zero,
        pool_usdt: zero,
        pool_lpsol: ctx.pool_lpsol,
        pool_lpusd: ctx.pool_lpusd,
        pool_lpbtc: ctx.pool_lpbtc,
        pool_lpeth: ctx.pool_lpeth,
    };
    (StateAccount { owner: ctx.authority, liquidation_run: false }, config)
}

/// What `initialize_pool` reads and writes.
pub struct InitializePool {
    pub authority: Pubkey,
    /// Address of the state account.
    pub state_account_key: Pubkey,
    pub state_account: StateAccount,
    pub config: Config,
    pub pool_btc: Pubkey,
    pub pool_usdc: Pubkey,
    pub pool_msol: Pubkey,
    pub pool_eth: Pubkey,
    pub pool_ust: Pubkey,
    pub pool_srm: Pubkey,
    pub pool_scnsol: Pubkey,
    pub pool_stsol: Pubkey,
    pub pool_usdt: Pubkey,
}

/// The configuration with the collateral pools recorded.
pub open spec fn pooled_config(ctx: InitializePool) -> Config {
    Config {
        state_account: ctx.state_account_key,
        pool_btc: ctx.pool_btc,
        pool_usdc: ctx.pool_usdc,
        pool_msol: ctx.pool_msol,
        pool_eth: ctx.pool_eth,
        pool_ust: ctx.pool_ust,
        pool_srm: ctx.pool_srm,
        pool_scnsol: ctx.pool_scnsol,
        pool_stsol: ctx.pool_stsol,
        pool_usdt: ctx.pool_usdt,
        ..ctx.config
    }
}

/// Records the collateral pools; only the state account's owner may.
pub fn initialize_pool(ctx: &mut InitializePool) -> (r: Result<(), ErrorCode>)
    ensures
        old(ctx).state_account.owner != old(ctx).authority ==> r == Err::<(), ErrorCode>(ErrorCode::InvalidOwner)
            && *final(ctx) == *old(ctx),
        old(ctx).state_account.owner == old(ctx).authority ==> r is Ok && *final(ctx) == (InitializePool {
            config: pooled_config(*old(ctx)),
            ..*old(ctx)
        }),
{
    if !ctx.state_account.owner.key_eq(&ctx.authority) {
        return Err(ErrorCode::InvalidOwner);
    }
    ctx.config = Config {
        state_account: ctx.state_account_key,
        pool_btc: ctx.pool_btc,
        pool_usdc: ctx.pool_usdc,
        pool_msol: ctx.pool_msol,
        pool_eth: ctx.pool_eth,
        pool_ust: ctx.pool_ust,
        pool_srm: ctx.pool_srm,
        pool_scnsol: ctx.pool_scnsol,
        pool_stsol: ctx.pool_stsol,
        pool_usdt: ctx.pool_usdt,
        ..ctx.config
    };
    Ok(())
}

/// A fresh position owned by `owner`: nothing deposited or borrowed.
pub open spec fn empty_position(owner: Pubkey, bump: u8) -> UserAccount {
    UserAccount {
        borrowed_lpusd: 0,
        borrowed_lpsol: 0,
        borrowed_lpbtc: 0,
        borrowed_lpeth: 0,
        btc_amount: 0,
        sol_amount: 0,
        usdc_amount: 0,
        eth_amount: 0,
        msol_amount: 0,
        ust_amount: 0,
        srm_amount: 0,
        scnsol_amount: 0,
        stsol_amount: 0,
        usdt_amount: 0,
        lpsol_amount: 0,
        lpusd_amount: 0,
        lpeth_amount: 0,
        lpbtc_amount: 0,
        owner,
        bump,
    }
}

/// What `init_user_account` reads.
pub struct InitUserAccount {
    pub user_authority: Pubkey,
}

/// Opens a position for the signing user.
pub fn init_user_account(ctx: &InitUserAccount, bump: u8) -> (u: UserAccount)
    ensures
        u == empty_position(ctx.user_authority, bump),
{
    UserAccount {
        borrowed_lpusd: 0,
        borrowed_lpsol: 0,
        borrowed_lpbtc: 0,
        borrowed_lpeth: 0,
        btc_amount: 0,
        sol_amount: 0,
        usdc_amount: 0,
        eth_amount: 0,
        msol_amount: 0,
        ust_amount: 0,
        srm_amount: 0,
        scnsol_amount: 0,
        stsol_amount: 0,
        usdt_amount: 0,
        lpsol_amount: 0,
        lpusd_amount: 0,
        lpeth_amount: 0,
        lpbtc_amount: 0,
        owner: ctx.user_authority,
        bump,
    }
}

/// What `update_config` reads and writes.
pub struct UpdateConfig {
    pub config: Config,
    pub btc_mint: Pubkey,
    pub usdc_mint: Pubkey,
    pub eth_mint: Pubkey,
    pub msol_mint: Pubkey,
    pub ust_mint: Pubkey,
    pub srm_mint: Pubkey,
    pub scnsol_mint: Pubkey,
    pub stsol_mint: Pubkey,
    pub usdt_mint: Pubkey,
    pub lpusd_mint: Pubkey,
    pub lpsol_mint: Pubkey,
    pub lpbtc_mint: Pubkey,
    pub lpeth_mint: Pubkey,
    pub pool_btc: Pubkey,
    pub pool_usdc: Pubkey,
    pub pool_msol: Pubkey,
    pub pool_eth: Pubkey,
    pub pool_ust: Pubkey,
    pub pool_srm: Pubkey,
    pub pool_scnsol: Pubkey,
    pub pool_stsol: Pubkey,
    pub pool_usdt: Pubkey,
    pub pool_lpsol: Pubkey,
    pub pool_lpusd: Pubkey,
    pub pool_lpbtc: Pubkey,
    pub pool_lpeth: Pubkey,
}

/// The configuration with every mint and pool replaced by the given ones.
pub open spec fn updated_config(ctx: UpdateConfig) -> Config {
    Config {
        btc_mint: ctx.btc_mint,
        usdc_mint: ctx.usdc_mint,
        eth_mint: ctx.eth_mint,
        msol_mint: ctx.msol_mint,
        ust_mint: ctx.ust_mint,
        srm_mint: ctx.srm_mint,
        scnsol_mint: ctx.scnsol_mint,
        stsol_mint: ctx.stsol_mint,
        usdt_mint: ctx.usdt_mint,
        lpusd_mint: ctx.lpusd_mint,
        lpsol_mint: ctx.lpsol_mint,
        lpbtc_mint: ctx.lpbtc_mint,
        lpeth_mint: ctx.lpeth_mint,
        pool_btc: ctx.pool_btc,
        pool_usdc: ctx.pool_usdc,
        pool_msol: ctx.pool_msol,
        pool_eth: ctx.pool_eth,
        pool_ust: ctx.pool_ust,
        pool_srm: ctx.pool_srm,
        pool_scnsol: ctx.pool_scnsol,
        pool_stsol: ctx.pool_stsol,
        pool_usdt: ctx.pool_usdt,
        pool_lpsol: ctx.pool_lpsol,
        pool_lpusd: ctx.pool_lpusd,
        pool_lpbtc: ctx.pool_lpbtc,
        pool_lpeth: ctx.pool_lpeth,
        ..ctx.config
    }
}

/// Replaces every mint and pool address in the configuration.
pub fn update_config(ctx: &mut UpdateConfig) -> (r: Result<(), ErrorCode>)
    ensures
        r is Ok,
        *final(ctx) == (UpdateConfig { config: updated_config(*old(ctx)), ..*old(ctx) }),
{
    ctx.config = Config {
        btc_mint: ctx.btc_mint,
        usdc_mint: ctx.usdc_mint,
        eth_mint: ctx.eth_mint,
        msol_mint: ctx.msol_mint,
        ust_mint: ctx.ust_mint,
        srm_mint: ctx.srm_mint,
        scnsol_mint: ctx.scnsol_mint,
        stsol_mint: ctx.stsol_mint,
        usdt_mint: ctx.usdt_mint,
        lpusd_mint: ctx.lpusd_mint,
        lpsol_mint: ctx.lpsol_mint,
        lpbtc_mint: ctx.lpbtc_mint,
        lpeth_mint: ctx.lpeth_mint,
        pool_btc: ctx.pool_btc,
        pool_usdc: ctx.pool_usdc,
        pool_msol: ctx.pool_msol,
        pool_eth: ctx.pool_eth,
        pool_ust: ctx.pool_ust,
        pool_srm: ctx.pool_srm,
        pool_scnsol: ctx.pool_scnsol,
        pool_stsol: ctx.pool_stsol,
        pool_usdt: ctx.pool_usdt,
        pool_lpsol: ctx.pool_lpsol,
        pool_lpusd: ctx.pool_lpusd,
        pool_lpbtc: ctx.pool_lpbtc,
        pool_lpeth: ctx.pool_lpeth,
        ..ctx.config
    };
    Ok(())
}

/// What `create_user_account_lending` reads.
pub struct CreateUserAccountLending {
    pub program_id: Pubkey,
    /// Address of the program's state account.
    pub state_account: Pubkey,
}

/// Checks that the program may sign for its state account when opening its
/// positions in the lending programs; on success the caller opens them.
pub fn create_user_account_lending(ctx: &CreateUserAccountLending) -> (r: Result<(), ErrorCode>)
    ensures
        r is Ok <==> derived_program_key(PREFIX@, ctx.program_id) == Some(ctx.state_account),
        r is Err ==> r->Err_0 == ErrorCode::InvalidOwner,
{
    match find_program_key(PREFIX, &ctx.program_id) {
        Some(k) => if k.key_eq(&ctx.state_account) {
            Ok(())
        } else {
            Err(ErrorCode::InvalidOwner)
        },
        None => Err(ErrorCode::InvalidOwner),
    }
}

/// The four LP token mints are distinct.
pub open spec fn lp_mints_distinct(c: Config) -> bool {
    &&& c.lpusd_mint != c.lpsol_mint
    &&& c.lpusd_mint != c.lpbtc_mint
    &&& c.lpusd_mint != c.lpeth_mint
    &&& c.lpsol_mint != c.lpbtc_mint
    &&& c.lpsol_mint != c.lpeth_mint
    &&& c.lpbtc_mint != c.lpeth_mint
}

/// The thirteen collateral token mints are distinct.
pub open spec fn collateral_mints_distinct(c: Config) -> bool {
    &&& c.usdc_mint != c.msol_mint
    &&& c.usdc_mint != c.eth_mint
    &&& c.usdc_mint != c.btc_mint
    &&& c.usdc_mint != c.ust_mint
    &&& c.usdc_mint != c.srm_mint
    &&& c.usdc_mint != c.scnsol_mint
    &&& c.usdc_mint != c.stsol_mint
    &&& c.usdc_mint != c.usdt_mint
    &&& c.usdc_mint != c.lpbtc_mint
    &&& c.usdc_mint != c.lpeth_mint
    &&& c.usdc_mint != c.lpusd_mint
    &&& c.usdc_mint != c.lpsol_mint
    &&& c.msol_mint != c.eth_mint
    &&& c.msol_mint != c.btc_mint
    &&& c.msol_mint != c.ust_mint
    &&& c.msol_mint != c.srm_mint
    &&& c.msol_mint != c.scnsol_mint
    &&& c.msol_mint != c.stsol_mint
    &&& c.msol_mint != c.usdt_mint
    &&& c.msol_mint != c.lpbtc_mint
    &&& c.msol_mint != c.lpeth_mint
    &&& c.msol_mint != c.lpusd_mint
    &&& c.msol_mint != c.lpsol_mint
    &&& c.eth_mint != c.btc_mint
    &&& c.eth_mint != c.ust_mint
    &&& c.eth_mint != c.srm_mint
    &&& c.eth_mint != c.scnsol_mint
    &&& c.eth_mint != c.stsol_mint
    &&& c.eth_mint != c.usdt_mint
    &&& c.eth_mint != c.lpbtc_mint
    &&& c.eth_mint != c.lpeth_mint
    &&& c.eth_mint != c.lpusd_mint
    &&& c.eth_mint != c.lpsol_mint
    &&& c.btc_mint != c.ust_mint
    &&& c.btc_mint != c.srm_mint
    &&& c.btc_mint != c.scnsol_mint
    &&& c.btc_mint != c.stsol_mint
    &&& c.btc_mint != c.usdt_mint
    &&& c.btc_mint != c.lpbtc_mint
    &&& c.btc_mint != c.lpeth_mint
    &&& c.btc_mint != c.lpusd_mint
    &&& c.btc_mint != c.lpsol_mint
    &&& c.ust_mint != c.srm_mint
    &&& c.ust_mint != c.scnsol_mint
    &&& c.ust_mint != c.stsol_mint
    &&& c.ust_mint != c.usdt_mint
    &&& c.ust_mint != c.lpbtc_mint
    &&& c.ust_mint != c.lpeth_mint
    &&& c.ust_mint != c.lpusd_mint
    &&& c.ust_mint != c.lpsol_mint
    &&& c.srm_mint != c.scnsol_mint
    &&& c.srm_mint != c.stsol_mint
    &&& c.srm_mint != c.usdt_mint
    &&& c.srm_mint != c.lpbtc_mint
    &&& c.srm_mint != c.lpeth_mint
    &&& c.srm_mint != c.lpusd_mint
    &&& c.srm_mint != c.lpsol_mint
    &&& c.scnsol_mint != c.stsol_mint
    &&& c.scnsol_mint != c.usdt_mint
    &&& c.scnsol_mint != c.lpbtc_mint
    &&& c.scnsol_mint != c.lpeth_mint
    &&& c.scnsol_mint != c.lpusd_mint
    &&& c.scnsol_mint != c.lpsol_mint
    &&& c.stsol_mint != c.usdt_mint
    &&& c.stsol_mint != c.lpbtc_mint
    &&& c.stsol_mint != c.lpeth_mint
    &&& c.stsol_mint != c.lpusd_mint
    &&& c.stsol_mint != c.lpsol_mint
    &&& c.usdt_mint != c.lpbtc_mint
    &&& c.usdt_mint != c.lpeth_mint
    &&& c.usdt_mint != c.lpusd_mint
    &&& c.usdt_mint != c.lpsol_mint
    &&& c.lpbtc_mint != c.lpeth_mint
    &&& c.lpbtc_mint != c.lpusd_mint
    &&& c.lpbtc_mint != c.lpsol_mint
    &&& c.lpeth_mint != c.lpusd_mint
    &&& c.lpeth_mint != c.lpsol_mint
    &&& c.lpusd_mint != c.lpsol_mint
}

/// A borrow of an LP token's mint is priced at that token's underlying
/// asset and booked as debt in that token alone: it goes through exactly
/// when `LTV` percent of the collateral, less what is already borrowed,
/// exceeds the amount's value at that price (and the program signs), and it
/// then raises the user's and the protocol's debt in that token by the
/// amount, leaving every other debt and balance as it was.
pub proof fn borrow_books_the_lp_token_named(
    pre: BorrowLpToken,
    post: BorrowLpToken,
    amount: u64,
    p: Prices,
    program_authority: Option<Pubkey>,
    r: Result<(), ErrorCode>,
)
    requires
        lp_mints_distinct(pre.config),
        amount >= 1,
        borrow_done(pre, post, amount, p, program_authority, r),
    ensures
        pre.collateral_mint == pre.config.lpusd_mint ==> (r is Ok <==> (
            collateral_value(pre.user_account, p) * LTV / (DOMINATOR as int) - borrowed_value(pre.user_account, p)
                > amount * p.usdc
            && program_authority == Some(pre.state_account)
        )),
        pre.collateral_mint == pre.config.lpusd_mint && r is Ok ==> post.user_account == (UserAccount {
            borrowed_lpusd: (pre.user_account.borrowed_lpusd + amount) as u64,
            ..pre.user_account
        }) && post.config == (Config {
            total_borrowed_lpusd: (pre.config.total_borrowed_lpusd + amount) as u64,
            ..pre.config
        }),
        pre.collateral_mint == pre.config.lpsol_mint ==> (r is Ok <==> (
            collateral_value(pre.user_account, p) * LTV / (DOMINATOR as int) - borrowed_value(pre.user_account, p)
                > amount * p.sol
            && program_authority == Some(pre.state_account)
        )),
        pre.collateral_mint == pre.config.lpsol_mint && r is Ok ==> post.user_account == (UserAccount {
            borrowed_lpsol: (pre.user_account.borrowed_lpsol + amount) as u64,
            ..pre.user_account
        }) && post.config == (Config {
            total_borrowed_lpsol: (pre.config.total_borrowed_lpsol + amount) as u64,
            ..pre.config
        }),
        pre.collateral_mint == pre.config.lpbtc_mint ==> (r is Ok <==> (
            collateral_value(pre.user_account, p) * LTV / (DOMINATOR as int) - borrowed_value(pre.user_account, p)
                > amount * p.btc
            && program_authority == Some(pre.state_account)
        )),
        pre.collateral_mint == pre.config.lpbtc_mint && r is Ok ==> post.user_account == (UserAccount {
            borrowed_lpbtc: (pre.user_account.borrowed_lpbtc + amount) as u64,
            ..pre.user_account
        }) && post.config == (Config {
            total_borrowed_lpbtc: (pre.config.total_borrowed_lpbtc + amount) as u64,
            ..pre.config
        }),
        pre.collateral_mint == pre.config.lpeth_mint ==> (r is Ok <==> (
            collateral_value(pre.user_account, p) * LTV / (DOMINATOR as int) - borrowed_value(pre.user_account, p)
                > amount * p.eth
            && program_authority == Some(pre.state_account)
        )),
        pre.collateral_mint == pre.config.lpeth_mint && r is Ok ==> post.user_account == (UserAccount {
            borrowed_lpeth: (pre.user_account.borrowed_lpeth + amount) as u64,
            ..pre.user_account
        }) && post.config == (Config {
            total_borrowed_lpeth: (pre.config.total_borrowed_lpeth + amount) as u64,
            ..pre.config
        }),
{
}

/// A token deposit credits exactly the token whose mint it is: the user's
/// balance and the protocol's total of that token grow by the amount and
/// nothing else changes; a mint the protocol does not know changes nothing.
pub proof fn deposit_credits_the_token_named(u: UserAccount, c: Config, mint: Pubkey, amount: u64)
    requires
        collateral_mints_distinct(c),
    ensures
        mint == c.usdc_mint ==> deposited_user(u, c, mint, amount) == (UserAccount {
            usdc_amount: (u.usdc_amount + amount) as u64,
            ..u
        }) && deposited_config(c, mint, amount) == (Config {
            total_deposited_usdc: (c.total_deposited_usdc + amount) as u64,
            ..c
        }),
        mint == c.msol_mint ==> deposited_user(u, c, mint, amount) == (UserAccount {
            msol_amount: (u.msol_amount + amount) as u64,
            ..u
        }) && deposited_config(c, mint, amount) == (Config {
            total_deposited_msol: (c.total_deposited_msol + amount) as u64,
            ..c
        }),
        mint == c.eth_mint ==> deposited_user(u, c, mint, amount) == (UserAccount {
            eth_amount: (u.eth_amount + amount) as u64,
            ..u
        }) && deposited_config(c, mint, amount) == (Config {
            total_deposited_eth: (c.total_deposited_eth + amount) as u64,
            ..c
        }),
        mint == c.btc_mint ==> deposited_user(u, c, mint, amount) == (UserAccount {
            btc_amount: (u.btc_amount + amount) as u64,
            ..u
        }) && deposited_config(c, mint, amount) == (Config {
            total_deposited_btc: (c.total_deposited_btc + amount) as u64,
            ..c
        }),
        mint == c.ust_mint ==> deposited_user(u, c, mint, amount) == (UserAccount {
            ust_amount: (u.ust_amount + amount) as u64,
            ..u
        }) && deposited_config(c, mint, amount) == (Config {
            total_deposited_ust: (c.total_deposited_ust + amount) as u64,
            ..c
        }),
        mint == c.srm_mint ==> deposited_user(u, c, mint, amount) == (UserAccount {
            srm_amount: (u.srm_amount + amount) as u64,
            ..u
        }) && deposited_config(c, mint, amount) == (Config {
            total_deposited_srm: (c.total_deposited_srm + amount) as u64,
            ..c
        }),
        mint == c.scnsol_mint ==> deposited_user(u, c, mint, amount) == (UserAccount {
            scnsol_amount: (u.scnsol_amount + amount) as u64,
            ..u
        }) && deposited_config(c, mint, amount) == (Config {
            total_deposited_scnsol: (c.total_deposited_scnsol + amount) as u64,
            ..c
        }),
        mint == c.stsol_mint ==> deposited_user(u, c, mint, amount) == (UserAccount {
            stsol_amount: (u.stsol_amount + amount) as u64,
            ..u
        }) && deposited_config(c, mint, amount) == (Config {
            total_deposited_stsol: (c.total_deposited_stsol + amount) as u64,
            ..c
        }),
        mint == c.usdt_mint ==> deposited_user(u, c, mint, amount) == (UserAccount {
            usdt_amount: (u.usdt_amount + amount) as u64,
            ..u
        }) && deposited_config(c, mint, amount) == (Config {
            total_deposited_usdt: (c.total_deposited_usdt + amount) as u64,
            ..c
        }),
        mint == c.lpbtc_mint ==> deposited_user(u, c, mint, amount) == (UserAccount {
            lpbtc_amount: (u.lpbtc_amount + amount) as u64,
            ..u
        }) && deposited_config(c, mint, amount) == (Config {
            total_deposited_lpbtc: (c.total_deposited_lpbtc + amount) as u64,
            ..c
        }),
        mint == c.lpeth_mint ==> deposited_user(u, c, mint, amount) == (UserAccount {
            lpeth_amount: (u.lpeth_amount + amount) as u64,
            ..u
        }) && deposited_config(c, mint, amount) == (Config {
            total_deposited_lpeth: (c.total_deposited_lpeth + amount) as u64,
            ..c
        }),
        mint == c.lpusd_mint ==> deposited_user(u, c, mint, amount) == (UserAccount {
            lpusd_amount: (u.lpusd_amount + amount) as u64,
            ..u
        }) && deposited_config(c, mint, amount) == (Config {
            total_deposited_lpusd: (c.total_deposited_lpusd + amount) as u64,
            ..c
        }),
        mint == c.lpsol_mint ==> deposited_user(u, c, mint, amount) == (UserAccount {
            lpsol_amount: (u.lpsol_amount + amount) as u64,
            ..u
        }) && deposited_config(c, mint, amount) == (Config {
            total_deposited_lpsol: (c.total_deposited_lpsol + amount) as u64,
            ..c
        }),
        mint != c.usdc_mint && mint != c.msol_mint && mint != c.eth_mint && mint != c.btc_mint && mint != c.ust_mint && mint != c.srm_mint && mint != c.scnsol_mint && mint != c.stsol_mint && mint != c.usdt_mint && mint != c.lpbtc_mint && mint != c.lpeth_mint && mint != c.lpusd_mint && mint != c.lpsol_mint ==> deposited_user(u, c, mint, amount) == u && deposited_config(c, mint, amount) == c,
{
    reveal(credit);
}

/// A token withdrawal releases exactly the token whose mint it names: it
/// goes through when the borrows are covered, the amount is within the
/// user's holding of that token and within what the position can release at
/// that token's price (and the program signs); an amount above the holding
/// is refused with `InvalidAmount`; and on success only that token's
/// balance and total fall, by the amount.
pub proof fn withdraw_token_releases_the_token_named(
    pre: WithdrawToken,
    post: WithdrawToken,
    amount: u64,
    p: Prices,
    program_authority: Option<Pubkey>,
    r: Result<(), ErrorCode>,
)
    requires
        collateral_mints_distinct(pre.config),
        withdraw_token_done(pre, post, amount, p, program_authority, r),
    ensures
        pre.dest_mint == pre.config.usdc_mint ==> (r is Ok <==> (
            within_ltv(pre.user_account, p)
            && amount <= pre.user_account.usdc_amount
            && amount <= (withdraw_limit(pre.user_account, p, p.usdc) as u64)
            && program_authority == Some(pre.state_account)
        )),
        pre.dest_mint == pre.config.usdc_mint && within_ltv(pre.user_account, p) && amount > pre.user_account.usdc_amount
            ==> r == Err::<(), ErrorCode>(ErrorCode::InvalidAmount) && post == pre,
        pre.dest_mint == pre.config.usdc_mint && r is Ok ==> post.user_account == (UserAccount {
            usdc_amount: (pre.user_account.usdc_amount - amount) as u64,
            ..pre.user_account
        }) && post.config == (Config {
            total_deposited_usdc: (pre.config.total_deposited_usdc - amount) as u64,
            ..pre.config
        }),
        pre.dest_mint == pre.config.msol_mint ==> (r is Ok <==> (
            within_ltv(pre.user_account, p)
            && amount <= pre.user_account.msol_amount
            && amount <= (withdraw_limit(pre.user_account, p, p.msol) as u64)
            && program_authority == Some(pre.state_account)
        )),
        pre.dest_mint == pre.config.msol_mint && within_ltv(pre.user_account, p) && amount > pre.user_account.msol_amount
            ==> r == Err::<(), ErrorCode>(ErrorCode::InvalidAmount) && post == pre,
        pre.dest_mint == pre.config.msol_mint && r is Ok ==> post.user_account == (UserAccount {
            msol_amount: (pre.user_account.msol_amount - amount) as u64,
            ..pre.user_account
        }) && post.config == (Config {
            total_deposited_msol: (pre.config.total_deposited_msol - amount) as u64,
            ..pre.config
        }),
        pre.dest_mint == pre.config.eth_mint ==> (r is Ok <==> (
            within_ltv(pre.user_account, p)
            && amount <= pre.user_account.eth_amount
            && amount <= (withdraw_limit(pre.user_account, p, p.eth) as u64)
            && program_authority == Some(pre.state_account)
        )),
        pre.dest_mint == pre.config.eth_mint && within_ltv(pre.user_account, p) && amount > pre.user_account.eth_amount
            ==> r == Err::<(), ErrorCode>(ErrorCode::InvalidAmount) && post == pre,
        pre.dest_mint == pre.config.eth_mint && r is Ok ==> post.user_account == (UserAccount {
            eth_amount: (pre.user_account.eth_amount - amount) as u64,
            ..pre.user_account
        }) && post.config == (Config {
            total_deposited_eth: (pre.config.total_deposited_eth - amount) as u64,
            ..pre.config
        }),
        pre.dest_mint == pre.config.btc_mint ==> (r is Ok <==> (
            within_ltv(pre.user_account, p)
            && amount <= pre.user_account.btc_amount
            && amount <= (withdraw_limit(pre.user_account, p, p.btc) as u64)
            && program_authority == Some(pre.state_account)
        )),
        pre.dest_mint == pre.config.btc_mint && within_ltv(pre.user_account, p) && amount > pre.user_account.btc_amount
            ==> r == Err::<(), ErrorCode>(ErrorCode::InvalidAmount) && post == pre,
        pre.dest_mint == pre.config.btc_mint && r is Ok ==> post.user_account == (UserAccount {
            btc_amount: (pre.user_account.btc_amount - amount) as u64,
            ..pre.user_account
        }) && post.config == (Config {
            total_deposited_btc: (pre.config.total_deposited_btc - amount) as u64,
            ..pre.config
        }),
        pre.dest_mint == pre.config.ust_mint ==> (r is Ok <==> (
            within_ltv(pre.user_account, p)
            && amount <= pre.user_account.ust_amount
            && amount <= (withdraw_limit(pre.user_account, p, p.ust) as u64)
            && program_authority == Some(pre.state_account)
        )),
        pre.dest_mint == pre.config.ust_mint && within_ltv(pre.user_account, p) && amount > pre.user_account.ust_amount
            ==> r == Err::<(), ErrorCode>(ErrorCode::InvalidAmount) && post == pre,
        pre.dest_mint == pre.config.ust_mint && r is Ok ==> post.user_account == (UserAccount {
            ust_amount: (pre.user_account.ust_amount - amount) as u64,
            ..pre.user_account
        }) && post.config == (Config {
            total_deposited_ust: (pre.config.total_deposited_ust - amount) as u64,
            ..pre.config
        }),
        pre.dest_mint == pre.config.srm_mint ==> (r is Ok <==> (
            within_ltv(pre.user_account, p)
            && amount <= pre.user_account.srm_amount
            && amount <= (withdraw_limit(pre.user_account, p, p.srm) as u64)
            && program_authority == Some(pre.state_account)
        )),
        pre.dest_mint == pre.config.srm_mint && within_ltv(pre.user_account, p) && amount > pre.user_account.srm_amount
            ==> r == Err::<(), ErrorCode>(ErrorCode::InvalidAmount) && post == pre,
        pre.dest_mint == pre.config.srm_mint && r is Ok ==> post.user_account == (UserAccount {
            srm_amount: (pre.user_account.srm_amount - amount) as u64,
            ..pre.user_account
        }) && post.config == (Config {
            total_deposited_srm: (pre.config.total_deposited_srm - amount) as u64,
            ..pre.config
        }),
        pre.dest_mint == pre.config.scnsol_mint ==> (r is Ok <==> (
            within_ltv(pre.user_account, p)
            && amount <= pre.user_account.scnsol_amount
            && amount <= (withdraw_limit(pre.user_account, p, p.scnsol) as u64)
            && program_authority == Some(pre.state_account)
        )),
        pre.dest_mint == pre.config.scnsol_mint && within_ltv(pre.user_account, p) && amount > pre.user_account.scnsol_amount
            ==> r == Err::<(), ErrorCode>(ErrorCode::InvalidAmount) && post == pre,
        pre.dest_mint == pre.config.scnsol_mint && r is Ok ==> post.user_account == (UserAccount {
            scnsol_amount: (pre.user_account.scnsol_amount - amount) as u64,
            ..pre.user_account
        }) && post.config == (Config {
            total_deposited_scnsol: (pre.config.total_deposited_scnsol - amount) as u64,
            ..pre.config
        }),
        pre.dest_mint == pre.config.stsol_mint ==> (r is Ok <==> (
            within_ltv(pre.user_account, p)
            && amount <= pre.user_account.stsol_amount
            && amount <= (withdraw_limit(pre.user_account, p, p.stsol) as u64)
            && program_authority == Some(pre.state_account)
        )),
        pre.dest_mint == pre.config.stsol_mint && within_ltv(pre.user_account, p) && amount > pre.user_account.stsol_amount
            ==> r == Err::<(), ErrorCode>(ErrorCode::InvalidAmount) && post == pre,
        pre.dest_mint == pre.config.stsol_mint && r is Ok ==> post.user_account == (UserAccount {
            stsol_amount: (pre.user_account.stsol_amount - amount) as u64,
            ..pre.user_account
        }) && post.config == (Config {
            total_deposited_stsol: (pre.config.total_deposited_stsol - amount) as u64,
            ..pre.config
        }),
        pre.dest_mint == pre.config.usdt_mint ==> (r is Ok <==> (
            within_ltv(pre.user_account, p)
            && amount <= pre.user_account.usdt_amount
            && amount <= (withdraw_limit(pre.user_account, p, p.usdt) as u64)
            && program_authority == Some(pre.state_account)
        )),
        pre.dest_mint == pre.config.usdt_mint && within_ltv(pre.user_account, p) && amount > pre.user_account.usdt_amount
            ==> r == Err::<(), ErrorCode>(ErrorCode::InvalidAmount) && post == pre,
        pre.dest_mint == pre.config.usdt_mint && r is Ok ==> post.user_account == (UserAccount {
            usdt_amount: (pre.user_account.usdt_amount - amount) as u64,
            ..pre.user_account
        }) && post.config == (Config {
            total_deposited_usdt: (pre.config.total_deposited_usdt - amount) as u64,
            ..pre.config
        }),
        pre.dest_mint == pre.config.lpbtc_mint ==> (r is Ok <==> (
            within_ltv(pre.user_account, p)
            && amount <= pre.user_account.lpbtc_amount
            && amount <= (withdraw_limit(pre.user_account, p, p.btc) as u64)
            && program_authority == Some(pre.state_account)
        )),
        pre.dest_mint == pre.config.lpbtc_mint && within_ltv(pre.user_account, p) && amount > pre.user_account.lpbtc_amount
            ==> r == Err::<(), ErrorCode>(ErrorCode::InvalidAmount) && post == pre,
        pre.dest_mint == pre.config.lpbtc_mint && r is Ok ==> post.user_account == (UserAccount {
            lpbtc_amount: (pre.user_account.lpbtc_amount - amount) as u64,
            ..pre.user_account
        }) && post.config == (Config {
            total_deposited_lpbtc: (pre.config.total_deposited_lpbtc - amount) as u64,
            ..pre.config
        }),
        pre.dest_mint == pre.config.lpeth_mint ==> (r is Ok <==> (
            within_ltv(pre.user_account, p)
            && amount <= pre.user_account.lpeth_amount
            && amount <= (withdraw_limit(pre.user_account, p, p.eth) as u64)
            && program_authority == Some(pre.state_account)
        )),
        pre.dest_mint == pre.config.lpeth_mint && within_ltv(pre.user_account, p) && amount > pre.user_account.lpeth_amount
            ==> r == Err::<(), ErrorCode>(ErrorCode::InvalidAmount) && post == pre,
        pre.dest_mint == pre.config.lpeth_mint && r is Ok ==> post.user_account == (UserAccount {
            lpeth_amount: (pre.user_account.lpeth_amount - amount) as u64,
            ..pre.user_account
        }) && post.config == (Config {
            total_deposited_lpeth: (pre.config.total_deposited_lpeth - amount) as u64,
            ..pre.config
        }),
        pre.dest_mint == pre.config.lpusd_mint ==> (r is Ok <==> (
            within_ltv(pre.user_account, p)
            && amount <= pre.user_account.lpusd_amount
            && amount <= (withdraw_limit(pre.user_account, p, p.usdc) as u64)
            && program_authority == Some(pre.state_account)
        )),
        pre.dest_mint == pre.config.lpusd_mint && within_ltv(pre.user_account, p) && amount > pre.user_account.lpusd_amount
            ==> r == Err::<(), ErrorCode>(ErrorCode::InvalidAmount) && post == pre,
        pre.dest_mint == pre.config.lpusd_mint && r is Ok ==> post.user_account == (UserAccount {
            lpusd_amount: (pre.user_account.lpusd_amount - amount) as u64,
            ..pre.user_account
        }) && post.config == (Config {
            total_deposited_lpusd: (pre.config.total_deposited_lpusd - amount) as u64,
            ..pre.config
        }),
        pre.dest_mint == pre.config.lpsol_mint ==> (r is Ok <==> (
            within_ltv(pre.user_account, p)
            && amount <= pre.user_account.lpsol_amount
            && amount <= (withdraw_limit(pre.user_account, p, p.sol) as u64)
            && program_authority == Some(pre.state_account)
        )),
        pre.dest_mint == pre.config.lpsol_mint && within_ltv(pre.user_account, p) && amount > pre.user_account.lpsol_amount
            ==> r == Err::<(), ErrorCode>(ErrorCode::InvalidAmount) && post == pre,
        pre.dest_mint == pre.config.lpsol_mint && r is Ok ==> post.user_account == (UserAccount {
            lpsol_amount: (pre.user_account.lpsol_amount - amount) as u64,
            ..pre.user_account
        }) && post.config == (Config {
            total_deposited_lpsol: (pre.config.total_deposited_lpsol - amount) as u64,
            ..pre.config
        }),
{
}

/// The seven mints a repayment accepts are distinct.
pub open spec fn repay_mints_distinct(c: Config) -> bool {
    &&& c.usdc_mint != c.eth_mint
    &&& c.usdc_mint != c.btc_mint
    &&& c.usdc_mint != c.lpusd_mint
    &&& c.usdc_mint != c.lpeth_mint
    &&& c.usdc_mint != c.lpbtc_mint
    &&& c.usdc_mint != c.lpsol_mint
    &&& c.eth_mint != c.btc_mint
    &&& c.eth_mint != c.lpusd_mint
    &&& c.eth_mint != c.lpeth_mint
    &&& c.eth_mint != c.lpbtc_mint
    &&& c.eth_mint != c.lpsol_mint
    &&& c.btc_mint != c.lpusd_mint
    &&& c.btc_mint != c.lpeth_mint
    &&& c.btc_mint != c.lpbtc_mint
    &&& c.btc_mint != c.lpsol_mint
    &&& c.lpusd_mint != c.lpeth_mint
    &&& c.lpusd_mint != c.lpbtc_mint
    &&& c.lpusd_mint != c.lpsol_mint
    &&& c.lpeth_mint != c.lpbtc_mint
    &&& c.lpeth_mint != c.lpsol_mint
    &&& c.lpbtc_mint != c.lpsol_mint
}

/// A repayment reduces the debt the token it is made in stands for, and no
/// other: USDC and LpUSD repay LpUSD, BTC and LpBTC repay LpBTC, ETH and
/// LpETH repay LpETH, LpSOL repays LpSOL. Underlying tokens are transferred
/// to the pool, LP tokens burnt.
pub proof fn repayment_reduces_the_debt_paid(
    pre: RepayToken,
    post: RepayToken,
    amount: u64,
    r: Result<RepayAction, ErrorCode>,
)
    requires
        repay_mints_distinct(pre.config),
        pre.user_dest_amount >= amount,
        repay_done(pre, post, amount, r),
    ensures
        pre.user_dest_mint == pre.config.usdc_mint ==> r == Ok::<RepayAction, ErrorCode>(
            RepayAction { transfer: true, burn: false },
        ) && post.user_account == (UserAccount {
            borrowed_lpusd: (pre.user_account.borrowed_lpusd - amount) as u64,
            ..pre.user_account
        }) && post.config == (Config {
            total_borrowed_lpusd: (pre.config.total_borrowed_lpusd - amount) as u64,
            ..pre.config
        }),
        pre.user_dest_mint == pre.config.lpusd_mint ==> r == Ok::<RepayAction, ErrorCode>(
            RepayAction { transfer: false, burn: true },
        ) && post.user_account == (UserAccount {
            borrowed_lpusd: (pre.user_account.borrowed_lpusd - amount) as u64,
            ..pre.user_account
        }) && post.config == (Config {
            total_borrowed_lpusd: (pre.config.total_borrowed_lpusd - amount) as u64,
            ..pre.config
        }),
        pre.user_dest_mint == pre.config.btc_mint ==> r == Ok::<RepayAction, ErrorCode>(
            RepayAction { transfer: true, burn: false },
        ) && post.user_account == (UserAccount {
            borrowed_lpbtc: (pre.user_account.borrowed_lpbtc - amount) as u64,
            ..pre.user_account
        }) && post.config == (Config {
            total_borrowed_lpbtc: (pre.config.total_borrowed_lpbtc - amount) as u64,
            ..pre.config
        }),
        pre.user_dest_mint == pre.config.lpbtc_mint ==> r == Ok::<RepayAction, ErrorCode>(
            RepayAction { transfer: false, burn: true },
        ) && post.user_account == (UserAccount {
            borrowed_lpbtc: (pre.user_account.borrowed_lpbtc - amount) as u64,
            ..pre.user_account
        }) && post.config == (Config {
            total_borrowed_lpbtc: (pre.config.total_borrowed_lpbtc - amount) as u64,
            ..pre.config
        }),
        pre.user_dest_mint == pre.config.eth_mint ==> r == Ok::<RepayAction, ErrorCode>(
            RepayAction { transfer: true, burn: false },
        ) && post.user_account == (UserAccount {
            borrowed_lpeth: (pre.user_account.borrowed_lpeth - amount) as u64,
            ..pre.user_account
        }) && post.config == (Config {
            total_borrowed_lpeth: (pre.config.total_borrowed_lpeth - amount) as u64,
            ..pre.config
        }),
        pre.user_dest_mint == pre.config.lpeth_mint ==> r == Ok::<RepayAction, ErrorCode>(
            RepayAction { transfer: false, burn: true },
        ) && post.user_account == (UserAccount {
            borrowed_lpeth: (pre.user_account.borrowed_lpeth - amount) as u64,
            ..pre.user_account
        }) && post.config == (Config {
            total_borrowed_lpeth: (pre.config.total_borrowed_lpeth - amount) as u64,
            ..pre.config
        }),
        pre.user_dest_mint == pre.config.lpsol_mint ==> r == Ok::<RepayAction, ErrorCode>(
            RepayAction { transfer: false, burn: true },
        ) && post.user_account == (UserAccount {
            borrowed_lpsol: (pre.user_account.borrowed_lpsol - amount) as u64,
            ..pre.user_account
        }) && post.config == (Config {
            total_borrowed_lpsol: (pre.config.total_borrowed_lpsol - amount) as u64,
            ..pre.config
        }),
{
}

/// A non-negative aggregate price is read as it is reported.
pub proof fn nonnegative_prices_read_as_reported(agg: i64)
    requires
        0 <= agg,
    ensures
        price_of_aggregate(agg) == agg,
{
}

/// A borrow prices each asset at the aggregate price of that asset's own
/// Pyth account.
pub proof fn borrow_prices_come_from_their_accounts(ctx: BorrowLpToken)
    requires
        0 <= ctx.pyth_btc_account.agg_price,
        0 <= ctx.pyth_sol_account.agg_price,
        0 <= ctx.pyth_usdc_account.agg_price,
        0 <= ctx.pyth_msol_account.agg_price,
        0 <= ctx.pyth_eth_account.agg_price,
        0 <= ctx.pyth_ust_account.agg_price,
        0 <= ctx.pyth_srm_account.agg_price,
        0 <= ctx.pyth_scnsol_account.agg_price,
        0 <= ctx.pyth_stsol_account.agg_price,
        0 <= ctx.pyth_usdt_account.agg_price,
    ensures
        borrow_prices(ctx).btc == ctx.pyth_btc_account.agg_price,
        borrow_prices(ctx).sol == ctx.pyth_sol_account.agg_price,
        borrow_prices(ctx).usdc == ctx.pyth_usdc_account.agg_price,
        borrow_prices(ctx).msol == ctx.pyth_msol_account.agg_price,
        borrow_prices(ctx).eth == ctx.pyth_eth_account.agg_price,
        borrow_prices(ctx).ust == ctx.pyth_ust_account.agg_price,
        borrow_prices(ctx).srm == ctx.pyth_srm_account.agg_price,
        borrow_prices(ctx).scnsol == ctx.pyth_scnsol_account.agg_price,
        borrow_prices(ctx).stsol == ctx.pyth_stsol_account.agg_price,
        borrow_prices(ctx).usdt == ctx.pyth_usdt_account.agg_price,
{
}

/// A SOL withdrawal prices each asset at the aggregate price of that asset's own
/// Pyth account.
pub proof fn withdraw_sol_prices_come_from_their_accounts(ctx: WithdrawSOL)
    requires
        0 <= ctx.pyth_btc_account.agg_price,
        0 <= ctx.pyth_sol_account.agg_price,
        0 <= ctx.pyth_usdc_account.agg_price,
        0 <= ctx.pyth_msol_account.agg_price,
        0 <= ctx.pyth_eth_account.agg_price,
        0 <= ctx.pyth_ust_account.agg_price,
        0 <= ctx.pyth_srm_account.agg_price,
        0 <= ctx.pyth_scnsol_account.agg_price,
        0 <= ctx.pyth_stsol_account.agg_price,
        0 <= ctx.pyth_usdt_account.agg_price,
    ensures
        withdraw_sol_prices(ctx).btc == ctx.pyth_btc_account.agg_price,
        withdraw_sol_prices(ctx).sol == ctx.pyth_sol_account.agg_price,
        withdraw_sol_prices(ctx).usdc == ctx.pyth_usdc_account.agg_price,
        withdraw_sol_prices(ctx).msol == ctx.pyth_msol_account.agg_price,
        withdraw_sol_prices(ctx).eth == ctx.pyth_eth_account.agg_price,
        withdraw_sol_prices(ctx).ust == ctx.pyth_ust_account.agg_price,
        withdraw_sol_prices(ctx).srm == ctx.pyth_srm_account.agg_price,
        withdraw_sol_prices(ctx).scnsol == ctx.pyth_scnsol_account.agg_price,
        withdraw_sol_prices(ctx).stsol == ctx.pyth_stsol_account.agg_price,
        withdraw_sol_prices(ctx).usdt == ctx.pyth_usdt_account.agg_price,
{
}

/// A token withdrawal prices each asset at the aggregate price of that asset's own
/// Pyth account.
pub proof fn withdraw_token_prices_come_from_their_accounts(ctx: WithdrawToken)
    requires
        0 <= ctx.pyth_btc_account.agg_price,
        0 <= ctx.pyth_sol_account.agg_price,
        0 <= ctx.pyth_usdc_account.agg_price,
        0 <= ctx.pyth_msol_account.agg_price,
        0 <= ctx.pyth_eth_account.agg_price,
        0 <= ctx.pyth_ust_account.agg_price,
        0 <= ctx.pyth_srm_account.agg_price,
        0 <= ctx.pyth_scnsol_account.agg_price,
        0 <= ctx.pyth_stsol_account.agg_price,
        0 <= ctx.pyth_usdt_account.agg_price,
    ensures
        withdraw_token_prices(ctx).btc == ctx.pyth_btc_account.agg_price,
        withdraw_token_prices(ctx).sol == ctx.pyth_sol_account.agg_price,
        withdraw_token_prices(ctx).usdc == ctx.pyth_usdc_account.agg_price,
        withdraw_token_prices(ctx).msol == ctx.pyth_msol_account.agg_price,
        withdraw_token_prices(ctx).eth == ctx.pyth_eth_account.agg_price,
        withdraw_token_prices(ctx).ust == ctx.pyth_ust_account.agg_price,
        withdraw_token_prices(ctx).srm == ctx.pyth_srm_account.agg_price,
        withdraw_token_prices(ctx).scnsol == ctx.pyth_scnsol_account.agg_price,
        withdraw_token_prices(ctx).stsol == ctx.pyth_stsol_account.agg_price,
        withdraw_token_prices(ctx).usdt == ctx.pyth_usdt_account.agg_price,
{
}

/// Each unit of collateral counts at its asset's price: changing one
/// balance of a position changes its collateral value by that price times
/// the change (LP tokens count at their underlying asset's price).
pub proof fn collateral_counts_at_its_price(u: UserAccount, p: Prices, v: u64)
    ensures
        collateral_value(UserAccount { btc_amount: v, ..u }, p) == collateral_value(u, p) + p.btc * v - p.btc * u.btc_amount,
        collateral_value(UserAccount { sol_amount: v, ..u }, p) == collateral_value(u, p) + p.sol * v - p.sol * u.sol_amount,
        collateral_value(UserAccount { usdc_amount: v, ..u }, p) == collateral_value(u, p) + p.usdc * v - p.usdc * u.usdc_amount,
        collateral_value(UserAccount { msol_amount: v, ..u }, p) == collateral_value(u, p) + p.msol * v - p.msol * u.msol_amount,
        collateral_value(UserAccount { eth_amount: v, ..u }, p) == collateral_value(u, p) + p.eth * v - p.eth * u.eth_amount,
        collateral_value(UserAccount { ust_amount: v, ..u }, p) == collateral_value(u, p) + p.ust * v - p.ust * u.ust_amount,
        collateral_value(UserAccount { srm_amount: v, ..u }, p) == collateral_value(u, p) + p.srm * v - p.srm * u.srm_amount,
        collateral_value(UserAccount { scnsol_amount: v, ..u }, p) == collateral_value(u, p) + p.scnsol * v - p.scnsol * u.scnsol_amount,
        collateral_value(UserAccount { stsol_amount: v, ..u }, p) == collateral_value(u, p) + p.stsol * v - p.stsol * u.stsol_amount,
        collateral_value(UserAccount { usdt_amount: v, ..u }, p) == collateral_value(u, p) + p.usdt * v - p.usdt * u.usdt_amount,
        collateral_value(UserAccount { lpusd_amount: v, ..u }, p) == collateral_value(u, p) + p.usdc * v - p.usdc * u.lpusd_amount,
        collateral_value(UserAccount { lpsol_amount: v, ..u }, p) == collateral_value(u, p) + p.sol * v - p.sol * u.lpsol_amount,
        collateral_value(UserAccount { lpbtc_amount: v, ..u }, p) == collateral_value(u, p) + p.btc * v - p.btc * u.lpbtc_amount,
        collateral_value(UserAccount { lpeth_amount: v, ..u }, p) == collateral_value(u, p) + p.eth * v - p.eth * u.lpeth_amount,
{
}

/// Each unit of debt counts at its underlying asset's price: changing one
/// borrowed amount changes the borrowed value by that price times the change.
pub proof fn debt_counts_at_its_price(u: UserAccount, p: Prices, v: u64)
    ensures
        borrowed_value(UserAccount { borrowed_lpusd: v, ..u }, p) == borrowed_value(u, p) + p.usdc * v - p.usdc * u.borrowed_lpusd,
        borrowed_value(UserAccount { borrowed_lpsol: v, ..u }, p) == borrowed_value(u, p) + p.sol * v - p.sol * u.borrowed_lpsol,
        borrowed_value(UserAccount { borrowed_lpbtc: v, ..u }, p) == borrowed_value(u, p) + p.btc * v - p.btc * u.borrowed_lpbtc,
        borrowed_value(UserAccount { borrowed_lpeth: v, ..u }, p) == borrowed_value(u, p) + p.eth * v - p.eth * u.borrowed_lpeth,
{
}

/// What a covered position can release of an asset is the collateral value
/// beyond what its borrows need at `LTV`, in units of the asset's price,
/// rounded down.
pub proof fn withdraw_limit_rounds_down(u: UserAccount, p: Prices, price: u128)
    requires
        within_ltv(u, p),
        price > 0,
    ensures
        ({
            let free = collateral_value(u, p) - borrowed_value(u, p) * DOMINATOR / (LTV as int);
            &&& 0 <= free
            &&& withdraw_limit(u, p, price) * price <= free
            &&& free < (withdraw_limit(u, p, price) + 1) * price
        }),
{
    lemma_position_terms(u, p);
    let c = collateral_value(u, p);
    let b = borrowed_value(u, p);
    vstd::arithmetic::div_mod::lemma_div_is_ordered(b * DOMINATOR, c * LTV, LTV as int);
    vstd::arithmetic::div_mod::lemma_div_multiples_vanish(c, LTV as int);
    vstd::arithmetic::mul::lemma_mul_is_commutative(c, LTV as int);
    crate::value::lemma_quotient_rounds_down(c - b * DOMINATOR / (LTV as int), price as int);
}

} // verus!
