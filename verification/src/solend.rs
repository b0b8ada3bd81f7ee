//! A lending pool for nine tokens: deposits are held as shares whose value
//! grows as the pool's second owner applies a daily rate.
use vstd::prelude::*;
use crate::pubkey::{Pubkey, zero_key, zero_pubkey};
use crate::pda::{derived_program_key, find_program_key};

verus! {

/// Seed of the configuration account.
pub const PREFIX: &'static str = "solend0";
/// A day, in seconds.
pub const DAY_IN_SECONDS: i64 = 86400;
/// Scale of the share rates.
pub const DENOMINATOR: u64 = 10000000;

/// The program's state account.
#[derive(Clone, Copy, Debug)]
pub struct StateAccount {
    pub owner: Pubkey,
    pub second_owner: Pubkey,
}

/// The pool configuration: per token its mint, the amount deposited and the
/// value of one share (scaled by `DENOMINATOR`).
#[derive(Clone, Copy, Debug)]
pub struct Config {
    pub state_account: Pubkey,
    pub ust_mint: Pubkey,
    pub usdc_mint: Pubkey,
    pub msol_mint: Pubkey,
    pub srm_mint: Pubkey,
    pub scnsol_mint: Pubkey,
    pub stsol_mint: Pubkey,
    pub btc_mint: Pubkey,
    pub usdt_mint: Pubkey,
    pub eth_mint: Pubkey,
    pub ust_amount: u64,
    pub usdc_amount: u64,
    pub msol_amount: u64,
    pub srm_amount: u64,
    pub scnsol_amount: u64,
    pub stsol_amount: u64,
    pub btc_amount: u64,
    pub usdt_amount: u64,
    pub eth_amount: u64,
    pub ust_rate: u64,
    pub usdc_rate: u64,
    pub msol_rate: u64,
    pub srm_rate: u64,
    pub scnsol_rate: u64,
    pub stsol_rate: u64,
    pub btc_rate: u64,
    pub usdt_rate: u64,
    pub eth_rate: u64,
    pub last_mint_timestamp: i64,
}

/// A user's deposits, in shares per token.
#[derive(Clone, Copy, Debug)]
pub struct UserAccount {
    pub owner: Pubkey,
    pub ust_amount: u64,
    pub usdc_amount: u64,
    pub msol_amount: u64,
    pub srm_amount: u64,
    pub scnsol_amount: u64,
    pub stsol_amount: u64,
    pub btc_amount: u64,
    pub usdt_amount: u64,
    pub eth_amount: u64,
}

/// Why an instruction is refused.
#[derive(Clone, Copy, Debug, PartialEq, Eq, Structural)]
pub enum ErrorCode {
    InvalidAmount,
    InvalidOwner,
    TooOftenMint,
    ExceedAmount,
    InvalidToken,
}

/// A token the pool lends, in the order its instructions match mints.
#[derive(Clone, Copy, Debug, PartialEq, Eq, Structural)]
pub enum Token {
    Ust,
    Usdc,
    Msol,
    Srm,
    Scnsol,
    Stsol,
    Btc,
    Usdt,
    Eth,
}

/// The token whose configured mint is `mint`, the first in `Token`'s order.
pub open spec fn token_of(c: Config, mint: Pubkey) -> Option<Token> {
    if mint == c.ust_mint {
        Some(Token::Ust)
    } else if mint == c.usdc_mint {
        Some(Token::Usdc)
    } else if mint == c.msol_mint {
        Some(Token::Msol)
    } else if mint == c.srm_mint {
        Some(Token::Srm)
    } else if mint == c.scnsol_mint {
        Some(Token::Scnsol)
    } else if mint == c.stsol_mint {
        Some(Token::Stsol)
    } else if mint == c.btc_mint {
        Some(Token::Btc)
    } else if mint == c.usdt_mint {
        Some(Token::Usdt)
    } else if mint == c.eth_mint {
        Some(Token::Eth)
    } else {
        None
    }
}

/// `token_of`, computed.
pub fn find_token(c: &Config, mint: &Pubkey) -> (r: Option<Token>)
    ensures
        r == token_of(*c, *mint),
{
    if mint.key_eq(&c.ust_mint) {
        Some(Token::Ust)
    } else if mint.key_eq(&c.usdc_mint) {
        Some(Token::Usdc)
    } else if mint.key_eq(&c.msol_mint) {
        Some(Token::Msol)
    } else if mint.key_eq(&c.srm_mint) {
        Some(Token::Srm)
    } else if mint.key_eq(&c.scnsol_mint) {
        Some(Token::Scnsol)
    } else if mint.key_eq(&c.stsol_mint) {
        Some(Token::Stsol)
    } else if mint.key_eq(&c.btc_mint) {
        Some(Token::Btc)
    } else if mint.key_eq(&c.usdt_mint) {
        Some(Token::Usdt)
    } else if mint.key_eq(&c.eth_mint) {
        Some(Token::Eth)
    } else {
        None
    }
}

/// How much of a token the pool holds.
pub open spec fn pool_amount(c: Config, t: Token) -> u64 {
    match t {
        Token::Ust => c.ust_amount,
        Token::Usdc => c.usdc_amount,
        Token::Msol => c.msol_amount,
        Token::Srm => c.srm_amount,
        Token::Scnsol => c.scnsol_amount,
        Token::Stsol => c.stsol_amount,
        Token::Btc => c.btc_amount,
        Token::Usdt => c.usdt_amount,
        Token::Eth => c.eth_amount,
    }
}

/// `pool_amount`, computed.
pub fn get_pool_amount(c: &Config, t: Token) -> (r: u64)
    ensures
        r == pool_amount(*c, t),
{
    match t {
        Token::Ust => c.ust_amount,
        Token::Usdc => c.usdc_amount,
        Token::Msol => c.msol_amount,
        Token::Srm => c.srm_amount,
        Token::Scnsol => c.scnsol_amount,
        Token::Stsol => c.stsol_amount,
        Token::Btc => c.btc_amount,
        Token::Usdt => c.usdt_amount,
        Token::Eth => c.eth_amount,
    }
}

/// The value of one share of a token, scaled by `DENOMINATOR`.
pub open spec fn share_rate(c: Config, t: Token) -> u64 {
    match t {
        Token::Ust => c.ust_rate,
        Token::Usdc => c.usdc_rate,
        Token::Msol => c.msol_rate,
        Token::Srm => c.srm_rate,
        Token::Scnsol => c.scnsol_rate,
        Token::Stsol => c.stsol_rate,
        Token::Btc => c.btc_rate,
        Token::Usdt => c.usdt_rate,
        Token::Eth => c.eth_rate,
    }
}

/// `share_rate`, computed.
pub fn get_share_rate(c: &Config, t: Token) -> (r: u64)
    ensures
        r == share_rate(*c, t),
{
    match t {
        Token::Ust => c.ust_rate,
        Token::Usdc => c.usdc_rate,
        Token::Msol => c.msol_rate,
        Token::Srm => c.srm_rate,
        Token::Scnsol => c.scnsol_rate,
        Token::Stsol => c.stsol_rate,
        Token::Btc => c.btc_rate,
        Token::Usdt => c.usdt_rate,
        Token::Eth => c.eth_rate,
    }
}

/// The user's shares of a token.
pub open spec fn user_shares(u: UserAccount, t: Token) -> u64 {
    match t {
        Token::Ust => u.ust_amount,
        Token::Usdc => u.usdc_amount,
        Token::Msol => u.msol_amount,
        Token::Srm => u.srm_amount,
        Token::Scnsol => u.scnsol_amount,
        Token::Stsol => u.stsol_amount,
        Token::Btc => u.btc_amount,
        Token::Usdt => u.usdt_amount,
        Token::Eth => u.eth_amount,
    }
}

/// `user_shares`, computed.
pub fn get_user_shares(u: &UserAccount, t: Token) -> (r: u64)
    ensures
        r == user_shares(*u, t),
{
    match t {
        Token::Ust => u.ust_amount,
        Token::Usdc => u.usdc_amount,
        Token::Msol => u.msol_amount,
        Token::Srm => u.srm_amount,
        Token::Scnsol => u.scnsol_amount,
        Token::Stsol => u.stsol_amount,
        Token::Btc => u.btc_amount,
        Token::Usdt => u.usdt_amount,
        Token::Eth => u.eth_amount,
    }
}

/// The configuration with the pool amount of `t` set to `v`.
pub open spec fn with_pool_amount(c: Config, t: Token, v: u64) -> Config {
    match t {
        Token::Ust => Config { ust_amount: v, ..c },
        Token::Usdc => Config { usdc_amount: v, ..c },
        Token::Msol => Config { msol_amount: v, ..c },
        Token::Srm => Config { srm_amount: v, ..c },
        Token::Scnsol => Config { scnsol_amount: v, ..c },
        Token::Stsol => Config { stsol_amount: v, ..c },
        Token::Btc => Config { btc_amount: v, ..c },
        Token::Usdt => Config { usdt_amount: v, ..c },
        Token::Eth => Config { eth_amount: v, ..c },
    }
}

/// `with_pool_amount`, computed.
pub fn set_pool_amount(c: &Config, t: Token, v: u64) -> (r: Config)
    ensures
        r == with_pool_amount(*c, t, v),
{
    match t {
        Token::Ust => Config { ust_amount: v, ..*c },
        Token::Usdc => Config { usdc_amount: v, ..*c },
        Token::Msol => Config { msol_amount: v, ..*c },
        Token::Srm => Config { srm_amount: v, ..*c },
        Token::Scnsol => Config { scnsol_amount: v, ..*c },
        Token::Stsol => Config { stsol_amount: v, ..*c },
        Token::Btc => Config { btc_amount: v, ..*c },
        Token::Usdt => Config { usdt_amount: v, ..*c },
        Token::Eth => Config { eth_amount: v, ..*c },
    }
}

/// The configuration with the pool amount and share rate of `t` set.
pub open spec fn with_pool(c: Config, t: Token, amount: u64, rate: u64) -> Config {
    match t {
        Token::Ust => Config { ust_amount: amount, ust_rate: rate, ..c },
        Token::Usdc => Config { usdc_amount: amount, usdc_rate: rate, ..c },
        Token::Msol => Config { msol_amount: amount, msol_rate: rate, ..c },
        Token::Srm => Config { srm_amount: amount, srm_rate: rate, ..c },
        Token::Scnsol => Config { scnsol_amount: amount, scnsol_rate: rate, ..c },
        Token::Stsol => Config { stsol_amount: amount, stsol_rate: rate, ..c },
        Token::Btc => Config { btc_amount: amount, btc_rate: rate, ..c },
        Token::Usdt => Config { usdt_amount: amount, usdt_rate: rate, ..c },
        Token::Eth => Config { eth_amount: amount, eth_rate: rate, ..c },
    }
}

/// `with_pool`, computed.
pub fn set_pool(c: &Config, t: Token, amount: u64, rate: u64) -> (r: Config)
    ensures
        r == with_pool(*c, t, amount, rate),
{
    match t {
        Token::Ust => Config { ust_amount: amount, ust_rate: rate, ..*c },
        Token::Usdc => Config { usdc_amount: amount, usdc_rate: rate, ..*c },
        Token::Msol => Config { msol_amount: amount, msol_rate: rate, ..*c },
        Token::Srm => Config { srm_amount: amount, srm_rate: rate, ..*c },
        Token::Scnsol => Config { scnsol_amount: amount, scnsol_rate: rate, ..*c },
        Token::Stsol => Config { stsol_amount: amount, stsol_rate: rate, ..*c },
        Token::Btc => Config { btc_amount: amount, btc_rate: rate, ..*c },
        Token::Usdt => Config { usdt_amount: amount, usdt_rate: rate, ..*c },
        Token::Eth => Config { eth_amount: amount, eth_rate: rate, ..*c },
    }
}

/// The position with the user's shares of `t` set to `v`.
pub open spec fn with_user_shares(u: UserAccount, t: Token, v: u64) -> UserAccount {
    match t {
        Token::Ust => UserAccount { ust_amount: v, ..u },
        Token::Usdc => UserAccount { usdc_amount: v, ..u },
        Token::Msol => UserAccount { msol_amount: v, ..u },
        Token::Srm => UserAccount { srm_amount: v, ..u },
        Token::Scnsol => UserAccount { scnsol_amount: v, ..u },
        Token::Stsol => UserAccount { stsol_amount: v, ..u },
        Token::Btc => UserAccount { btc_amount: v, ..u },
        Token::Usdt => UserAccount { usdt_amount: v, ..u },
        Token::Eth => UserAccount { eth_amount: v, ..u },
    }
}

/// `with_user_shares`, computed.
pub fn set_user_shares(u: &UserAccount, t: Token, v: u64) -> (r: UserAccount)
    ensures
        r == with_user_shares(*u, t, v),
{
    match t {
        Token::Ust => UserAccount { ust_amount: v, ..*u },
        Token::Usdc => UserAccount { usdc_amount: v, ..*u },
        Token::Msol => UserAccount { msol_amount: v, ..*u },
        Token::Srm => UserAccount { srm_amount: v, ..*u },
        Token::Scnsol => UserAccount { scnsol_amount: v, ..*u },
        Token::Stsol => UserAccount { stsol_amount: v, ..*u },
        Token::Btc => UserAccount { btc_amount: v, ..*u },
        Token::Usdt => UserAccount { usdt_amount: v, ..*u },
        Token::Eth => UserAccount { eth_amount: v, ..*u },
    }
}

/// The value of `shares` at the share rate `rate`, rounded down.
pub open spec fn share_value(shares: u64, rate: u64) -> int {
    shares * rate / (DENOMINATOR as int)
}

/// What `initialize` reads.
pub struct Initialize {
    pub authority: Pubkey,
    pub state_account: Pubkey,
    pub ust_mint: Pubkey,
    pub usdc_mint: Pubkey,
    pub msol_mint: Pubkey,
    pub srm_mint: Pubkey,
    pub scnsol_mint: Pubkey,
    pub stsol_mint: Pubkey,
    pub btc_mint: Pubkey,
    pub usdt_mint: Pubkey,
    pub eth_mint: Pubkey,
}

/// The configuration `initialize` writes into a fresh account.
pub open spec fn initial_config(ctx: Initialize) -> Config {
    Config {
        state_account: ctx.state_account,
        ust_mint: ctx.ust_mint,
        usdc_mint: ctx.usdc_mint,
        msol_mint: ctx.msol_mint,
        srm_mint: ctx.srm_mint,
        scnsol_mint: ctx.scnsol_mint,
        stsol_mint: ctx.stsol_mint,
        btc_mint: ctx.btc_mint,
        usdt_mint: ctx.usdt_mint,
        eth_mint: ctx.eth_mint,
        ust_amount: 0,
        usdc_amount: 0,
        msol_amount: 0,
        srm_amount: 0,
        scnsol_amount: 0,
        stsol_amount: 0,
        btc_amount: 0,
        usdt_amount: 0,
        eth_amount: 0,
        ust_rate: 0,
        usdc_rate: 0,
        msol_rate: 0,
        srm_rate: 0,
        scnsol_rate: 0,
        stsol_rate: 0,
        btc_rate: 0,
        usdt_rate: 0,
        eth_rate: 0,
        last_mint_timestamp: 0,
    }
}

/// Sets up the pool: the state account, owned by the authority, and the
/// configuration.
pub fn initialize(ctx: &Initialize) -> (r: (StateAccount, Config))
    ensures
        r.0 == (StateAccount { owner: ctx.authority, second_owner: zero_key() }),
        r.1 == initial_config(*ctx),
{
    let config = Config {
        state_account: ctx.state_account,
        ust_mint: ctx.ust_mint,
        usdc_mint: ctx.usdc_mint,
        msol_mint: ctx.msol_mint,
        srm_mint: ctx.srm_mint,
        scnsol_mint: ctx.scnsol_mint,
        stsol_mint: ctx.stsol_mint,
        btc_mint: ctx.btc_mint,
        usdt_mint: ctx.usdt_mint,
        eth_mint: ctx.eth_mint,
        ust_amount: 0,
        usdc_amount: 0,
        msol_amount: 0,
        srm_amount: 0,
        scnsol_amount: 0,
        stsol_amount: 0,
        btc_amount: 0,
        usdt_amount: 0,
        eth_amount: 0,
        ust_rate: 0,
        usdc_rate: 0,
        msol_rate: 0,
        srm_rate: 0,
        scnsol_rate: 0,
        stsol_rate: 0,
        btc_rate: 0,
        usdt_rate: 0,
        eth_rate: 0,
        last_mint_timestamp: 0,
    };
    (StateAccount { owner: ctx.authority, second_owner: zero_pubkey() }, config)
}

/// What `init_user_account` reads.
pub struct InitUserAccount {
    pub user_authority: Pubkey,
}

/// An empty position owned by `owner`.
pub open spec fn empty_position(owner: Pubkey) -> UserAccount {
    UserAccount {
        owner,
        ust_amount: 0,
        usdc_amount: 0,
        msol_amount: 0,
        srm_amount: 0,
        scnsol_amount: 0,
        stsol_amount: 0,
        btc_amount: 0,
        usdt_amount: 0,
        eth_amount: 0,
    }
}

/// Opens an empty position for the signing user.
pub fn init_user_account(ctx: &InitUserAccount) -> (u: UserAccount)
    ensures
        u == empty_position(ctx.user_authority),
{
    UserAccount {
        owner: ctx.user_authority,
        ust_amount: 0,
        usdc_amount: 0,
        msol_amount: 0,
        srm_amount: 0,
        scnsol_amount: 0,
        stsol_amount: 0,
        btc_amount: 0,
        usdt_amount: 0,
        eth_amount: 0,
    }
}

/// What `deposit_token` reads and writes.
pub struct DepositToken {
    /// Mint of the token deposited.
    pub token_mint: Pubkey,
    pub config: Config,
    pub user_account: UserAccount,
}

/// A deposit of `amount` computes without overflow or division by zero.
pub open spec fn deposit_fits(u: UserAccount, c: Config, mint: Pubkey, amount: u64) -> bool {
    token_of(c, mint) matches Some(t) ==> {
        &&& amount * DENOMINATOR <= u64::MAX
        &&& share_rate(c, t) != 0
        &&& user_shares(u, t) + amount * DENOMINATOR / (share_rate(c, t) as int) <= u64::MAX
        &&& pool_amount(c, t) + amount <= u64::MAX
    }
}

/// How a deposit of `amount` leaves its accounts, and what it answers.
pub open spec fn deposit_done(pre: DepositToken, post: DepositToken, amount: u64, r: Result<(), ErrorCode>) -> bool {
    &&& (amount == 0 ==> r == Err::<(), ErrorCode>(ErrorCode::InvalidAmount) && post == pre)
    &&& (amount != 0 && token_of(pre.config, pre.token_mint) is None ==> r is Ok && post == pre)
    &&& (amount != 0 && token_of(pre.config, pre.token_mint) is Some ==> {
        let t = token_of(pre.config, pre.token_mint)->Some_0;
        &&& r is Ok
        &&& post == (DepositToken {
            user_account: with_user_shares(
                pre.user_account,
                t,
                (user_shares(pre.user_account, t) + amount * DENOMINATOR / (share_rate(pre.config, t) as int)) as u64,
            ),
            config: with_pool_amount(pre.config, t, (pool_amount(pre.config, t) + amount) as u64),
            ..pre
        })
    })
}

/// Deposits `amount` of the token `ctx.token_mint`, credited as shares at the
/// token's rate, rounded down. A mint the pool does not know records
/// nothing. On success the caller moves `amount` from the user to the pool.
pub fn deposit_token(ctx: &mut DepositToken, amount: u64) -> (r: Result<(), ErrorCode>)
    requires
        amount != 0 ==> deposit_fits(old(ctx).user_account, old(ctx).config, old(ctx).token_mint, amount),
    ensures
        amount == 0 ==> r == Err::<(), ErrorCode>(ErrorCode::InvalidAmount) && *final(ctx) == *old(ctx),
        amount != 0 && token_of(old(ctx).config, old(ctx).token_mint) is None ==> r is Ok && *final(ctx)
            == *old(ctx),
        amount != 0 && token_of(old(ctx).config, old(ctx).token_mint) is Some ==> {
            let t = token_of(old(ctx).config, old(ctx).token_mint)->Some_0;
            &&& r is Ok
            &&& *final(ctx) == (DepositToken {
                user_account: with_user_shares(
                    old(ctx).user_account,
                    t,
                    (user_shares(old(ctx).user_account, t) + amount * DENOMINATOR / (share_rate(
                        old(ctx).config,
                        t,
                    ) as int)) as u64,
                ),
                config: with_pool_amount(old(ctx).config, t, (pool_amount(old(ctx).config, t) + amount) as u64),
                ..*old(ctx)
            })
        },
        deposit_done(*old(ctx), *final(ctx), amount, r),
{
    if amount == 0 {
        return Err(ErrorCode::InvalidAmount);
    }
    let t = match find_token(&ctx.config, &ctx.token_mint) {
        None => return Ok(()),
        Some(t) => t,
    };
    let rate = get_share_rate(&ctx.config, t);
    let sum = get_user_shares(&ctx.user_account, t) + amount * DENOMINATOR / rate;
    let pooled = get_pool_amount(&ctx.config, t) + amount;
    ctx.user_account = set_user_shares(&ctx.user_account, t, sum);
    ctx.config = set_pool_amount(&ctx.config, t, pooled);
    Ok(())
}

/// What `withdraw_token` reads and writes.
pub struct WithdrawToken {
    pub program_id: Pubkey,
    /// Address of the configuration account, which signs for the pool.
    pub config_key: Pubkey,
    /// Mint of the token withdrawn.
    pub token_mint: Pubkey,
    pub config: Config,
    pub user_account: UserAccount,
}

/// A withdrawal of `amount` computes without overflow or underflow.
pub open spec fn withdraw_fits(u: UserAccount, c: Config, mint: Pubkey, amount: u64) -> bool {
    token_of(c, mint) matches Some(t) ==> {
        &&& user_shares(u, t) * share_rate(c, t) <= u64::MAX
        &&& (amount <= share_value(user_shares(u, t), share_rate(c, t)) ==> {
            &&& (share_value(user_shares(u, t), share_rate(c, t)) - amount) * DENOMINATOR <= u64::MAX
            &&& pool_amount(c, t) >= amount
        })
    }
}

/// The outcome of a withdrawal: the token withdrawn, or why it is refused.
pub open spec fn withdraw_result(
    u: UserAccount,
    c: Config,
    mint: Pubkey,
    amount: u64,
    program_authority: Option<Pubkey>,
    config_key: Pubkey,
) -> Result<Token, ErrorCode> {
    if amount == 0 {
        Err(ErrorCode::InvalidAmount)
    } else {
        match token_of(c, mint) {
            None => Err(ErrorCode::InvalidToken),
            Some(t) => if amount > share_value(user_shares(u, t), share_rate(c, t)) {
                Err(ErrorCode::ExceedAmount)
            } else if program_authority != Some(config_key) {
                Err(ErrorCode::InvalidOwner)
            } else {
                Ok(t)
            },
        }
    }
}

/// How a withdrawal leaves its accounts: the pool gives up `amount` and the
/// user keeps the shares worth what remains, rounded down.
pub open spec fn withdraw_done(
    pre: WithdrawToken,
    post: WithdrawToken,
    amount: u64,
    program_authority: Option<Pubkey>,
    r: Result<(), ErrorCode>,
) -> bool {
    match withdraw_result(pre.user_account, pre.config, pre.token_mint, amount, program_authority, pre.config_key) {
        Err(e) => r == Err::<(), ErrorCode>(e) && post == pre,
        Ok(t) => {
            let value = share_value(user_shares(pre.user_account, t), share_rate(pre.config, t));
            &&& r is Ok
            &&& post == WithdrawToken {
                user_account: with_user_shares(
                    pre.user_account,
                    t,
                    ((value - amount) * DENOMINATOR / (share_rate(pre.config, t) as int)) as u64,
                ),
                config: with_pool_amount(pre.config, t, (pool_amount(pre.config, t) - amount) as u64),
                ..pre
            }
        },
    }
}

/// Withdraws `amount` of the token `ctx.token_mint`, `program_authority`
/// being the program's derived configuration address. On success the caller
/// moves `amount` from the pool to the user.
pub fn withdraw_token_with_authority(
    ctx: &mut WithdrawToken,
    amount: u64,
    program_authority: Option<Pubkey>,
) -> (r: Result<(), ErrorCode>)
    requires
        amount != 0 ==> withdraw_fits(old(ctx).user_account, old(ctx).config, old(ctx).token_mint, amount),
    ensures
        withdraw_done(*old(ctx), *final(ctx), amount, program_authority, r),
{
    if amount == 0 {
        return Err(ErrorCode::InvalidAmount);
    }
    let t = match find_token(&ctx.config, &ctx.token_mint) {
        None => return Err(ErrorCode::InvalidToken),
        Some(t) => t,
    };
    let shares = get_user_shares(&ctx.user_account, t);
    let rate = get_share_rate(&ctx.config, t);
    let withdrawable_amount = shares * rate / DENOMINATOR;
    if amount > withdrawable_amount {
        return Err(ErrorCode::ExceedAmount);
    }
    proof {
        if rate == 0 {
            vstd::arithmetic::mul::lemma_mul_by_zero_is_zero(shares as int);
            vstd::arithmetic::mul::lemma_mul_is_commutative(shares as int, rate as int);
        }
    }
    let remain_amount = (withdrawable_amount - amount) * DENOMINATOR / rate;
    let pooled = get_pool_amount(&ctx.config, t) - amount;
    let authorized = match program_authority {
        Some(k) => k.key_eq(&ctx.config_key),
        None => false,
    };
    if !authorized {
        return Err(ErrorCode::InvalidOwner);
    }
    ctx.config = set_pool_amount(&ctx.config, t, pooled);
    ctx.user_account = set_user_shares(&ctx.user_account, t, remain_amount);
    Ok(())
}

/// Withdraws `amount` of the token `ctx.token_mint` (see
/// `withdraw_token_with_authority`).
pub fn withdraw_token(ctx: &mut WithdrawToken, amount: u64) -> (r: Result<(), ErrorCode>)
    requires
        amount != 0 ==> withdraw_fits(old(ctx).user_account, old(ctx).config, old(ctx).token_mint, amount),
    ensures
        withdraw_done(*old(ctx), *final(ctx), amount, derived_program_key(PREFIX@, old(ctx).program_id), r),
{
    let program_authority = find_program_key(PREFIX, &ctx.program_id);
    withdraw_token_with_authority(ctx, amount, program_authority)
}

/// What `daily_reward` reads and writes.
pub struct DailyReward {
    /// The signer.
    pub second_owner: Pubkey,
    pub state_account: StateAccount,
    /// Mint of the token rewarded.
    pub token_mint: Pubkey,
    pub config: Config,
    /// The cluster's clock, in seconds.
    pub now: i64,
}

/// A daily reward at the rate `rate` computes without overflow.
pub open spec fn daily_reward_fits(s: StateAccount, signer: Pubkey, c: Config, mint: Pubkey, now: i64, rate: u64) -> bool {
    s.second_owner == signer && rate >= DENOMINATOR ==> {
        &&& i64::MIN <= now - c.last_mint_timestamp <= i64::MAX
        &&& (now - c.last_mint_timestamp >= DAY_IN_SECONDS ==> (token_of(c, mint) matches Some(t) ==> {
            &&& pool_amount(c, t) * (rate - DENOMINATOR) <= u64::MAX
            &&& share_rate(c, t) * rate <= u64::MAX
            &&& pool_amount(c, t) + pool_amount(c, t) * (rate - DENOMINATOR) / (DENOMINATOR as int) <= u64::MAX
        }))
    }
}

/// The outcome of a daily reward: the token and the amount to mint into its
/// pool, or why it is refused.
pub open spec fn daily_reward_result(s: StateAccount, signer: Pubkey, c: Config, mint: Pubkey, now: i64, rate: u64) -> Result<(Token, u64), ErrorCode> {
    if s.second_owner != signer {
        Err(ErrorCode::InvalidOwner)
    } else if rate < DENOMINATOR {
        Err(ErrorCode::InvalidAmount)
    } else if now - c.last_mint_timestamp < DAY_IN_SECONDS {
        Err(ErrorCode::TooOftenMint)
    } else {
        match token_of(c, mint) {
            None => Err(ErrorCode::InvalidToken),
            Some(t) => Ok((t, (pool_amount(c, t) * (rate - DENOMINATOR) / (DENOMINATOR as int)) as u64)),
        }
    }
}

/// The configuration after a daily reward at `rate` and time `now`: the pool
/// of `t` grows by its reward, its share rate by `rate`, and the reward time
/// moves to `now`.
pub open spec fn rewarded_config(c: Config, t: Token, rate: u64, now: i64) -> Config {
    let reward = (pool_amount(c, t) * (rate - DENOMINATOR) / (DENOMINATOR as int)) as u64;
    Config {
        last_mint_timestamp: now,
        ..with_pool(
            c,
            t,
            (pool_amount(c, t) + reward) as u64,
            (share_rate(c, t) * rate / (DENOMINATOR as int)) as u64,
        )
    }
}

/// How a daily reward at `rate` leaves its accounts, and what it answers.
pub open spec fn daily_reward_done(pre: DailyReward, post: DailyReward, rate: u64, r: Result<u64, ErrorCode>) -> bool {
    match daily_reward_result(pre.state_account, pre.second_owner, pre.config, pre.token_mint, pre.now, rate) {
        Err(e) => r == Err::<u64, ErrorCode>(e) && post == pre,
        Ok((t, reward)) => {
            &&& r == Ok::<u64, ErrorCode>(reward)
            &&& post == (DailyReward { config: rewarded_config(pre.config, t, rate, pre.now), ..pre })
        },
    }
}

/// Applies the daily rate `rate` (scaled by `DENOMINATOR`) to the pool of
/// `ctx.token_mint`: at most once a day, the second owner grows the pool by
/// its reward and the share rate by `rate`. On `Ok(m)` the caller mints `m`
/// of the token into the pool.
pub fn daily_reward(ctx: &mut DailyReward, rate: u64) -> (r: Result<u64, ErrorCode>)
    requires
        daily_reward_fits(
            old(ctx).state_account,
            old(ctx).second_owner,
            old(ctx).config,
            old(ctx).token_mint,
            old(ctx).now,
            rate,
        ),
    ensures
        ({
            let res = daily_reward_result(
                old(ctx).state_account,
                old(ctx).second_owner,
                old(ctx).config,
                old(ctx).token_mint,
                old(ctx).now,
                rate,
            );
            match res {
                Err(e) => r == Err::<u64, ErrorCode>(e) && *final(ctx) == *old(ctx),
                Ok((t, reward)) => {
                    &&& r == Ok::<u64, ErrorCode>(reward)
                    &&& *final(ctx) == (DailyReward {
                        config: rewarded_config(old(ctx).config, t, rate, old(ctx).now),
                        ..*old(ctx)
                    })
                },
            }
        }),
        daily_reward_done(*old(ctx), *final(ctx), rate, r),
{
    if !ctx.state_account.second_owner.key_eq(&ctx.second_owner) {
        return Err(ErrorCode::InvalidOwner);
    }
    if rate < DENOMINATOR {
        return Err(ErrorCode::InvalidAmount);
    }
    let dur_seconds = ctx.now - ctx.config.last_mint_timestamp;
    if dur_seconds < DAY_IN_SECONDS {
        return Err(ErrorCode::TooOftenMint);
    }
    let t = match find_token(&ctx.config, &ctx.token_mint) {
        None => return Err(ErrorCode::InvalidToken),
        Some(t) => t,
    };
    let pooled = get_pool_amount(&ctx.config, t);
    let reward_amount = pooled * (rate - DENOMINATOR) / DENOMINATOR;
    let rate_will = get_share_rate(&ctx.config, t) * rate / DENOMINATOR;
    let c1 = set_pool(&ctx.config, t, pooled + reward_amount, rate_will);
    ctx.config = Config { last_mint_timestamp: ctx.now, ..c1 };
    Ok(reward_amount)
}

/// What `update_owner` and `update_second_owner` read and write.
pub struct UpdateConfigAccount {
    /// The signer.
    pub owner: Pubkey,
    pub state_account: StateAccount,
}

/// Hands the pool to `new_owner`; only its owner may, and only to another
/// address.
pub fn update_owner(ctx: &mut UpdateConfigAccount, new_owner: Pubkey) -> (r: Result<(), ErrorCode>)
    ensures
        old(ctx).state_account.owner != old(ctx).owner || old(ctx).owner == new_owner ==> r == Err::<
            (),
            ErrorCode,
        >(ErrorCode::InvalidOwner) && *final(ctx) == *old(ctx),
        old(ctx).state_account.owner == old(ctx).owner && old(ctx).owner != new_owner ==> r is Ok
            && *final(ctx) == (UpdateConfigAccount {
            state_account: StateAccount { owner: new_owner, ..old(ctx).state_account },
            ..*old(ctx)
        }),
{
    if !ctx.state_account.owner.key_eq(&ctx.owner) || ctx.owner.key_eq(&new_owner) {
        return Err(ErrorCode::InvalidOwner);
    }
    ctx.state_account.owner = new_owner;
    Ok(())
}

/// Sets the owner of the daily reward; only the owner may, and only to a
/// different address.
pub fn update_second_owner(ctx: &mut UpdateConfigAccount, new_owner: Pubkey) -> (r: Result<(), ErrorCode>)
    ensures
        old(ctx).state_account.owner != old(ctx).owner || old(ctx).state_account.second_owner == new_owner
            ==> r == Err::<(), ErrorCode>(ErrorCode::InvalidOwner) && *final(ctx) == *old(ctx),
        old(ctx).state_account.owner == old(ctx).owner && old(ctx).state_account.second_owner != new_owner
            ==> r is Ok && *final(ctx) == (UpdateConfigAccount {
            state_account: StateAccount { second_owner: new_owner, ..old(ctx).state_account },
            ..*old(ctx)
        }),
{
    if !ctx.state_account.owner.key_eq(&ctx.owner) || ctx.state_account.second_owner.key_eq(&new_owner) {
        return Err(ErrorCode::InvalidOwner);
    }
    ctx.state_account.second_owner = new_owner;
    Ok(())
}

/// Converting a value `v` to shares at `rate`, rounded down, and back,
/// rounded down, gives at most `v`.
proof fn lemma_round_trip_at_most(v: int, rate: u64)
    requires
        0 <= v,
        rate != 0,
        v * DENOMINATOR <= u64::MAX,
    ensures
        v * DENOMINATOR / (rate as int) <= u64::MAX,
        share_value((v * DENOMINATOR / (rate as int)) as u64, rate) <= v,
{
    let d = DENOMINATOR as int;
    let x = v * d;
    let shares = x / (rate as int);
    vstd::arithmetic::div_mod::lemma_fundamental_div_mod(x, rate as int);
    vstd::arithmetic::div_mod::lemma_mod_pos_bound(x, rate as int);
    assert(0 <= shares <= x && shares * rate <= x) by (nonlinear_arith)
        requires
            x == rate * shares + x % (rate as int),
            0 <= x % (rate as int),
            0 <= x,
            1 <= rate,
    ;
    assert((shares as u64) == shares);
    vstd::arithmetic::div_mod::lemma_div_is_ordered(shares * rate, x, d);
    vstd::arithmetic::mul::lemma_mul_is_commutative(v, d);
    vstd::arithmetic::div_mod::lemma_div_multiples_vanish(v, d);
}

/// A deposit never credits the user with shares worth more than its shares
/// were worth plus the amount deposited.
pub proof fn deposit_credits_at_most_amount(u: UserAccount, c: Config, mint: Pubkey, amount: u64)
    requires
        amount != 0,
        deposit_fits(u, c, mint, amount),
        token_of(c, mint) is Some,
    ensures
        ({
            let t = token_of(c, mint)->0;
            let rate = share_rate(c, t);
            share_value((user_shares(u, t) + amount * DENOMINATOR / (rate as int)) as u64, rate)
                <= share_value(user_shares(u, t), rate) + amount
        }),
{
    let t = token_of(c, mint)->0;
    let rate = share_rate(c, t);
    let d = DENOMINATOR as int;
    let s1 = user_shares(u, t) as int;
    let x = amount * d;
    let s2 = x / (rate as int);
    vstd::arithmetic::div_mod::lemma_fundamental_div_mod(x, rate as int);
    vstd::arithmetic::div_mod::lemma_mod_pos_bound(x, rate as int);
    assert(0 <= s2 && s2 * rate <= x) by (nonlinear_arith)
        requires
            x == rate * s2 + x % (rate as int),
            0 <= x % (rate as int),
            0 <= x,
            1 <= rate,
    ;
    assert(((s1 + s2) as u64) == s1 + s2);
    assert((s1 + s2) * rate <= s1 * rate + amount * d) by (nonlinear_arith)
        requires
            s2 * rate <= x,
            x == amount * d,
    ;
    vstd::arithmetic::div_mod::lemma_div_is_ordered((s1 + s2) * rate, s1 * rate + amount * d, d);
    vstd::arithmetic::div_mod::lemma_hoist_over_denominator(s1 * rate, amount as int, DENOMINATOR as nat);
    vstd::arithmetic::mul::lemma_mul_is_commutative(amount as int, d);
}

/// A withdrawal leaves the user shares worth at most what its shares were
/// worth less the amount withdrawn.
pub proof fn withdrawal_leaves_at_most_rest(
    pre: WithdrawToken,
    post: WithdrawToken,
    amount: u64,
    program_authority: Option<Pubkey>,
    r: Result<(), ErrorCode>,
)
    requires
        amount != 0 ==> withdraw_fits(pre.user_account, pre.config, pre.token_mint, amount),
        withdraw_done(pre, post, amount, program_authority, r),
        r is Ok,
    ensures
        token_of(pre.config, pre.token_mint) is Some,
        ({
            let t = token_of(pre.config, pre.token_mint)->0;
            let rate = share_rate(pre.config, t);
            &&& share_value(user_shares(post.user_account, t), rate) <= share_value(
                user_shares(pre.user_account, t),
                rate,
            ) - amount
            &&& pool_amount(post.config, t) == pool_amount(pre.config, t) - amount
        }),
{
    let t = token_of(pre.config, pre.token_mint)->0;
    let u = pre.user_account;
    let rate = share_rate(pre.config, t);
    let v = share_value(user_shares(u, t), rate) - amount;
    if rate == 0 {
        vstd::arithmetic::mul::lemma_mul_by_zero_is_zero(user_shares(u, t) as int);
        vstd::arithmetic::mul::lemma_mul_is_commutative(user_shares(u, t) as int, rate as int);
    } else {
        lemma_round_trip_at_most(v, rate);
    }
}

/// A daily reward never lowers a share rate or a pool: with `rate` at least
/// one, the rewarded token's pool and share rate do not shrink.
pub proof fn reward_never_shrinks(s: StateAccount, signer: Pubkey, c: Config, mint: Pubkey, now: i64, rate: u64)
    requires
        daily_reward_fits(s, signer, c, mint, now, rate),
        daily_reward_result(s, signer, c, mint, now, rate) is Ok,
    ensures
        ({
            let t = daily_reward_result(s, signer, c, mint, now, rate)->Ok_0.0;
            let c1 = rewarded_config(c, t, rate, now);
            &&& pool_amount(c1, t) >= pool_amount(c, t)
            &&& share_rate(c1, t) >= share_rate(c, t)
        }),
{
    let t = token_of(c, mint)->0;
    let d = DENOMINATOR as int;
    let sr = share_rate(c, t) as int;
    let pa = pool_amount(c, t) as int;
    vstd::arithmetic::mul::lemma_mul_nonnegative(pa, rate - d);
    vstd::arithmetic::div_mod::lemma_div_pos_is_pos(pa * (rate - d), d);
    assert(sr * rate >= sr * d) by (nonlinear_arith)
        requires
            rate >= d,
            sr >= 0,
    ;
    vstd::arithmetic::div_mod::lemma_div_is_ordered(sr * d, sr * rate, d);
    vstd::arithmetic::div_mod::lemma_div_multiples_vanish(sr, d);
    vstd::arithmetic::mul::lemma_mul_is_commutative(sr, d);
    vstd::arithmetic::div_mod::lemma_div_is_ordered(sr * rate, u64::MAX as int, d);
    vstd::arithmetic::div_mod::lemma_div_is_ordered_by_denominator(sr * rate, 1, d);
}

/// Two daily rewards are at least a day apart: right after a reward at
/// `now`, any reward asked for less than a day later is refused.
pub proof fn rewards_a_day_apart(
    s: StateAccount,
    signer: Pubkey,
    c: Config,
    mint: Pubkey,
    now: i64,
    rate: u64,
    signer2: Pubkey,
    mint2: Pubkey,
    now2: i64,
    rate2: u64,
)
    requires
        daily_reward_result(s, signer, c, mint, now, rate) is Ok,
        now2 - now < DAY_IN_SECONDS,
    ensures
        ({
            let t = daily_reward_result(s, signer, c, mint, now, rate)->Ok_0.0;
            daily_reward_result(s, signer2, rewarded_config(c, t, rate, now), mint2, now2, rate2) is Err
        }),
{
}

/// `deposit_fits`, computed.
pub fn check_deposit_fits(u: &UserAccount, c: &Config, mint: &Pubkey, amount: u64) -> (r: bool)
    ensures
        r == deposit_fits(*u, *c, *mint, amount),
{
    let t = match find_token(c, mint) {
        None => return true,
        Some(t) => t,
    };
    let rate = get_share_rate(c, t);
    let scaled = match amount.checked_mul(DENOMINATOR) {
        None => return false,
        Some(x) => x,
    };
    if rate == 0 {
        return false;
    }
    get_user_shares(u, t).checked_add(scaled / rate).is_some() && get_pool_amount(c, t).checked_add(amount).is_some()
}

/// `withdraw_fits`, computed.
pub fn check_withdraw_fits(u: &UserAccount, c: &Config, mint: &Pubkey, amount: u64) -> (r: bool)
    ensures
        r == withdraw_fits(*u, *c, *mint, amount),
{
    let t = match find_token(c, mint) {
        None => return true,
        Some(t) => t,
    };
    let value = match get_user_shares(u, t).checked_mul(get_share_rate(c, t)) {
        None => return false,
        Some(x) => x / DENOMINATOR,
    };
    if amount > value {
        return true;
    }
    (value - amount).checked_mul(DENOMINATOR).is_some() && get_pool_amount(c, t) >= amount
}

/// `daily_reward_fits`, computed.
pub fn check_daily_reward_fits(s: &StateAccount, signer: &Pubkey, c: &Config, mint: &Pubkey, now: i64, rate: u64) -> (r: bool)
    ensures
        r == daily_reward_fits(*s, *signer, *c, *mint, now, rate),
{
    if !s.second_owner.key_eq(signer) || rate < DENOMINATOR {
        return true;
    }
    let dur = match now.checked_sub(c.last_mint_timestamp) {
        None => return false,
        Some(d) => d,
    };
    if dur < DAY_IN_SECONDS {
        return true;
    }
    let t = match find_token(c, mint) {
        None => return true,
        Some(t) => t,
    };
    let pooled = get_pool_amount(c, t);
    let reward = match pooled.checked_mul(rate - DENOMINATOR) {
        None => return false,
        Some(x) => x / DENOMINATOR,
    };
    get_share_rate(c, t).checked_mul(rate).is_some() && pooled.checked_add(reward).is_some()
}

/// The nine token mints are distinct.
pub open spec fn token_mints_distinct(c: Config) -> bool {
    &&& c.ust_mint != c.usdc_mint
    &&& c.ust_mint != c.msol_mint
    &&& c.ust_mint != c.srm_mint
    &&& c.ust_mint != c.scnsol_mint
    &&& c.ust_mint != c.stsol_mint
    &&& c.ust_mint != c.btc_mint
    &&& c.ust_mint != c.usdt_mint
    &&& c.ust_mint != c.eth_mint
    &&& c.usdc_mint != c.msol_mint
    &&& c.usdc_mint != c.srm_mint
    &&& c.usdc_mint != c.scnsol_mint
    &&& c.usdc_mint != c.stsol_mint
    &&& c.usdc_mint != c.btc_mint
    &&& c.usdc_mint != c.usdt_mint
    &&& c.usdc_mint != c.eth_mint
    &&& c.msol_mint != c.srm_mint
    &&& c.msol_mint != c.scnsol_mint
    &&& c.msol_mint != c.stsol_mint
    &&& c.msol_mint != c.btc_mint
    &&& c.msol_mint != c.usdt_mint
    &&& c.msol_mint != c.eth_mint
    &&& c.srm_mint != c.scnsol_mint
    &&& c.srm_mint != c.stsol_mint
    &&& c.srm_mint != c.btc_mint
    &&& c.srm_mint != c.usdt_mint
    &&& c.srm_mint != c.eth_mint
    &&& c.scnsol_mint != c.stsol_mint
    &&& c.scnsol_mint != c.btc_mint
    &&& c.scnsol_mint != c.usdt_mint
    &&& c.scnsol_mint != c.eth_mint
    &&& c.stsol_mint != c.btc_mint
    &&& c.stsol_mint != c.usdt_mint
    &&& c.stsol_mint != c.eth_mint
    &&& c.btc_mint != c.usdt_mint
    &&& c.btc_mint != c.eth_mint
    &&& c.usdt_mint != c.eth_mint
}

/// A deposit credits exactly the token whose mint it names: the user gains
/// the amount's worth of that token's shares at that token's rate, rounded
/// down, the token's pool grows by the amount, and nothing else changes; a
/// mint the pool does not know changes nothing.
pub proof fn deposit_credits_the_token_named(pre: DepositToken, post: DepositToken, amount: u64, r: Result<(), ErrorCode>)
    requires
        token_mints_distinct(pre.config),
        amount != 0,
        deposit_done(pre, post, amount, r),
    ensures
        pre.token_mint == pre.config.ust_mint ==> r is Ok && post.user_account == (UserAccount {
            ust_amount: (pre.user_account.ust_amount + amount * DENOMINATOR / (pre.config.ust_rate as int)) as u64,
            ..pre.user_account
        }) && post.config == (Config { ust_amount: (pre.config.ust_amount + amount) as u64, ..pre.config }),
        pre.token_mint == pre.config.usdc_mint ==> r is Ok && post.user_account == (UserAccount {
            usdc_amount: (pre.user_account.usdc_amount + amount * DENOMINATOR / (pre.config.usdc_rate as int)) as u64,
            ..pre.user_account
        }) && post.config == (Config { usdc_amount: (pre.config.usdc_amount + amount) as u64, ..pre.config }),
        pre.token_mint == pre.config.msol_mint ==> r is Ok && post.user_account == (UserAccount {
            msol_amount: (pre.user_account.msol_amount + amount * DENOMINATOR / (pre.config.msol_rate as int)) as u64,
            ..pre.user_account
        }) && post.config == (Config { msol_amount: (pre.config.msol_amount + amount) as u64, ..pre.config }),
        pre.token_mint == pre.config.srm_mint ==> r is Ok && post.user_account == (UserAccount {
            srm_amount: (pre.user_account.srm_amount + amount * DENOMINATOR / (pre.config.srm_rate as int)) as u64,
            ..pre.user_account
        }) && post.config == (Config { srm_amount: (pre.config.srm_amount + amount) as u64, ..pre.config }),
        pre.token_mint == pre.config.scnsol_mint ==> r is Ok && post.user_account == (UserAccount {
            scnsol_amount: (pre.user_account.scnsol_amount + amount * DENOMINATOR / (pre.config.scnsol_rate as int)) as u64,
            ..pre.user_account
        }) && post.config == (Config { scnsol_amount: (pre.config.scnsol_amount + amount) as u64, ..pre.config }),
        pre.token_mint == pre.config.stsol_mint ==> r is Ok && post.user_account == (UserAccount {
            stsol_amount: (pre.user_account.stsol_amount + amount * DENOMINATOR / (pre.config.stsol_rate as int)) as u64,
            ..pre.user_account
        }) && post.config == (Config { stsol_amount: (pre.config.stsol_amount + amount) as u64, ..pre.config }),
        pre.token_mint == pre.config.btc_mint ==> r is Ok && post.user_account == (UserAccount {
            btc_amount: (pre.user_account.btc_amount + amount * DENOMINATOR / (pre.config.btc_rate as int)) as u64,
            ..pre.user_account
        }) && post.config == (Config { btc_amount: (pre.config.btc_amount + amount) as u64, ..pre.config }),
        pre.token_mint == pre.config.usdt_mint ==> r is Ok && post.user_account == (UserAccount {
            usdt_amount: (pre.user_account.usdt_amount + amount * DENOMINATOR / (pre.config.usdt_rate as int)) as u64,
            ..pre.user_account
        }) && post.config == (Config { usdt_amount: (pre.config.usdt_amount + amount) as u64, ..pre.config }),
        pre.token_mint == pre.config.eth_mint ==> r is Ok && post.user_account == (UserAccount {
            eth_amount: (pre.user_account.eth_amount + amount * DENOMINATOR / (pre.config.eth_rate as int)) as u64,
            ..pre.user_account
        }) && post.config == (Config { eth_amount: (pre.config.eth_amount + amount) as u64, ..pre.config }),
        pre.token_mint != pre.config.ust_mint && pre.token_mint != pre.config.usdc_mint && pre.token_mint != pre.config.msol_mint && pre.token_mint != pre.config.srm_mint && pre.token_mint != pre.config.scnsol_mint && pre.token_mint != pre.config.stsol_mint && pre.token_mint != pre.config.btc_mint && pre.token_mint != pre.config.usdt_mint && pre.token_mint != pre.config.eth_mint ==> r is Ok && post == pre,
{
}

/// A withdrawal draws on exactly the token whose mint it names: more than
/// the user's shares of that token are worth at its rate is refused with
/// `ExceedAmount`; on success the token's pool falls by the amount, the user
/// keeps the shares worth what remains, and nothing else changes.
pub proof fn withdrawal_draws_the_token_named(
    pre: WithdrawToken,
    post: WithdrawToken,
    amount: u64,
    program_authority: Option<Pubkey>,
    r: Result<(), ErrorCode>,
)
    requires
        token_mints_distinct(pre.config),
        withdraw_done(pre, post, amount, program_authority, r),
    ensures
        pre.token_mint == pre.config.ust_mint && amount != 0 && amount > pre.user_account.ust_amount
            * pre.config.ust_rate / (DENOMINATOR as int) ==> r == Err::<(), ErrorCode>(ErrorCode::ExceedAmount)
            && post == pre,
        pre.token_mint == pre.config.ust_mint && r is Ok ==> post.user_account == (UserAccount {
            ust_amount: ((pre.user_account.ust_amount * pre.config.ust_rate / (DENOMINATOR as int) - amount)
                * DENOMINATOR / (pre.config.ust_rate as int)) as u64,
            ..pre.user_account
        }) && post.config == (Config { ust_amount: (pre.config.ust_amount - amount) as u64, ..pre.config }),
        pre.token_mint == pre.config.usdc_mint && amount != 0 && amount > pre.user_account.usdc_amount
            * pre.config.usdc_rate / (DENOMINATOR as int) ==> r == Err::<(), ErrorCode>(ErrorCode::ExceedAmount)
            && post == pre,
        pre.token_mint == pre.config.usdc_mint && r is Ok ==> post.user_account == (UserAccount {
            usdc_amount: ((pre.user_account.usdc_amount * pre.config.usdc_rate / (DENOMINATOR as int) - amount)
                * DENOMINATOR / (pre.config.usdc_rate as int)) as u64,
            ..pre.user_account
        }) && post.config == (Config { usdc_amount: (pre.config.usdc_amount - amount) as u64, ..pre.config }),
        pre.token_mint == pre.config.msol_mint && amount != 0 && amount > pre.user_account.msol_amount
            * pre.config.msol_rate / (DENOMINATOR as int) ==> r == Err::<(), ErrorCode>(ErrorCode::ExceedAmount)
            && post == pre,
        pre.token_mint == pre.config.msol_mint && r is Ok ==> post.user_account == (UserAccount {
            msol_amount: ((pre.user_account.msol_amount * pre.config.msol_rate / (DENOMINATOR as int) - amount)
                * DENOMINATOR / (pre.config.msol_rate as int)) as u64,
            ..pre.user_account
        }) && post.config == (Config { msol_amount: (pre.config.msol_amount - amount) as u64, ..pre.config }),
        pre.token_mint == pre.config.srm_mint && amount != 0 && amount > pre.user_account.srm_amount
            * pre.config.srm_rate / (DENOMINATOR as int) ==> r == Err::<(), ErrorCode>(ErrorCode::ExceedAmount)
            && post == pre,
        pre.token_mint == pre.config.srm_mint && r is Ok ==> post.user_account == (UserAccount {
            srm_amount: ((pre.user_account.srm_amount * pre.config.srm_rate / (DENOMINATOR as int) - amount)
                * DENOMINATOR / (pre.config.srm_rate as int)) as u64,
            ..pre.user_account
        }) && post.config == (Config { srm_amount: (pre.config.srm_amount - amount) as u64, ..pre.config }),
        pre.token_mint == pre.config.scnsol_mint && amount != 0 && amount > pre.user_account.scnsol_amount
            * pre.config.scnsol_rate / (DENOMINATOR as int) ==> r == Err::<(), ErrorCode>(ErrorCode::ExceedAmount)
            && post == pre,
        pre.token_mint == pre.config.scnsol_mint && r is Ok ==> post.user_account == (UserAccount {
            scnsol_amount: ((pre.user_account.scnsol_amount * pre.config.scnsol_rate / (DENOMINATOR as int) - amount)
                * DENOMINATOR / (pre.config.scnsol_rate as int)) as u64,
            ..pre.user_account
        }) && post.config == (Config { scnsol_amount: (pre.config.scnsol_amount - amount) as u64, ..pre.config }),
        pre.token_mint == pre.config.stsol_mint && amount != 0 && amount > pre.user_account.stsol_amount
            * pre.config.stsol_rate / (DENOMINATOR as int) ==> r == Err::<(), ErrorCode>(ErrorCode::ExceedAmount)
            && post == pre,
        pre.token_mint == pre.config.stsol_mint && r is Ok ==> post.user_account == (UserAccount {
            stsol_amount: ((pre.user_account.stsol_amount * pre.config.stsol_rate / (DENOMINATOR as int) - amount)
                * DENOMINATOR / (pre.config.stsol_rate as int)) as u64,
            ..pre.user_account
        }) && post.config == (Config { stsol_amount: (pre.config.stsol_amount - amount) as u64, ..pre.config }),
        pre.token_mint == pre.config.btc_mint && amount != 0 && amount > pre.user_account.btc_amount
            * pre.config.btc_rate / (DENOMINATOR as int) ==> r == Err::<(), ErrorCode>(ErrorCode::ExceedAmount)
            && post == pre,
        pre.token_mint == pre.config.btc_mint && r is Ok ==> post.user_account == (UserAccount {
            btc_amount: ((pre.user_account.btc_amount * pre.config.btc_rate / (DENOMINATOR as int) - amount)
                * DENOMINATOR / (pre.config.btc_rate as int)) as u64,
            ..pre.user_account
        }) && post.config == (Config { btc_amount: (pre.config.btc_amount - amount) as u64, ..pre.config }),
        pre.token_mint == pre.config.usdt_mint && amount != 0 && amount > pre.user_account.usdt_amount
            * pre.config.usdt_rate / (DENOMINATOR as int) ==> r == Err::<(), ErrorCode>(ErrorCode::ExceedAmount)
            && post == pre,
        pre.token_mint == pre.config.usdt_mint && r is Ok ==> post.user_account == (UserAccount {
            usdt_amount: ((pre.user_account.usdt_amount * pre.config.usdt_rate / (DENOMINATOR as int) - amount)
                * DENOMINATOR / (pre.config.usdt_rate as int)) as u64,
            ..pre.user_account
        }) && post.config == (Config { usdt_amount: (pre.config.usdt_amount - amount) as u64, ..pre.config }),
        pre.token_mint == pre.config.eth_mint && amount != 0 && amount > pre.user_account.eth_amount
            * pre.config.eth_rate / (DENOMINATOR as int) ==> r == Err::<(), ErrorCode>(ErrorCode::ExceedAmount)
            && post == pre,
        pre.token_mint == pre.config.eth_mint && r is Ok ==> post.user_account == (UserAccount {
            eth_amount: ((pre.user_account.eth_amount * pre.config.eth_rate / (DENOMINATOR as int) - amount)
                * DENOMINATOR / (pre.config.eth_rate as int)) as u64,
            ..pre.user_account
        }) && post.config == (Config { eth_amount: (pre.config.eth_amount - amount) as u64, ..pre.config }),
{
}

/// A daily reward grows exactly the pool whose mint it names: it mints that
/// pool's amount times the rate above one, rounded down, into it, raises
/// that token's share rate by the rate, and changes no other pool or rate.
pub proof fn daily_reward_grows_the_token_named(pre: DailyReward, post: DailyReward, rate: u64, r: Result<u64, ErrorCode>)
    requires
        token_mints_distinct(pre.config),
        daily_reward_done(pre, post, rate, r),
    ensures
        pre.token_mint == pre.config.ust_mint && r is Ok ==> r == Ok::<u64, ErrorCode>(
            (pre.config.ust_amount * (rate - DENOMINATOR) / (DENOMINATOR as int)) as u64,
        ) && post.config == (Config {
            ust_amount: (pre.config.ust_amount + (pre.config.ust_amount * (rate - DENOMINATOR) / (DENOMINATOR as int)) as u64) as u64,
            ust_rate: (pre.config.ust_rate * rate / (DENOMINATOR as int)) as u64,
            last_mint_timestamp: pre.now,
            ..pre.config
        }),
        pre.token_mint == pre.config.usdc_mint && r is Ok ==> r == Ok::<u64, ErrorCode>(
            (pre.config.usdc_amount * (rate - DENOMINATOR) / (DENOMINATOR as int)) as u64,
        ) && post.config == (Config {
            usdc_amount: (pre.config.usdc_amount + (pre.config.usdc_amount * (rate - DENOMINATOR) / (DENOMINATOR as int)) as u64) as u64,
            usdc_rate: (pre.config.usdc_rate * rate / (DENOMINATOR as int)) as u64,
            last_mint_timestamp: pre.now,
            ..pre.config
        }),
        pre.token_mint == pre.config.msol_mint && r is Ok ==> r == Ok::<u64, ErrorCode>(
            (pre.config.msol_amount * (rate - DENOMINATOR) / (DENOMINATOR as int)) as u64,
        ) && post.config == (Config {
            msol_amount: (pre.config.msol_amount + (pre.config.msol_amount * (rate - DENOMINATOR) / (DENOMINATOR as int)) as u64) as u64,
            msol_rate: (pre.config.msol_rate * rate / (DENOMINATOR as int)) as u64,
            last_mint_timestamp: pre.now,
            ..pre.config
        }),
        pre.token_mint == pre.config.srm_mint && r is Ok ==> r == Ok::<u64, ErrorCode>(
            (pre.config.srm_amount * (rate - DENOMINATOR) / (DENOMINATOR as int)) as u64,
        ) && post.config == (Config {
            srm_amount: (pre.config.srm_amount + (pre.config.srm_amount * (rate - DENOMINATOR) / (DENOMINATOR as int)) as u64) as u64,
            srm_rate: (pre.config.srm_rate * rate / (DENOMINATOR as int)) as u64,
            last_mint_timestamp: pre.now,
            ..pre.config
        }),
        pre.token_mint == pre.config.scnsol_mint && r is Ok ==> r == Ok::<u64, ErrorCode>(
            (pre.config.scnsol_amount * (rate - DENOMINATOR) / (DENOMINATOR as int)) as u64,
        ) && post.config == (Config {
            scnsol_amount: (pre.config.scnsol_amount + (pre.config.scnsol_amount * (rate - DENOMINATOR) / (DENOMINATOR as int)) as u64) as u64,
            scnsol_rate: (pre.config.scnsol_rate * rate / (DENOMINATOR as int)) as u64,
            last_mint_timestamp: pre.now,
            ..pre.config
        }),
        pre.token_mint == pre.config.stsol_mint && r is Ok ==> r == Ok::<u64, ErrorCode>(
            (pre.config.stsol_amount * (rate - DENOMINATOR) / (DENOMINATOR as int)) as u64,
        ) && post.config == (Config {
            stsol_amount: (pre.config.stsol_amount + (pre.config.stsol_amount * (rate - DENOMINATOR) / (DENOMINATOR as int)) as u64) as u64,
            stsol_rate: (pre.config.stsol_rate * rate / (DENOMINATOR as int)) as u64,
            last_mint_timestamp: pre.now,
            ..pre.config
        }),
        pre.token_mint == pre.config.btc_mint && r is Ok ==> r == Ok::<u64, ErrorCode>(
            (pre.config.btc_amount * (rate - DENOMINATOR) / (DENOMINATOR as int)) as u64,
        ) && post.config == (Config {
            btc_amount: (pre.config.btc_amount + (pre.config.btc_amount * (rate - DENOMINATOR) / (DENOMINATOR as int)) as u64) as u64,
            btc_rate: (pre.config.btc_rate * rate / (DENOMINATOR as int)) as u64,
            last_mint_timestamp: pre.now,
            ..pre.config
        }),
        pre.token_mint == pre.config.usdt_mint && r is Ok ==> r == Ok::<u64, ErrorCode>(
            (pre.config.usdt_amount * (rate - DENOMINATOR) / (DENOMINATOR as int)) as u64,
        ) && post.config == (Config {
            usdt_amount: (pre.config.usdt_amount + (pre.config.usdt_amount * (rate - DENOMINATOR) / (DENOMINATOR as int)) as u64) as u64,
            usdt_rate: (pre.config.usdt_rate * rate / (DENOMINATOR as int)) as u64,
            last_mint_timestamp: pre.now,
            ..pre.config
        }),
        pre.token_mint == pre.config.eth_mint && r is Ok ==> r == Ok::<u64, ErrorCode>(
            (pre.config.eth_amount * (rate - DENOMINATOR) / (DENOMINATOR as int)) as u64,
        ) && post.config == (Config {
            eth_amount: (pre.config.eth_amount + (pre.config.eth_amount * (rate - DENOMINATOR) / (DENOMINATOR as int)) as u64) as u64,
            eth_rate: (pre.config.eth_rate * rate / (DENOMINATOR as int)) as u64,
            last_mint_timestamp: pre.now,
            ..pre.config
        }),
{
}

/// Each configured mint selects its own token, where the mints are
/// distinct.
pub proof fn each_mint_selects_its_token(c: Config)
    requires
        token_mints_distinct(c),
    ensures
        token_of(c, c.ust_mint) == Some(Token::Ust),
        token_of(c, c.usdc_mint) == Some(Token::Usdc),
        token_of(c, c.msol_mint) == Some(Token::Msol),
        token_of(c, c.srm_mint) == Some(Token::Srm),
        token_of(c, c.scnsol_mint) == Some(Token::Scnsol),
        token_of(c, c.stsol_mint) == Some(Token::Stsol),
        token_of(c, c.btc_mint) == Some(Token::Btc),
        token_of(c, c.usdt_mint) == Some(Token::Usdt),
        token_of(c, c.eth_mint) == Some(Token::Eth),
{
}

/// Shares are worth their number times the share rate, rounded down.
pub proof fn share_value_rounds_down(shares: u64, rate: u64)
    ensures
        share_value(shares, rate) * DENOMINATOR <= shares * rate,
        shares * rate < (share_value(shares, rate) + 1) * DENOMINATOR,
{
    vstd::arithmetic::mul::lemma_mul_nonnegative(shares as int, rate as int);
    crate::value::lemma_quotient_rounds_down(shares * rate, DENOMINATOR as int);
}

} // verus!
