//! The LP token mints: the borrowing protocol mints and burns LP tokens,
//! the owner mints and burns by hand, and a daily DAO reward is minted.
use vstd::prelude::*;
use crate::pubkey::{Pubkey, zero_key, zero_pubkey};
use crate::pda::{derived_program_key, find_program_key};

verus! {

/// Decimals of the LP token mints.
pub const LP_TOKEN_DECIMALS: u8 = 9;
/// Seed of the mint authority.
pub const PREFIX: &'static str = "lpfinance";
/// Initial supply of the DAO token, in whole tokens.
pub const INITIAL_SUPPLY: u64 = 500000000;
/// A day, in seconds.
pub const DAY_IN_SECONDS: i64 = 86400;
/// The daily DAO reward rate, scaled by `DENOMINATOR`.
pub const DAILY_REWARD_RATE: u64 = 809;
/// Scale of `DAILY_REWARD_RATE`.
pub const DENOMINATOR: u64 = 10000000;

/// The token program's state account.
#[derive(Clone, Copy, Debug)]
pub struct TokenStateAccount {
    pub owner: Pubkey,
    pub cbs_account: Pubkey,
    pub second_owner: Pubkey,
}

/// The token program's configuration.
#[derive(Clone, Copy, Debug)]
pub struct Config {
    pub state_account: Pubkey,
    pub lpbtc_mint: Pubkey,
    pub lpusd_mint: Pubkey,
    pub lpsol_mint: Pubkey,
    pub last_mint_timestamp: i64,
}

/// Bump seeds of the program's accounts.
#[derive(Clone, Copy, Debug)]
pub struct ProgramBumps {
    pub state_account: u8,
    pub lpbtc_mint: u8,
    pub lpsol_mint: u8,
    pub lpusd_mint: u8,
}

/// Why an instruction is refused.
#[derive(Clone, Copy, Debug, PartialEq, Eq, Structural)]
pub enum ErrorCode {
    InvalidAmount,
    InvalidOwner,
    TooOftenMint,
}

/// Whether `program_authority` is `state_account`.
fn is_authority(program_authority: Option<Pubkey>, state_account: &Pubkey) -> (r: bool)
    ensures
        r == (program_authority == Some(*state_account)),
{
    match program_authority {
        Some(k) => k.key_eq(state_account),
        None => false,
    }
}

/// What `initialize` reads.
pub struct Initialize {
    pub authority: Pubkey,
    pub state_account: Pubkey,
    pub lpbtc_mint: Pubkey,
    pub lpsol_mint: Pubkey,
    pub lpusd_mint: Pubkey,
}

/// Sets up the token program: its state account, owned by the authority,
/// and its configuration.
pub fn initialize(ctx: &Initialize) -> (r: (TokenStateAccount, Config))
    ensures
        r.0 == (TokenStateAccount { owner: ctx.authority, cbs_account: zero_key(), second_owner: zero_key() }),
        r.1 == (Config {
            state_account: ctx.state_account,
            lpbtc_mint: ctx.lpbtc_mint,
            lpusd_mint: ctx.lpusd_mint,
            lpsol_mint: ctx.lpsol_mint,
            last_mint_timestamp: 0,
        }),
{
    let zero = zero_pubkey();
    (
        TokenStateAccount { owner: ctx.authority, cbs_account: zero, second_owner: zero },
        Config {
            state_account: ctx.state_account,
            lpbtc_mint: ctx.lpbtc_mint,
            lpusd_mint: ctx.lpusd_mint,
            lpsol_mint: ctx.lpsol_mint,
            last_mint_timestamp: 0,
        },
    )
}

/// What `mint_lptoken` and `burn_lptoken` read.
pub struct MintLpToken {
    pub program_id: Pubkey,
    /// Address of the state account, the mint authority.
    pub state_account: Pubkey,
}

/// Checks a mint of `amount` LP tokens to the protocol's account,
/// `program_authority` being the program's derived state address; on
/// success the caller mints `amount`.
pub fn mint_lptoken_with_authority(ctx: &MintLpToken, amount: u64, program_authority: Option<Pubkey>) -> (r: Result<(), ErrorCode>)
    ensures
        amount == 0 ==> r == Err::<(), ErrorCode>(ErrorCode::InvalidAmount),
        amount != 0 && program_authority != Some(ctx.state_account) ==> r == Err::<(), ErrorCode>(ErrorCode::InvalidOwner),
        amount != 0 && program_authority == Some(ctx.state_account) ==> r is Ok,
{
    if amount == 0 {
        return Err(ErrorCode::InvalidAmount);
    }
    if !is_authority(program_authority, &ctx.state_account) {
        return Err(ErrorCode::InvalidOwner);
    }
    Ok(())
}

/// Checks a mint of `amount` LP tokens to the protocol's account (see
/// `mint_lptoken_with_authority`).
pub fn mint_lptoken(ctx: &MintLpToken, amount: u64) -> (r: Result<(), ErrorCode>)
    ensures
        amount == 0 ==> r == Err::<(), ErrorCode>(ErrorCode::InvalidAmount),
        amount != 0 && derived_program_key(PREFIX@, ctx.program_id) != Some(ctx.state_account) ==> r == Err::<
            (),
            ErrorCode,
        >(ErrorCode::InvalidOwner),
        amount != 0 && derived_program_key(PREFIX@, ctx.program_id) == Some(ctx.state_account) ==> r is Ok,
{
    let program_authority = find_program_key(PREFIX, &ctx.program_id);
    mint_lptoken_with_authority(ctx, amount, program_authority)
}

/// What `burn_lptoken` reads.
pub struct BurnLpToken {
    pub program_id: Pubkey,
    /// Address of the state account, the mint authority.
    pub state_account: Pubkey,
}

/// Checks a burn of `amount` LP tokens from the protocol's account; on
/// success the caller burns `amount`. It is checked as a mint is.
pub fn burn_lptoken(ctx: &BurnLpToken, amount: u64) -> (r: Result<(), ErrorCode>)
    ensures
        amount == 0 ==> r == Err::<(), ErrorCode>(ErrorCode::InvalidAmount),
        amount != 0 && derived_program_key(PREFIX@, ctx.program_id) != Some(ctx.state_account) ==> r == Err::<
            (),
            ErrorCode,
        >(ErrorCode::InvalidOwner),
        amount != 0 && derived_program_key(PREFIX@, ctx.program_id) == Some(ctx.state_account) ==> r is Ok,
{
    let program_authority = find_program_key(PREFIX, &ctx.program_id);
    let as_mint = MintLpToken { program_id: ctx.program_id, state_account: ctx.state_account };
    mint_lptoken_with_authority(&as_mint, amount, program_authority)
}

/// What `owner_mint_lptoken` and `owner_burn_lptoken` read.
pub struct OwnerLpToken {
    pub program_id: Pubkey,
    /// The signer.
    pub owner: Pubkey,
    /// Address of the state account, the mint authority.
    pub state_account_key: Pubkey,
    pub state_account: TokenStateAccount,
}

/// Checks a mint of `amount` LP tokens by the owner to its own account,
/// `program_authority` being the program's derived state address; on
/// success the caller mints `amount`.
pub fn owner_mint_lptoken_with_authority(ctx: &OwnerLpToken, amount: u64, program_authority: Option<Pubkey>) -> (r: Result<(), ErrorCode>)
    ensures
        amount == 0 ==> r == Err::<(), ErrorCode>(ErrorCode::InvalidAmount),
        amount != 0 && ctx.state_account.owner != ctx.owner ==> r == Err::<(), ErrorCode>(ErrorCode::InvalidOwner),
        amount != 0 && ctx.state_account.owner == ctx.owner && program_authority != Some(ctx.state_account_key)
            ==> r == Err::<(), ErrorCode>(ErrorCode::InvalidOwner),
        amount != 0 && ctx.state_account.owner == ctx.owner && program_authority == Some(ctx.state_account_key)
            ==> r is Ok,
{
    if amount == 0 {
        return Err(ErrorCode::InvalidAmount);
    }
    if !ctx.state_account.owner.key_eq(&ctx.owner) {
        return Err(ErrorCode::InvalidOwner);
    }
    if !is_authority(program_authority, &ctx.state_account_key) {
        return Err(ErrorCode::InvalidOwner);
    }
    Ok(())
}

/// Checks a mint of `amount` LP tokens by the owner (see
/// `owner_mint_lptoken_with_authority`).
pub fn owner_mint_lptoken(ctx: &OwnerLpToken, amount: u64) -> (r: Result<(), ErrorCode>)
    ensures
        amount == 0 ==> r == Err::<(), ErrorCode>(ErrorCode::InvalidAmount),
        amount != 0 && (ctx.state_account.owner != ctx.owner || derived_program_key(PREFIX@, ctx.program_id)
            != Some(ctx.state_account_key)) ==> r == Err::<(), ErrorCode>(ErrorCode::InvalidOwner),
        amount != 0 && ctx.state_account.owner == ctx.owner && derived_program_key(PREFIX@, ctx.program_id) == Some(
            ctx.state_account_key,
        ) ==> r is Ok,
{
    let program_authority = find_program_key(PREFIX, &ctx.program_id);
    owner_mint_lptoken_with_authority(ctx, amount, program_authority)
}

/// Checks a burn of `amount` LP tokens by the owner from its own account; on
/// success the caller burns `amount`.
pub fn owner_burn_lptoken(ctx: &OwnerLpToken, amount: u64) -> (r: Result<(), ErrorCode>)
    ensures
        amount == 0 ==> r == Err::<(), ErrorCode>(ErrorCode::InvalidAmount),
        amount != 0 && ctx.state_account.owner != ctx.owner ==> r == Err::<(), ErrorCode>(ErrorCode::InvalidOwner),
        amount != 0 && ctx.state_account.owner == ctx.owner ==> r is Ok,
{
    if amount == 0 {
        return Err(ErrorCode::InvalidAmount);
    }
    if !ctx.state_account.owner.key_eq(&ctx.owner) {
        return Err(ErrorCode::InvalidOwner);
    }
    Ok(())
}

/// What the owner's updates of the state account read and write.
pub struct UpdateStateAccount {
    /// The signer.
    pub owner: Pubkey,
    pub state_account: TokenStateAccount,
}

/// Records the borrowing protocol's account; only the owner may.
pub fn update_cbs_account(ctx: &mut UpdateStateAccount, new_cbs: Pubkey) -> (r: Result<(), ErrorCode>)
    ensures
        old(ctx).state_account.owner != old(ctx).owner ==> r == Err::<(), ErrorCode>(ErrorCode::InvalidOwner)
            && *final(ctx) == *old(ctx),
        old(ctx).state_account.owner == old(ctx).owner ==> r is Ok && *final(ctx) == (UpdateStateAccount {
            state_account: TokenStateAccount { cbs_account: new_cbs, ..old(ctx).state_account },
            ..*old(ctx)
        }),
{
    if !ctx.state_account.owner.key_eq(&ctx.owner) {
        return Err(ErrorCode::InvalidOwner);
    }
    ctx.state_account.cbs_account = new_cbs;
    Ok(())
}

/// Hands the program to `new_owner`; only the owner may, and only to another
/// address.
pub fn update_owner(ctx: &mut UpdateStateAccount, new_owner: Pubkey) -> (r: Result<(), ErrorCode>)
    ensures
        old(ctx).state_account.owner != old(ctx).owner || old(ctx).owner == new_owner ==> r == Err::<
            (),
            ErrorCode,
        >(ErrorCode::InvalidOwner) && *final(ctx) == *old(ctx),
        old(ctx).state_account.owner == old(ctx).owner && old(ctx).owner != new_owner ==> r is Ok && *final(ctx)
            == (UpdateStateAccount {
            state_account: TokenStateAccount { owner: new_owner, ..old(ctx).state_account },
            ..*old(ctx)
        }),
{
    if !ctx.state_account.owner.key_eq(&ctx.owner) || ctx.owner.key_eq(&new_owner) {
        return Err(ErrorCode::InvalidOwner);
    }
    ctx.state_account.owner = new_owner;
    Ok(())
}

/// Sets the owner of the DAO reward; only the owner may, and only to a
/// different address.
pub fn update_second_owner(ctx: &mut UpdateStateAccount, new_owner: Pubkey) -> (r: Result<(), ErrorCode>)
    ensures
        old(ctx).state_account.owner != old(ctx).owner || old(ctx).state_account.second_owner == new_owner ==> r
            == Err::<(), ErrorCode>(ErrorCode::InvalidOwner) && *final(ctx) == *old(ctx),
        old(ctx).state_account.owner == old(ctx).owner && old(ctx).state_account.second_owner != new_owner ==> r
            is Ok && *final(ctx) == (UpdateStateAccount {
            state_account: TokenStateAccount { second_owner: new_owner, ..old(ctx).state_account },
            ..*old(ctx)
        }),
{
    if !ctx.state_account.owner.key_eq(&ctx.owner) || ctx.state_account.second_owner.key_eq(&new_owner) {
        return Err(ErrorCode::InvalidOwner);
    }
    ctx.state_account.second_owner = new_owner;
    Ok(())
}

/// What `mint_dao_lptoken` reads and writes.
pub struct MintDaoLpToken {
    pub program_id: Pubkey,
    /// The signer.
    pub owner: Pubkey,
    /// Address of the state account, the mint authority.
    pub state_account_key: Pubkey,
    pub state_account: TokenStateAccount,
    pub config: Config,
    /// Supply of the LP token mint.
    pub lptoken_supply: u64,
    /// The cluster's clock, in seconds.
    pub now: i64,
}

/// The DAO reward on a supply: the daily rate of it, rounded down.
pub open spec fn dao_reward(supply: u64) -> int {
    supply * DAILY_REWARD_RATE / (DENOMINATOR as int)
}

/// A DAO reward computes without overflow.
pub open spec fn dao_reward_fits(ctx: MintDaoLpToken) -> bool {
    ctx.lptoken_supply != 0 && ctx.state_account.second_owner == ctx.owner ==> {
        &&& i64::MIN <= ctx.now - ctx.config.last_mint_timestamp <= i64::MAX
        &&& (ctx.now - ctx.config.last_mint_timestamp >= DAY_IN_SECONDS ==> ctx.lptoken_supply * DAILY_REWARD_RATE
            <= u64::MAX)
    }
}

/// The outcome of a DAO reward: the amount to mint, or why it is refused.
pub open spec fn dao_reward_result(ctx: MintDaoLpToken, authorized: bool) -> Result<u64, ErrorCode> {
    if ctx.lptoken_supply == 0 {
        Err(ErrorCode::InvalidAmount)
    } else if ctx.state_account.second_owner != ctx.owner {
        Err(ErrorCode::InvalidOwner)
    } else if ctx.now - ctx.config.last_mint_timestamp < DAY_IN_SECONDS {
        Err(ErrorCode::TooOftenMint)
    } else if !authorized {
        Err(ErrorCode::InvalidOwner)
    } else {
        Ok(dao_reward(ctx.lptoken_supply) as u64)
    }
}

/// Mints the daily DAO reward, `program_authority` being the program's
/// derived state address: at most once a day, the second owner mints the
/// reward rate of the supply to its account. On `Ok(m)` the caller mints
/// `m`.
pub fn mint_dao_lptoken_with_authority(ctx: &mut MintDaoLpToken, program_authority: Option<Pubkey>) -> (r: Result<u64, ErrorCode>)
    requires
        dao_reward_fits(*old(ctx)),
    ensures
        r == dao_reward_result(*old(ctx), program_authority == Some(old(ctx).state_account_key)),
        r is Err ==> *final(ctx) == *old(ctx),
        r is Ok ==> *final(ctx) == (MintDaoLpToken {
            config: Config { last_mint_timestamp: old(ctx).now, ..old(ctx).config },
            ..*old(ctx)
        }),
{
    let total_supply = ctx.lptoken_supply;
    if total_supply == 0 {
        return Err(ErrorCode::InvalidAmount);
    }
    if !ctx.state_account.second_owner.key_eq(&ctx.owner) {
        return Err(ErrorCode::InvalidOwner);
    }
    let dur_seconds = ctx.now - ctx.config.last_mint_timestamp;
    if dur_seconds < DAY_IN_SECONDS {
        return Err(ErrorCode::TooOftenMint);
    }
    let mint_amount = total_supply * DAILY_REWARD_RATE / DENOMINATOR;
    if !is_authority(program_authority, &ctx.state_account_key) {
        return Err(ErrorCode::InvalidOwner);
    }
    ctx.config.last_mint_timestamp = ctx.now;
    Ok(mint_amount)
}

/// Mints the daily DAO reward (see `mint_dao_lptoken_with_authority`).
pub fn mint_dao_lptoken(ctx: &mut MintDaoLpToken) -> (r: Result<u64, ErrorCode>)
    requires
        dao_reward_fits(*old(ctx)),
    ensures
        r == dao_reward_result(
            *old(ctx),
            derived_program_key(PREFIX@, old(ctx).program_id) == Some(old(ctx).state_account_key),
        ),
        r is Err ==> *final(ctx) == *old(ctx),
        r is Ok ==> *final(ctx) == (MintDaoLpToken {
            config: Config { last_mint_timestamp: old(ctx).now, ..old(ctx).config },
            ..*old(ctx)
        }),
{
    let program_authority = find_program_key(PREFIX, &ctx.program_id);
    mint_dao_lptoken_with_authority(ctx, program_authority)
}

/// Two DAO rewards are at least a day apart: once a reward at `ctx.now` has
/// been recorded, any reward asked for less than a day later is refused.
pub proof fn dao_rewards_a_day_apart(ctx: MintDaoLpToken, authorized: bool, next: MintDaoLpToken, next_authorized: bool)
    requires
        dao_reward_result(ctx, authorized) is Ok,
        next.config.last_mint_timestamp == ctx.now,
        next.now - ctx.now < DAY_IN_SECONDS,
    ensures
        dao_reward_result(next, next_authorized) is Err,
{
}

/// `dao_reward_fits`, computed.
pub fn check_dao_reward_fits(ctx: &MintDaoLpToken) -> (r: bool)
    ensures
        r == dao_reward_fits(*ctx),
{
    if ctx.lptoken_supply == 0 || !ctx.state_account.second_owner.key_eq(&ctx.owner) {
        return true;
    }
    let dur = match ctx.now.checked_sub(ctx.config.last_mint_timestamp) {
        None => return false,
        Some(d) => d,
    };
    dur < DAY_IN_SECONDS || ctx.lptoken_supply.checked_mul(DAILY_REWARD_RATE).is_some()
}

/// The DAO reward is the supply times the daily rate, rounded down.
pub proof fn dao_reward_rounds_down(supply: u64)
    ensures
        dao_reward(supply) * DENOMINATOR <= supply * DAILY_REWARD_RATE,
        supply * DAILY_REWARD_RATE < (dao_reward(supply) + 1) * DENOMINATOR,
{
    crate::value::lemma_quotient_rounds_down(supply * DAILY_REWARD_RATE, DENOMINATOR as int);
}

} // verus!
