//! Staking of the LPFi token: stakes are held as shares of a pool whose
//! value per share the daily reward resets.
use vstd::prelude::*;
use crate::pubkey::{Pubkey, zero_key, zero_pubkey};
use crate::pda::{derived_program_key, find_program_key};

verus! {

/// Seed of the staking configuration account.
pub const PREFIX: &'static str = "lpfi-staking";
/// A day, in seconds.
pub const DAY_IN_SECONDS: i64 = 86400;
/// One plus the daily reward rate, scaled by `DENOMINATOR`.
pub const DAILY_REWARD_RATE: u64 = 10000809;
/// The scale of `DAILY_REWARD_RATE` and of the share rate.
pub const DENOMINATOR: u64 = 10000000;

/// The staking configuration.
#[derive(Clone, Copy, Debug)]
pub struct Config {
    pub owner: Pubkey,
    pub lpfi_mint: Pubkey,
    pub last_mint_timestamp: i64,
    /// Value of one share, scaled by `DENOMINATOR`.
    pub reward_rate: u64,
    pub total_staked: u64,
    pub second_owner: Pubkey,
}

/// A user's stake, in shares.
#[derive(Clone, Copy, Debug)]
pub struct UserAccount {
    pub lpfi_amount: u64,
    pub owner: Pubkey,
}

/// Why an instruction is refused.
#[derive(Clone, Copy, Debug, PartialEq, Eq, Structural)]
pub enum ErrorCode {
    InvalidAmount,
    InvalidOwner,
    TooOftenMint,
    ExceedAmount,
    InsufficientAmount,
}

/// The value of `shares` at the share rate `rate`, rounded down.
pub open spec fn staked_value(shares: u64, rate: u64) -> int {
    shares * rate / (DENOMINATOR as int)
}

/// What `initialize` reads.
pub struct Initialize {
    pub authority: Pubkey,
    pub lpfi_mint: Pubkey,
}

/// Sets up staking, owned by the authority, at a share rate of one.
pub fn initialize(ctx: &Initialize) -> (c: Config)
    ensures
        c == (Config {
            owner: ctx.authority,
            lpfi_mint: ctx.lpfi_mint,
            last_mint_timestamp: 0,
            reward_rate: DENOMINATOR,
            total_staked: 0,
            second_owner: zero_key(),
        }),
{
    Config {
        owner: ctx.authority,
        lpfi_mint: ctx.lpfi_mint,
        last_mint_timestamp: 0,
        reward_rate: DENOMINATOR,
        total_staked: 0,
        second_owner: zero_pubkey(),
    }
}

/// What `init_user_account` reads.
pub struct InitUserAccount {
    pub authority: Pubkey,
}

/// Opens an empty stake for the signing user.
pub fn init_user_account(ctx: &InitUserAccount) -> (u: UserAccount)
    ensures
        u == (UserAccount { lpfi_amount: 0, owner: ctx.authority }),
{
    UserAccount { lpfi_amount: 0, owner: ctx.authority }
}

/// What `deposit_token` reads and writes.
pub struct DepositToken {
    pub config: Config,
    pub user_account: UserAccount,
}

/// A deposit of `amount` computes without overflow or division by zero.
pub open spec fn deposit_fits(u: UserAccount, c: Config, amount: u64) -> bool {
    &&& u.lpfi_amount * c.reward_rate <= u64::MAX
    &&& staked_value(u.lpfi_amount, c.reward_rate) + amount <= u64::MAX
    &&& (staked_value(u.lpfi_amount, c.reward_rate) + amount) * DENOMINATOR <= u64::MAX
    &&& c.reward_rate != 0
    &&& c.total_staked + amount <= u64::MAX
}

/// The shares a deposit of `amount` leaves the user with: its stake's value
/// plus `amount`, converted back to shares, rounded down.
pub open spec fn shares_after_deposit(u: UserAccount, c: Config, amount: u64) -> int {
    (staked_value(u.lpfi_amount, c.reward_rate) + amount) * DENOMINATOR / (c.reward_rate as int)
}

/// Stakes `amount` LPFi. On success the caller moves `amount` from the user
/// to the pool.
pub fn deposit_token(ctx: &mut DepositToken, amount: u64) -> (r: Result<(), ErrorCode>)
    requires
        amount != 0 ==> deposit_fits(old(ctx).user_account, old(ctx).config, amount),
    ensures
        amount == 0 ==> r == Err::<(), ErrorCode>(ErrorCode::InvalidAmount) && *final(ctx) == *old(ctx),
        amount != 0 ==> {
            &&& r is Ok
            &&& final(ctx).user_account == (UserAccount {
                lpfi_amount: shares_after_deposit(old(ctx).user_account, old(ctx).config, amount) as u64,
                ..old(ctx).user_account
            })
            &&& final(ctx).config == (Config {
                total_staked: (old(ctx).config.total_staked + amount) as u64,
                ..old(ctx).config
            })
        },
{
    if amount == 0 {
        return Err(ErrorCode::InvalidAmount);
    }
    let rate = ctx.config.reward_rate;
    let sum = ctx.user_account.lpfi_amount * rate / DENOMINATOR + amount;
    let cur_amount = sum * DENOMINATOR / rate;
    ctx.user_account.lpfi_amount = cur_amount;
    ctx.config.total_staked = ctx.config.total_staked + amount;
    Ok(())
}

/// What `withdraw_token` reads and writes.
pub struct WithdrawToken {
    pub program_id: Pubkey,
    /// Address of the configuration account, which signs for the pool.
    pub config_key: Pubkey,
    pub config: Config,
    pub user_account: UserAccount,
}

/// A withdrawal of `amount` computes without overflow or underflow.
pub open spec fn withdraw_fits(u: UserAccount, c: Config, amount: u64) -> bool {
    &&& u.lpfi_amount * c.reward_rate <= u64::MAX
    &&& (amount != 0 && amount <= staked_value(u.lpfi_amount, c.reward_rate) ==> {
        &&& (staked_value(u.lpfi_amount, c.reward_rate) - amount) * DENOMINATOR <= u64::MAX
        &&& c.total_staked >= amount
    })
}

/// The shares left after withdrawing `amount`: the stake's value less
/// `amount`, converted back to shares, rounded down.
pub open spec fn shares_after_withdrawal(u: UserAccount, c: Config, amount: u64) -> int {
    (staked_value(u.lpfi_amount, c.reward_rate) - amount) * DENOMINATOR / (c.reward_rate as int)
}

/// Unstakes `amount` LPFi, `program_authority` being the program's derived
/// configuration address. On success the caller moves `amount` from the
/// pool to the user.
pub fn withdraw_token_with_authority(
    ctx: &mut WithdrawToken,
    amount: u64,
    program_authority: Option<Pubkey>,
) -> (r: Result<(), ErrorCode>)
    requires
        amount != 0 ==> withdraw_fits(old(ctx).user_account, old(ctx).config, amount),
    ensures
        amount == 0 ==> r == Err::<(), ErrorCode>(ErrorCode::InvalidAmount) && *final(ctx) == *old(ctx),
        amount != 0 && amount > staked_value(old(ctx).user_account.lpfi_amount, old(ctx).config.reward_rate)
            ==> r == Err::<(), ErrorCode>(ErrorCode::ExceedAmount) && *final(ctx) == *old(ctx),
        amount != 0 && amount <= staked_value(old(ctx).user_account.lpfi_amount, old(ctx).config.reward_rate)
            && program_authority != Some(old(ctx).config_key) ==> r == Err::<(), ErrorCode>(
            ErrorCode::InvalidOwner,
        ) && *final(ctx) == *old(ctx),
        amount != 0 && amount <= staked_value(old(ctx).user_account.lpfi_amount, old(ctx).config.reward_rate)
            && program_authority == Some(old(ctx).config_key) ==> {
            &&& r is Ok
            &&& final(ctx).user_account == (UserAccount {
                lpfi_amount: shares_after_withdrawal(old(ctx).user_account, old(ctx).config, amount) as u64,
                ..old(ctx).user_account
            })
            &&& final(ctx).config == (Config {
                total_staked: (old(ctx).config.total_staked - amount) as u64,
                ..old(ctx).config
            })
            &&& final(ctx).program_id == old(ctx).program_id
            &&& final(ctx).config_key == old(ctx).config_key
        },
{
    if amount == 0 {
        return Err(ErrorCode::InvalidAmount);
    }
    let rate = ctx.config.reward_rate;
    let withdrawable_amount = ctx.user_account.lpfi_amount * rate / DENOMINATOR;
    if amount > withdrawable_amount {
        return Err(ErrorCode::ExceedAmount);
    }
    proof {
        vstd::arithmetic::mul::lemma_mul_is_commutative(ctx.user_account.lpfi_amount as int, rate as int);
        if rate == 0 {
            vstd::arithmetic::mul::lemma_mul_by_zero_is_zero(ctx.user_account.lpfi_amount as int);
        }
    }
    let remain_amount = (withdrawable_amount - amount) * DENOMINATOR / rate;
    let authorized = match program_authority {
        Some(k) => k.key_eq(&ctx.config_key),
        None => false,
    };
    if !authorized {
        return Err(ErrorCode::InvalidOwner);
    }
    ctx.config.total_staked = ctx.config.total_staked - amount;
    ctx.user_account.lpfi_amount = remain_amount;
    Ok(())
}

/// Unstakes `amount` LPFi (see `withdraw_token_with_authority`).
pub fn withdraw_token(ctx: &mut WithdrawToken, amount: u64) -> (r: Result<(), ErrorCode>)
    requires
        amount != 0 ==> withdraw_fits(old(ctx).user_account, old(ctx).config, amount),
    ensures
        amount == 0 ==> r == Err::<(), ErrorCode>(ErrorCode::InvalidAmount) && *final(ctx) == *old(ctx),
        amount != 0 && amount > staked_value(old(ctx).user_account.lpfi_amount, old(ctx).config.reward_rate)
            ==> r == Err::<(), ErrorCode>(ErrorCode::ExceedAmount) && *final(ctx) == *old(ctx),
        amount != 0 && amount <= staked_value(old(ctx).user_account.lpfi_amount, old(ctx).config.reward_rate)
            && derived_program_key(PREFIX@, old(ctx).program_id) != Some(old(ctx).config_key) ==> r
            == Err::<(), ErrorCode>(ErrorCode::InvalidOwner) && *final(ctx) == *old(ctx),
        amount != 0 && amount <= staked_value(old(ctx).user_account.lpfi_amount, old(ctx).config.reward_rate)
            && derived_program_key(PREFIX@, old(ctx).program_id) == Some(old(ctx).config_key) ==> {
            &&& r is Ok
            &&& final(ctx).user_account == (UserAccount {
                lpfi_amount: shares_after_withdrawal(old(ctx).user_account, old(ctx).config, amount) as u64,
                ..old(ctx).user_account
            })
            &&& final(ctx).config == (Config {
                total_staked: (old(ctx).config.total_staked - amount) as u64,
                ..old(ctx).config
            })
            &&& final(ctx).program_id == old(ctx).program_id
            &&& final(ctx).config_key == old(ctx).config_key
        },
{
    let program_authority = find_program_key(PREFIX, &ctx.program_id);
    withdraw_token_with_authority(ctx, amount, program_authority)
}

/// What `daily_reward` reads and writes.
pub struct DailyReward {
    /// The signer.
    pub second_owner: Pubkey,
    pub config: Config,
    /// Supply of the LPFi mint.
    pub lpfi_supply: u64,
    /// The cluster's clock, in seconds.
    pub now: i64,
}

/// The LPFi a daily reward mints into the pool: the reward rate of the
/// whole supply, rounded down.
pub open spec fn reward_mint_amount(supply: u64) -> int {
    (DAILY_REWARD_RATE - DENOMINATOR) * supply / (DENOMINATOR as int)
}

/// The share rate after a daily reward: the current rate times the day's
/// reward rate times the supply per unit staked,
/// `rate * supply * (DAILY_REWARD_RATE - DENOMINATOR) / (DENOMINATOR² * staked)`,
/// rounded down.
pub open spec fn next_reward_rate(c: Config, supply: u64) -> int {
    (c.reward_rate * supply * (DAILY_REWARD_RATE - DENOMINATOR))
        / (DENOMINATOR * DENOMINATOR * c.total_staked)
}

/// A daily reward computes without overflow or division by zero.
pub open spec fn daily_reward_fits(signer: Pubkey, c: Config, supply: u64, now: i64) -> bool {
    c.second_owner == signer ==> {
        &&& (DAILY_REWARD_RATE - DENOMINATOR) * supply <= u64::MAX
        &&& (c.total_staked != 0 ==> {
            &&& i64::MIN <= now - c.last_mint_timestamp <= i64::MAX
            &&& (now - c.last_mint_timestamp >= DAY_IN_SECONDS ==> {
                &&& c.reward_rate * supply * (DAILY_REWARD_RATE - DENOMINATOR) <= u128::MAX
                &&& c.total_staked * next_reward_rate(c, supply) <= u128::MAX
                &&& c.reward_rate != 0
            })
        })
    }
}

/// The outcome of a daily reward: the amount to mint, or why it is refused.
pub open spec fn daily_reward_result(signer: Pubkey, c: Config, supply: u64, now: i64) -> Result<u64, ErrorCode> {
    if c.second_owner != signer {
        Err(ErrorCode::InvalidOwner)
    } else if c.total_staked == 0 {
        Err(ErrorCode::InvalidAmount)
    } else if now - c.last_mint_timestamp < DAY_IN_SECONDS {
        Err(ErrorCode::TooOftenMint)
    } else {
        Ok(reward_mint_amount(supply) as u64)
    }
}

/// The configuration after a daily reward at `now`: the share rate moves to
/// `next_reward_rate` and the total staked is rescaled to it (both truncated
/// to 64 bits as the program stores them).
pub open spec fn rewarded_config(c: Config, supply: u64, now: i64) -> Config {
    Config {
        last_mint_timestamp: now,
        total_staked: (c.total_staked * next_reward_rate(c, supply) / (c.reward_rate as int)) as u64,
        reward_rate: next_reward_rate(c, supply) as u64,
        ..c
    }
}

/// `rate * supply * (DAILY_REWARD_RATE - DENOMINATOR)`, where it fits.
fn reward_numerator(rate: u64, supply: u64) -> (r: u128)
    requires
        rate * supply * (DAILY_REWARD_RATE - DENOMINATOR) <= u128::MAX,
    ensures
        r == rate * supply * (DAILY_REWARD_RATE - DENOMINATOR),
{
    assert(rate * supply <= 0xffff_ffff_ffff_ffffu64 * 0xffff_ffff_ffff_ffffu64) by (nonlinear_arith)
        requires
            rate <= 0xffff_ffff_ffff_ffffu64,
            supply <= 0xffff_ffff_ffff_ffffu64,
    ;
    rate as u128 * supply as u128 * (DAILY_REWARD_RATE - DENOMINATOR) as u128
}

/// `DENOMINATOR² * staked`, which always fits in 128 bits.
fn reward_denominator(staked: u64) -> (r: u128)
    ensures
        r == DENOMINATOR * DENOMINATOR * staked,
        staked != 0 ==> r != 0,
{
    assert(10000000 * 10000000 * staked <= 10000000 * 10000000 * 0xffff_ffff_ffff_ffffu64) by (nonlinear_arith)
        requires
            staked <= 0xffff_ffff_ffff_ffffu64,
    ;
    assert(staked != 0 ==> 10000000 * 10000000 * staked != 0) by (nonlinear_arith);
    DENOMINATOR as u128 * DENOMINATOR as u128 * staked as u128
}

/// Runs the daily reward: at most once a day, the second owner mints the
/// reward into the pool and the share rate moves. On `Ok(m)` the caller
/// mints `m` LPFi into the pool.
pub fn daily_reward(ctx: &mut DailyReward) -> (r: Result<u64, ErrorCode>)
    requires
        daily_reward_fits(old(ctx).second_owner, old(ctx).config, old(ctx).lpfi_supply, old(ctx).now),
    ensures
        r == daily_reward_result(old(ctx).second_owner, old(ctx).config, old(ctx).lpfi_supply, old(ctx).now),
        r is Err ==> *final(ctx) == *old(ctx),
        r is Ok ==> *final(ctx) == (DailyReward {
            config: rewarded_config(old(ctx).config, old(ctx).lpfi_supply, old(ctx).now),
            ..*old(ctx)
        }),
{
    if !ctx.config.second_owner.key_eq(&ctx.second_owner) {
        return Err(ErrorCode::InvalidOwner);
    }
    let total_supply = ctx.lpfi_supply;
    let mint_amount = (DAILY_REWARD_RATE - DENOMINATOR) * total_supply / DENOMINATOR;
    let total_staked = ctx.config.total_staked;
    if total_staked == 0 {
        return Err(ErrorCode::InvalidAmount);
    }
    let dur_seconds = ctx.now - ctx.config.last_mint_timestamp;
    if dur_seconds < DAY_IN_SECONDS {
        return Err(ErrorCode::TooOftenMint);
    }
    let rate = ctx.config.reward_rate;
    let numerator: u128 = reward_numerator(rate, total_supply);
    let denominator: u128 = reward_denominator(total_staked);
    let new_rate = numerator / denominator;
    #[verifier::truncate]
    let staked = (total_staked as u128 * new_rate / rate as u128) as u64;
    #[verifier::truncate]
    let stored_rate = new_rate as u64;
    ctx.config.last_mint_timestamp = ctx.now;
    ctx.config.total_staked = staked;
    ctx.config.reward_rate = stored_rate;
    Ok(mint_amount)
}

/// What `update_owner` and `update_second_owner` read and write.
pub struct UpdateConfig {
    /// The signer.
    pub owner: Pubkey,
    pub config: Config,
}

/// Hands the configuration to `new_owner`; only its owner may.
pub fn update_owner(ctx: &mut UpdateConfig, new_owner: Pubkey) -> (r: Result<(), ErrorCode>)
    ensures
        old(ctx).config.owner != old(ctx).owner ==> r == Err::<(), ErrorCode>(ErrorCode::InvalidOwner)
            && *final(ctx) == *old(ctx),
        old(ctx).config.owner == old(ctx).owner ==> r is Ok && *final(ctx) == (UpdateConfig {
            config: Config { owner: new_owner, ..old(ctx).config },
            ..*old(ctx)
        }),
{
    if !ctx.config.owner.key_eq(&ctx.owner) {
        return Err(ErrorCode::InvalidOwner);
    }
    ctx.config.owner = new_owner;
    Ok(())
}

/// Sets the owner of the daily reward; only the owner may, and only to a
/// different address.
pub fn update_second_owner(ctx: &mut UpdateConfig, new_owner: Pubkey) -> (r: Result<(), ErrorCode>)
    ensures
        old(ctx).config.owner != old(ctx).owner || old(ctx).config.second_owner == new_owner ==> r
            == Err::<(), ErrorCode>(ErrorCode::InvalidOwner) && *final(ctx) == *old(ctx),
        old(ctx).config.owner == old(ctx).owner && old(ctx).config.second_owner != new_owner ==> r is Ok
            && *final(ctx) == (UpdateConfig {
            config: Config { second_owner: new_owner, ..old(ctx).config },
            ..*old(ctx)
        }),
{
    if !ctx.config.owner.key_eq(&ctx.owner) || ctx.config.second_owner.key_eq(&new_owner) {
        return Err(ErrorCode::InvalidOwner);
    }
    ctx.config.second_owner = new_owner;
    Ok(())
}

/// Converting a value `v` to shares at `rate`, rounded down, and back,
/// rounded down, gives at most `v`.
proof fn lemma_round_trip_at_most(v: int, rate: u64)
    requires
        0 <= v,
        rate != 0,
        v * DENOMINATOR <= u64::MAX,
    ensures
        v * DENOMINATOR / (rate as int) <= u64::MAX,
        staked_value((v * DENOMINATOR / (rate as int)) as u64, rate) <= v,
{
    let d = DENOMINATOR as int;
    let x = v * d;
    let shares = x / (rate as int);
    vstd::arithmetic::div_mod::lemma_fundamental_div_mod(x, rate as int);
    vstd::arithmetic::div_mod::lemma_mod_pos_bound(x, rate as int);
    assert(0 <= shares <= x && shares * rate <= x) by (nonlinear_arith)
        requires
            x == rate * shares + x % (rate as int),
            0 <= x % (rate as int),
            0 <= x,
            1 <= rate,
    ;
    assert((shares as u64) == shares);
    vstd::arithmetic::div_mod::lemma_div_is_ordered(shares * rate, x, d);
    vstd::arithmetic::mul::lemma_mul_is_commutative(v, d);
    vstd::arithmetic::div_mod::lemma_div_multiples_vanish(v, d);
}

/// A deposit never credits the staker with more than its stake was worth
/// plus the amount deposited.
pub proof fn deposit_credits_at_most_amount(u: UserAccount, c: Config, amount: u64)
    requires
        amount != 0,
        deposit_fits(u, c, amount),
    ensures
        staked_value(shares_after_deposit(u, c, amount) as u64, c.reward_rate) <= staked_value(
            u.lpfi_amount,
            c.reward_rate,
        ) + amount,
{
    let v = staked_value(u.lpfi_amount, c.reward_rate) + amount;
    vstd::arithmetic::div_mod::lemma_div_pos_is_pos(u.lpfi_amount * c.reward_rate, DENOMINATOR as int);
    lemma_round_trip_at_most(v, c.reward_rate);
}

/// A withdrawal leaves the stake worth at most what it was worth less the
/// amount withdrawn.
pub proof fn withdrawal_leaves_at_most_rest(u: UserAccount, c: Config, amount: u64)
    requires
        amount != 0,
        amount <= staked_value(u.lpfi_amount, c.reward_rate),
        c.reward_rate != 0,
        withdraw_fits(u, c, amount),
    ensures
        staked_value(shares_after_withdrawal(u, c, amount) as u64, c.reward_rate) <= staked_value(
            u.lpfi_amount,
            c.reward_rate,
        ) - amount,
{
    let v = staked_value(u.lpfi_amount, c.reward_rate) - amount;
    lemma_round_trip_at_most(v, c.reward_rate);
}

/// At a share rate of one, unstaking what was just staked gives the stake
/// back: the withdrawal is accepted, and the user's shares and the total
/// staked return to what they were before the deposit.
pub proof fn unstaking_undoes_staking(u: UserAccount, c: Config, amount: u64)
    requires
        c.reward_rate == DENOMINATOR,
        amount != 0,
        deposit_fits(u, c, amount),
    ensures
        ({
            let u1 = UserAccount { lpfi_amount: shares_after_deposit(u, c, amount) as u64, ..u };
            let c1 = Config { total_staked: (c.total_staked + amount) as u64, ..c };
            &&& withdraw_fits(u1, c1, amount)
            &&& amount <= staked_value(u1.lpfi_amount, c1.reward_rate)
            &&& shares_after_withdrawal(u1, c1, amount) == u.lpfi_amount
            &&& c1.total_staked - amount == c.total_staked
        }),
{
    let d = DENOMINATOR as int;
    let l = u.lpfi_amount as int;
    vstd::arithmetic::div_mod::lemma_div_by_multiple(l, d);
    assert(staked_value(u.lpfi_amount, c.reward_rate) == l);
    vstd::arithmetic::div_mod::lemma_div_by_multiple(l + amount, d);
    assert(shares_after_deposit(u, c, amount) == l + amount);
    let u1 = UserAccount { lpfi_amount: shares_after_deposit(u, c, amount) as u64, ..u };
    assert(staked_value(u1.lpfi_amount, c.reward_rate) == l + amount);
    assert(u1.lpfi_amount * c.reward_rate == (l + amount) * d);
}

/// Two daily rewards are at least a day apart: right after a reward at
/// `now`, any reward asked for less than a day later is refused.
pub proof fn rewards_a_day_apart(signer: Pubkey, c: Config, supply: u64, now: i64, supply2: u64, now2: i64)
    requires
        daily_reward_result(signer, c, supply, now) is Ok,
        now2 - now < DAY_IN_SECONDS,
    ensures
        daily_reward_result(signer, rewarded_config(c, supply, now), supply2, now2) is Err,
{
}

/// `deposit_fits`, computed.
pub fn check_deposit_fits(u: &UserAccount, c: &Config, amount: u64) -> (r: bool)
    ensures
        r == deposit_fits(*u, *c, amount),
{
    let value = match u.lpfi_amount.checked_mul(c.reward_rate) {
        None => return false,
        Some(x) => x / DENOMINATOR,
    };
    let sum = match value.checked_add(amount) {
        None => return false,
        Some(x) => x,
    };
    sum.checked_mul(DENOMINATOR).is_some() && c.reward_rate != 0 && c.total_staked.checked_add(amount).is_some()
}

/// `withdraw_fits`, computed.
pub fn check_withdraw_fits(u: &UserAccount, c: &Config, amount: u64) -> (r: bool)
    ensures
        r == withdraw_fits(*u, *c, amount),
{
    let value = match u.lpfi_amount.checked_mul(c.reward_rate) {
        None => return false,
        Some(x) => x / DENOMINATOR,
    };
    if amount == 0 || amount > value {
        return true;
    }
    (value - amount).checked_mul(DENOMINATOR).is_some() && c.total_staked >= amount
}

/// `daily_reward_fits`, computed.
pub fn check_daily_reward_fits(signer: &Pubkey, c: &Config, supply: u64, now: i64) -> (r: bool)
    ensures
        r == daily_reward_fits(*signer, *c, supply, now),
{
    if !c.second_owner.key_eq(signer) {
        return true;
    }
    if (DAILY_REWARD_RATE - DENOMINATOR).checked_mul(supply).is_none() {
        return false;
    }
    if c.total_staked == 0 {
        return true;
    }
    let dur = match now.checked_sub(c.last_mint_timestamp) {
        None => return false,
        Some(d) => d,
    };
    if dur < DAY_IN_SECONDS {
        return true;
    }
    if c.reward_rate == 0 {
        return false;
    }
    assert(c.reward_rate * supply <= 0xffff_ffff_ffff_ffffu64 * 0xffff_ffff_ffff_ffffu64) by (nonlinear_arith)
        requires
            c.reward_rate <= 0xffff_ffff_ffff_ffffu64,
            supply <= 0xffff_ffff_ffff_ffffu64,
    ;
    let product: u128 = c.reward_rate as u128 * supply as u128;
    let numerator = match product.checked_mul((DAILY_REWARD_RATE - DENOMINATOR) as u128) {
        None => return false,
        Some(x) => x,
    };
    let new_rate = numerator / reward_denominator(c.total_staked);
    (c.total_staked as u128).checked_mul(new_rate).is_some()
}

/// A stake's value is its shares at the share rate, rounded down.
pub proof fn stake_value_rounds_down(shares: u64, rate: u64)
    ensures
        staked_value(shares, rate) * DENOMINATOR <= shares * rate,
        shares * rate < (staked_value(shares, rate) + 1) * DENOMINATOR,
{
    vstd::arithmetic::mul::lemma_mul_nonnegative(shares as int, rate as int);
    crate::value::lemma_quotient_rounds_down(shares * rate, DENOMINATOR as int);
}

/// A deposit leaves the user the shares its stake's value plus the amount
/// buys at the share rate, rounded down.
pub proof fn deposit_shares_round_down(u: UserAccount, c: Config, amount: u64)
    requires
        c.reward_rate != 0,
    ensures
        shares_after_deposit(u, c, amount) * c.reward_rate <= (staked_value(u.lpfi_amount, c.reward_rate) + amount)
            * DENOMINATOR,
        (staked_value(u.lpfi_amount, c.reward_rate) + amount) * DENOMINATOR < (shares_after_deposit(u, c, amount)
            + 1) * c.reward_rate,
{
    vstd::arithmetic::mul::lemma_mul_nonnegative(u.lpfi_amount as int, c.reward_rate as int);
    vstd::arithmetic::div_mod::lemma_div_pos_is_pos(u.lpfi_amount * c.reward_rate, DENOMINATOR as int);
    let v = staked_value(u.lpfi_amount, c.reward_rate) + amount;
    vstd::arithmetic::mul::lemma_mul_nonnegative(v, DENOMINATOR as int);
    crate::value::lemma_quotient_rounds_down(v * DENOMINATOR, c.reward_rate as int);
}

/// A withdrawal leaves the user the shares what remains of its stake's value
/// buys at the share rate, rounded down.
pub proof fn withdrawal_shares_round_down(u: UserAccount, c: Config, amount: u64)
    requires
        c.reward_rate != 0,
        amount <= staked_value(u.lpfi_amount, c.reward_rate),
    ensures
        shares_after_withdrawal(u, c, amount) * c.reward_rate <= (staked_value(u.lpfi_amount, c.reward_rate)
            - amount) * DENOMINATOR,
        (staked_value(u.lpfi_amount, c.reward_rate) - amount) * DENOMINATOR < (shares_after_withdrawal(u, c, amount)
            + 1) * c.reward_rate,
{
    let v = staked_value(u.lpfi_amount, c.reward_rate) - amount;
    vstd::arithmetic::mul::lemma_mul_nonnegative(v, DENOMINATOR as int);
    crate::value::lemma_quotient_rounds_down(v * DENOMINATOR, c.reward_rate as int);
}

/// A daily reward mints the supply times the reward rate above one,
/// rounded down, and moves the share rate to the current rate times that
/// reward rate times the supply per unit staked, rounded down.
pub proof fn daily_reward_rounds_down(c: Config, supply: u64)
    requires
        c.total_staked != 0,
    ensures
        reward_mint_amount(supply) * DENOMINATOR <= (DAILY_REWARD_RATE - DENOMINATOR) * supply,
        (DAILY_REWARD_RATE - DENOMINATOR) * supply < (reward_mint_amount(supply) + 1) * DENOMINATOR,
        next_reward_rate(c, supply) * (DENOMINATOR * DENOMINATOR * c.total_staked) <= c.reward_rate * supply * (
        DAILY_REWARD_RATE - DENOMINATOR),
        c.reward_rate * supply * (DAILY_REWARD_RATE - DENOMINATOR) < (next_reward_rate(c, supply) + 1) * (
        DENOMINATOR * DENOMINATOR * c.total_staked),
{
    crate::value::lemma_quotient_rounds_down((DAILY_REWARD_RATE - DENOMINATOR) * supply, DENOMINATOR as int);
    vstd::arithmetic::mul::lemma_mul_nonnegative(c.reward_rate as int, supply as int);
    vstd::arithmetic::mul::lemma_mul_nonnegative(c.reward_rate * supply, (DAILY_REWARD_RATE - DENOMINATOR) as int);
    assert(DENOMINATOR * DENOMINATOR * c.total_staked > 0) by (nonlinear_arith)
        requires
            c.total_staked > 0,
    ;
    crate::value::lemma_quotient_rounds_down(
        c.reward_rate * supply * (DAILY_REWARD_RATE - DENOMINATOR),
        DENOMINATOR * DENOMINATOR * c.total_staked,
    );
}

} // verus!
