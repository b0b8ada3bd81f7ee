//! The lending token mints: the test tokens the lending pool lends, minted
//! by the owner and burnt by holders.
use vstd::prelude::*;
use crate::pubkey::{Pubkey, zero_key, zero_pubkey};
use crate::pda::{derived_program_key, find_program_key};

verus! {

/// Seed of the mint authority.
pub const PREFIX: &'static str = "lendtokens";
/// Decimals of the token mints.
pub const TOKEN_DECIMALS: u8 = 9;
/// Initial supply of the DAO token, in whole tokens.
pub const INITIAL_SUPPLY: u64 = 500000000;
/// Base units of one whole DAO token.
pub const TOKEN_UNITS: u64 = 1000000000;

/// The token program's state account.
#[derive(Clone, Copy, Debug)]
pub struct TokenStateAccount {
    pub owner: Pubkey,
    pub second_owner: Pubkey,
}

/// The token program's configuration: its mints.
#[derive(Clone, Copy, Debug)]
pub struct Config {
    pub state_account: Pubkey,
    pub ust_mint: Pubkey,
    pub usdc_mint: Pubkey,
    pub msol_mint: Pubkey,
    pub srm_mint: Pubkey,
    pub scnsol_mint: Pubkey,
    pub stsol_mint: Pubkey,
    pub btc_mint: Pubkey,
    pub usdt_mint: Pubkey,
}

/// Why an instruction is refused.
#[derive(Clone, Copy, Debug, PartialEq, Eq, Structural)]
pub enum ErrorCode {
    InvalidAmount,
    InvalidOwner,
    TooOftenMint,
}

/// Whether `program_authority` is `state_account`.
fn is_authority(program_authority: Option<Pubkey>, state_account: &Pubkey) -> (r: bool)
    ensures
        r == (program_authority == Some(*state_account)),
{
    match program_authority {
        Some(k) => k.key_eq(state_account),
        None => false,
    }
}

/// What `initialize` reads.
pub struct Initialize {
    pub program_id: Pubkey,
    pub authority: Pubkey,
    pub state_account: Pubkey,
    pub ust_mint: Pubkey,
    pub usdc_mint: Pubkey,
    pub msol_mint: Pubkey,
    pub srm_mint: Pubkey,
    pub scnsol_mint: Pubkey,
    pub stsol_mint: Pubkey,
    pub btc_mint: Pubkey,
    pub usdt_mint: Pubkey,
}

/// The configuration `initialize` writes into a fresh account.
pub open spec fn initial_config(ctx: Initialize) -> Config {
    Config {
        state_account: ctx.state_account,
        ust_mint: ctx.ust_mint,
        usdc_mint: ctx.usdc_mint,
        msol_mint: ctx.msol_mint,
        srm_mint: ctx.srm_mint,
        scnsol_mint: ctx.scnsol_mint,
        stsol_mint: ctx.stsol_mint,
        btc_mint: ctx.btc_mint,
        usdt_mint: ctx.usdt_mint,
    }
}

/// The DAO tokens minted at setup, in base units.
pub open spec fn initial_mint() -> int {
    INITIAL_SUPPLY * TOKEN_UNITS
}

/// Sets up the token program, `program_authority` being the program's
/// derived state address: its state account, owned by the authority, its
/// configuration, and the initial DAO supply. On `Ok((s, c, m))` the caller
/// mints `m` DAO tokens to the authority.
pub fn initialize_with_authority(ctx: &Initialize, program_authority: Option<Pubkey>) -> (r: Result<(TokenStateAccount, Config, u64), ErrorCode>)
    ensures
        program_authority != Some(ctx.state_account) ==> r == Err::<(TokenStateAccount, Config, u64), ErrorCode>(
            ErrorCode::InvalidOwner,
        ),
        program_authority == Some(ctx.state_account) ==> r == Ok::<(TokenStateAccount, Config, u64), ErrorCode>(
            (
                TokenStateAccount { owner: ctx.authority, second_owner: zero_key() },
                initial_config(*ctx),
                initial_mint() as u64,
            ),
        ),
{
    if !is_authority(program_authority, &ctx.state_account) {
        return Err(ErrorCode::InvalidOwner);
    }
    let config = Config {
        state_account: ctx.state_account,
        ust_mint: ctx.ust_mint,
        usdc_mint: ctx.usdc_mint,
        msol_mint: ctx.msol_mint,
        srm_mint: ctx.srm_mint,
        scnsol_mint: ctx.scnsol_mint,
        stsol_mint: ctx.stsol_mint,
        btc_mint: ctx.btc_mint,
        usdt_mint: ctx.usdt_mint,
    };
    Ok((TokenStateAccount { owner: ctx.authority, second_owner: zero_pubkey() }, config, INITIAL_SUPPLY * TOKEN_UNITS))
}

/// Sets up the token program (see `initialize_with_authority`).
pub fn initialize(ctx: &Initialize) -> (r: Result<(TokenStateAccount, Config, u64), ErrorCode>)
    ensures
        derived_program_key(PREFIX@, ctx.program_id) != Some(ctx.state_account) ==> r == Err::<
            (TokenStateAccount, Config, u64),
            ErrorCode,
        >(ErrorCode::InvalidOwner),
        derived_program_key(PREFIX@, ctx.program_id) == Some(ctx.state_account) ==> r == Ok::<
            (TokenStateAccount, Config, u64),
            ErrorCode,
        >((TokenStateAccount { owner: ctx.authority, second_owner: zero_key() }, initial_config(*ctx), initial_mint() as u64)),
{
    let program_authority = find_program_key(PREFIX, &ctx.program_id);
    initialize_with_authority(ctx, program_authority)
}

/// Checks a burn of `amount` of a token by its holder; on success the caller
/// burns `amount`.
pub fn burn_token(amount: u64) -> (r: Result<(), ErrorCode>)
    ensures
        amount == 0 ==> r == Err::<(), ErrorCode>(ErrorCode::InvalidAmount),
        amount != 0 ==> r is Ok,
{
    if amount == 0 {
        return Err(ErrorCode::InvalidAmount);
    }
    Ok(())
}

/// What `mint_token` reads.
pub struct MintToken {
    pub program_id: Pubkey,
    /// The signer.
    pub owner: Pubkey,
    /// Address of the state account, the mint authority.
    pub state_account_key: Pubkey,
    pub state_account: TokenStateAccount,
}

/// Checks a mint of `amount` of a token by the owner, `program_authority`
/// being the program's derived state address; on success the caller mints
/// `amount` to the owner.
pub fn mint_token_with_authority(ctx: &MintToken, amount: u64, program_authority: Option<Pubkey>) -> (r: Result<(), ErrorCode>)
    ensures
        amount == 0 ==> r == Err::<(), ErrorCode>(ErrorCode::InvalidAmount),
        amount != 0 && (ctx.state_account.owner != ctx.owner || program_authority != Some(ctx.state_account_key))
            ==> r == Err::<(), ErrorCode>(ErrorCode::InvalidOwner),
        amount != 0 && ctx.state_account.owner == ctx.owner && program_authority == Some(ctx.state_account_key)
            ==> r is Ok,
{
    if amount == 0 {
        return Err(ErrorCode::InvalidAmount);
    }
    if !ctx.state_account.owner.key_eq(&ctx.owner) {
        return Err(ErrorCode::InvalidOwner);
    }
    if !is_authority(program_authority, &ctx.state_account_key) {
        return Err(ErrorCode::InvalidOwner);
    }
    Ok(())
}

/// Checks a mint of `amount` of a token by the owner (see
/// `mint_token_with_authority`).
pub fn mint_token(ctx: &MintToken, amount: u64) -> (r: Result<(), ErrorCode>)
    ensures
        amount == 0 ==> r == Err::<(), ErrorCode>(ErrorCode::InvalidAmount),
        amount != 0 && (ctx.state_account.owner != ctx.owner || derived_program_key(PREFIX@, ctx.program_id)
            != Some(ctx.state_account_key)) ==> r == Err::<(), ErrorCode>(ErrorCode::InvalidOwner),
        amount != 0 && ctx.state_account.owner == ctx.owner && derived_program_key(PREFIX@, ctx.program_id) == Some(
            ctx.state_account_key,
        ) ==> r is Ok,
{
    let program_authority = find_program_key(PREFIX, &ctx.program_id);
    mint_token_with_authority(ctx, amount, program_authority)
}

/// What the owner's updates of the state account read and write.
pub struct UpdateConfigAccount {
    /// The signer.
    pub owner: Pubkey,
    pub state_account: TokenStateAccount,
}

/// Hands the program to `new_owner`; only the owner may, and only to another
/// address.
pub fn update_owner(ctx: &mut UpdateConfigAccount, new_owner: Pubkey) -> (r: Result<(), ErrorCode>)
    ensures
        old(ctx).state_account.owner != old(ctx).owner || old(ctx).owner == new_owner ==> r == Err::<
            (),
            ErrorCode,
        >(ErrorCode::InvalidOwner) && *final(ctx) == *old(ctx),
        old(ctx).state_account.owner == old(ctx).owner && old(ctx).owner != new_owner ==> r is Ok && *final(ctx)
            == (UpdateConfigAccount {
            state_account: TokenStateAccount { owner: new_owner, ..old(ctx).state_account },
            ..*old(ctx)
        }),
{
    if !ctx.state_account.owner.key_eq(&ctx.owner) || ctx.owner.key_eq(&new_owner) {
        return Err(ErrorCode::InvalidOwner);
    }
    ctx.state_account.owner = new_owner;
    Ok(())
}

/// Sets the second owner; only the owner may, and only to a different
/// address.
pub fn update_second_owner(ctx: &mut UpdateConfigAccount, new_owner: Pubkey) -> (r: Result<(), ErrorCode>)
    ensures
        old(ctx).state_account.owner != old(ctx).owner || old(ctx).state_account.second_owner == new_owner ==> r
            == Err::<(), ErrorCode>(ErrorCode::InvalidOwner) && *final(ctx) == *old(ctx),
        old(ctx).state_account.owner == old(ctx).owner && old(ctx).state_account.second_owner != new_owner ==> r
            is Ok && *final(ctx) == (UpdateConfigAccount {
            state_account: TokenStateAccount { second_owner: new_owner, ..old(ctx).state_account },
            ..*old(ctx)
        }),
{
    if !ctx.state_account.owner.key_eq(&ctx.owner) || ctx.state_account.second_owner.key_eq(&new_owner) {
        return Err(ErrorCode::InvalidOwner);
    }
    ctx.state_account.second_owner = new_owner;
    Ok(())
}

} // verus!
