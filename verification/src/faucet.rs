//! The test-token faucet: hands a fixed amount of one of three test tokens to
//! whoever asks, and lets its owner empty a pool.
use vstd::prelude::*;
use vstd::string::StringSliceAdditionalSpecFns;
use crate::pubkey::Pubkey;

verus! {

/// Length of the faucet's name, which seeds its state address.
pub const NAME_LEN: usize = 10;
/// tBTC handed out per request, in base units.
pub const TBTC_AMOUNT: u64 = 200000000;
/// tUSDC handed out per request, in base units.
pub const TUSDC_AMOUNT: u64 = 1000000000000;
/// tmSOL handed out per request, in base units.
pub const TMSOL_AMOUNT: u64 = 10000000000;

/// Bump seeds of the faucet's derived addresses.
#[derive(Clone, Copy, Debug)]
pub struct FaucetBumps {
    pub state_account: u8,
    pub pool_tusdc: u8,
    pub pool_tbtc: u8,
    pub pool_tmsol: u8,
}

/// The faucet's state account.
#[derive(Clone, Copy, Debug)]
pub struct StateAccount {
    pub faucet_name: [u8; 10],
    pub bumps: FaucetBumps,
    pub owner: Pubkey,
    pub tbtc_mint: Pubkey,
    pub tusdc_mint: Pubkey,
    pub tmsol_mint: Pubkey,
    pub pool_tbtc: Pubkey,
    pub pool_tusdc: Pubkey,
    pub pool_tmsol: Pubkey,
    pub tbtc_amount: u64,
    pub tusdc_amount: u64,
    pub tmsol_amount: u64,
}

/// Why a request is refused.
#[derive(Clone, Copy, Debug, PartialEq, Eq, Structural)]
pub enum ErrorCode {
    InsufficientPoolAmount,
    InvalidToken,
    NotAllowed,
}

/// What `initialize` reads: the signer, the three mints and their pools.
#[derive(Clone, Copy, Debug)]
pub struct Initialize {
    pub authority: Pubkey,
    pub tusdc_mint: Pubkey,
    pub tbtc_mint: Pubkey,
    pub tmsol_mint: Pubkey,
    pub pool_tusdc: Pubkey,
    pub pool_tbtc: Pubkey,
    pub pool_tmsol: Pubkey,
}

/// A name of at most `NAME_LEN` bytes, padded with spaces to `NAME_LEN`.
pub open spec fn padded_name(name: Seq<u8>) -> Seq<u8> {
    name + Seq::new((NAME_LEN - name.len()) as nat, |i: int| 32u8)
}

/// The state account of a faucet set up by `ctx.authority` under `name`.
pub open spec fn initial_state(ctx: Initialize, bumps: FaucetBumps, state: StateAccount) -> bool {
    &&& state.bumps == bumps
    &&& state.owner == ctx.authority
    &&& state.tbtc_mint == ctx.tbtc_mint
    &&& state.tusdc_mint == ctx.tusdc_mint
    &&& state.tmsol_mint == ctx.tmsol_mint
    &&& state.pool_tbtc == ctx.pool_tbtc
    &&& state.pool_tusdc == ctx.pool_tusdc
    &&& state.pool_tmsol == ctx.pool_tmsol
    &&& state.tbtc_amount == TBTC_AMOUNT
    &&& state.tusdc_amount == TUSDC_AMOUNT
    &&& state.tmsol_amount == TMSOL_AMOUNT
}

/// Sets up a faucet named `faucet_name` (at most `NAME_LEN` bytes; a longer
/// name does not fit the account): its state account, owned by the signer.
pub fn initialize(ctx: &Initialize, faucet_name: &str, bumps: FaucetBumps) -> (state: StateAccount)
    requires
        faucet_name.spec_bytes().len() <= NAME_LEN,
    ensures
        state.faucet_name@ == padded_name(faucet_name.spec_bytes()),
        initial_state(*ctx, bumps, state),
{
    let name_bytes = faucet_name.as_bytes();
    let mut name_data: [u8; 10] = [32u8; 10];
    let mut i: usize = 0;
    while i < name_bytes.len()
        invariant
            name_bytes@ == faucet_name.spec_bytes(),
            name_bytes@.len() <= NAME_LEN,
            i <= name_bytes@.len(),
            forall|j: int| 0 <= j < i ==> name_data@[j] == name_bytes@[j],
            forall|j: int| i <= j < NAME_LEN ==> name_data@[j] == 32u8,
        decreases name_bytes@.len() - i,
    {
        name_data[i] = name_bytes[i];
        i = i + 1;
    }
    assert(name_data@ =~= padded_name(name_bytes@));
    StateAccount {
        faucet_name: name_data,
        bumps,
        owner: ctx.authority,
        tbtc_mint: ctx.tbtc_mint,
        tusdc_mint: ctx.tusdc_mint,
        tmsol_mint: ctx.tmsol_mint,
        pool_tbtc: ctx.pool_tbtc,
        pool_tusdc: ctx.pool_tusdc,
        pool_tmsol: ctx.pool_tmsol,
        tbtc_amount: TBTC_AMOUNT,
        tusdc_amount: TUSDC_AMOUNT,
        tmsol_amount: TMSOL_AMOUNT,
    }
}

/// The amount the faucet hands out of `mint`: `None` for a mint it does not
/// hold. The mints are tried in the order tBTC, tUSDC, tmSOL.
pub open spec fn grant_for(state: StateAccount, mint: Pubkey) -> Option<u64> {
    if mint == state.tbtc_mint {
        Some(state.tbtc_amount)
    } else if mint == state.tusdc_mint {
        Some(state.tusdc_amount)
    } else if mint == state.tmsol_mint {
        Some(state.tmsol_amount)
    } else {
        None
    }
}

/// What `request_token` reads.
#[derive(Clone, Copy, Debug)]
pub struct RequestToken {
    pub token_mint: Pubkey,
    pub state_account: StateAccount,
    /// Balance of the pool the tokens come from.
    pub pool_token_amount: u64,
}

/// Hands out the faucet's amount of `ctx.token_mint`. On `Ok(a)` the caller
/// moves `a` tokens from the pool to the requester.
pub fn request_token(ctx: &RequestToken) -> (r: Result<u64, ErrorCode>)
    ensures
        grant_for(ctx.state_account, ctx.token_mint) is None ==> r == Err::<u64, ErrorCode>(
            ErrorCode::InvalidToken,
        ),
        grant_for(ctx.state_account, ctx.token_mint) is Some && ctx.pool_token_amount < grant_for(
            ctx.state_account,
            ctx.token_mint,
        )->0 ==> r == Err::<u64, ErrorCode>(ErrorCode::InsufficientPoolAmount),
        grant_for(ctx.state_account, ctx.token_mint) is Some && grant_for(ctx.state_account, ctx.token_mint)->0
            <= ctx.pool_token_amount ==> r == Ok::<u64, ErrorCode>(
            grant_for(ctx.state_account, ctx.token_mint)->0,
        ),
{
    let state = &ctx.state_account;
    let transfer_amount: u64;
    if ctx.token_mint.key_eq(&state.tbtc_mint) {
        transfer_amount = state.tbtc_amount;
    } else if ctx.token_mint.key_eq(&state.tusdc_mint) {
        transfer_amount = state.tusdc_amount;
    } else if ctx.token_mint.key_eq(&state.tmsol_mint) {
        transfer_amount = state.tmsol_amount;
    } else {
        return Err(ErrorCode::InvalidToken);
    }
    if ctx.pool_token_amount < transfer_amount {
        return Err(ErrorCode::InsufficientPoolAmount);
    }
    Ok(transfer_amount)
}

/// What `withdraw_token` reads.
#[derive(Clone, Copy, Debug)]
pub struct WithdrawToken {
    /// The signer.
    pub user_authority: Pubkey,
    pub state_account: StateAccount,
    /// Balance of the pool to empty.
    pub pool_token_amount: u64,
}

/// Empties a pool to its owner. On `Ok(a)` the caller moves `a` tokens, the
/// whole pool, to the owner.
pub fn withdraw_token(ctx: &WithdrawToken) -> (r: Result<u64, ErrorCode>)
    ensures
        ctx.state_account.owner != ctx.user_authority ==> r == Err::<u64, ErrorCode>(ErrorCode::NotAllowed),
        ctx.state_account.owner == ctx.user_authority && ctx.pool_token_amount == 0 ==> r == Err::<
            u64,
            ErrorCode,
        >(ErrorCode::InsufficientPoolAmount),
        ctx.state_account.owner == ctx.user_authority && ctx.pool_token_amount > 0 ==> r == Ok::<u64, ErrorCode>(
            ctx.pool_token_amount,
        ),
{
    if !ctx.state_account.owner.key_eq(&ctx.user_authority) {
        return Err(ErrorCode::NotAllowed);
    }
    if ctx.pool_token_amount < 1 {
        return Err(ErrorCode::InsufficientPoolAmount);
    }
    Ok(ctx.pool_token_amount)
}

/// Each of the faucet's mints is granted its own amount, where the three
/// mints are distinct; any other mint is granted nothing.
pub proof fn each_mint_is_granted_its_amount(state: StateAccount, mint: Pubkey)
    requires
        state.tbtc_mint != state.tusdc_mint,
        state.tbtc_mint != state.tmsol_mint,
        state.tusdc_mint != state.tmsol_mint,
    ensures
        grant_for(state, state.tbtc_mint) == Some(state.tbtc_amount),
        grant_for(state, state.tusdc_mint) == Some(state.tusdc_amount),
        grant_for(state, state.tmsol_mint) == Some(state.tmsol_amount),
        mint != state.tbtc_mint && mint != state.tusdc_mint && mint != state.tmsol_mint ==> grant_for(state, mint)
            is None,
{
}

} // verus!
