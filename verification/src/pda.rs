use vstd::prelude::*;
use crate::pubkey::Pubkey;

verus! {

/// The program-derived address of a single seed under a program, as
/// `Pubkey::try_find_program_address` computes it (`None` when no bump seed
/// yields an address off the curve).
pub uninterp spec fn derived_program_key(seed: Seq<char>, program_id: Pubkey) -> Option<Pubkey>;

/// Calls `anchor_lang::solana_program::pubkey::Pubkey::try_find_program_address`
/// with the one seed `seed` and keeps the address, dropping the bump.
/// Claimed: the result is a function of the seed and the program id alone,
/// named `derived_program_key`.
#[verifier::external_body]
pub(crate) fn find_program_key(seed: &str, program_id: &Pubkey) -> (r: Option<Pubkey>)
    ensures
        r == derived_program_key(seed@, *program_id),
{
    let id = anchor_lang::solana_program::pubkey::Pubkey::new_from_array(program_id.bytes);
    match anchor_lang::solana_program::pubkey::Pubkey::try_find_program_address(&[seed.as_bytes()], &id) {
        Some((key, _bump)) => Some(Pubkey { bytes: key.to_bytes() }),
        None => None,
    }
}

} // verus!
