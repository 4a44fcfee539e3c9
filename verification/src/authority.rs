//! The addresses that the program signs with. None of them has a key: each
//! is derived from seeds and the id of the program, and only the program
//! can sign for it.

use vstd::prelude::*;
use crate::instruction::{
    emitter_seeds, emitter_signer_seeds, mint_authority_seeds, mint_authority_signer_seeds,
};
use crate::state::WormholeEmitter;

verus! {

/// The address that Solana derives for a program from `seeds`, if it derives
/// one: no address comes of more than 16 seeds, of a seed of more than 32
/// bytes, or of seeds whose hash happens to lie on the curve.
pub uninterp spec fn program_address(seeds: Seq<Seq<u8>>, program_id: Seq<u8>) -> Option<
    [u8; 32],
>;

/// `Pubkey::create_program_address` of the Solana SDK. The address is a
/// hash of the seeds and the program id, so it depends on nothing else; the
/// call fails, and never panics, where no address is derived.
#[verifier::external_body]
pub(crate) fn create_program_address(seeds: &Vec<Vec<u8>>, program_id: &[u8; 32]) -> (out: Option<
    [u8; 32],
>)
    ensures
        out == program_address(seeds.deep_view(), program_id@),
{
    let slices: Vec<&[u8]> = seeds.iter().map(|seed| seed.as_slice()).collect();
    let program = anchor_lang::prelude::Pubkey::new_from_array(*program_id);
    match anchor_lang::prelude::Pubkey::create_program_address(&slices, &program) {
        Ok(address) => Some(address.to_bytes()),
        Err(_) => None,
    }
}

/// The address that signs for minting, for the program `program_id` and the
/// bump `bump`; none, where the bump gives no address.
pub fn mint_authority_address(program_id: &[u8; 32], bump: u8) -> (out: Option<[u8; 32]>)
    ensures
        out == program_address(mint_authority_seeds(bump), program_id@),
{
    let seeds = mint_authority_signer_seeds(bump);
    create_program_address(&seeds, program_id)
}

/// The address under which the program `program_id` posts its messages;
/// none, where the emitter's bump gives no address.
pub fn emitter_address(program_id: &[u8; 32], emitter: &WormholeEmitter) -> (out: Option<
    [u8; 32],
>)
    ensures
        out == program_address(emitter_seeds(emitter.bump), program_id@),
{
    let seeds = emitter_signer_seeds(emitter.bump);
    create_program_address(&seeds, program_id)
}

} // verus!
