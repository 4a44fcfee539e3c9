//! What the bridge takes from the Wormhole SDK: the id of this chain, the
//! first sequence number, the seed of an emitter address, and the finality
//! levels.

use vstd::prelude::*;

verus! {

/// Wormhole's id of the chain that this program runs on.
pub const CHAIN_ID_SOLANA: u16 = 1;

/// The sequence number of the first message that an emitter posts.
pub const INITIAL_SEQUENCE: u64 = 1;

/// How settled a message must be before the guardians attest to it.
#[derive(Clone, Copy, Debug, PartialEq, Eq, Structural)]
pub enum Finality {
    Confirmed,
    Finalized,
}

/// The finality level that a stored byte stands for, if it stands for one.
pub open spec fn finality_of(level: u8) -> Option<Finality> {
    if level == 0 {
        Some(Finality::Confirmed)
    } else if level == 1 {
        Some(Finality::Finalized)
    } else {
        None
    }
}

/// The seed from which an emitter address is derived: the ASCII bytes of
/// `emitter`.
pub open spec fn seed_prefix_emitter() -> Seq<u8> {
    seq![101u8, 109u8, 105u8, 116u8, 116u8, 101u8, 114u8]
}

/// The SDK's constant `wormhole::CHAIN_ID_SOLANA`, which is 1.
#[verifier::external_body]
pub(crate) fn sdk_chain_id_solana() -> (id: u16)
    ensures
        id == CHAIN_ID_SOLANA,
{
    wormhole_anchor_sdk::wormhole::CHAIN_ID_SOLANA
}

/// The SDK's constant `wormhole::INITIAL_SEQUENCE`, which is 1.
#[verifier::external_body]
pub(crate) fn sdk_initial_sequence() -> (sequence: u64)
    ensures
        sequence == INITIAL_SEQUENCE,
{
    wormhole_anchor_sdk::wormhole::INITIAL_SEQUENCE
}

/// The SDK's constant `wormhole::SEED_PREFIX_EMITTER`, the seven bytes
/// `b"emitter"`, copied into a vector.
#[verifier::external_body]
pub(crate) fn sdk_seed_prefix_emitter() -> (seed: Vec<u8>)
    ensures
        seed@ == seed_prefix_emitter(),
{
    wormhole_anchor_sdk::wormhole::SEED_PREFIX_EMITTER.to_vec()
}

/// The byte under which the SDK's `wormhole::Finality::Confirmed` is stored.
/// It is the first variant of the enum, so the byte is 0.
#[verifier::external_body]
pub(crate) fn sdk_finality_confirmed() -> (level: u8)
    ensures
        level == 0,
{
    wormhole_anchor_sdk::wormhole::Finality::Confirmed as u8
}

/// The SDK's `Finality::try_from(u8)`: 0 is `Confirmed`, 1 is `Finalized`,
/// and every other byte is refused.
#[verifier::external_body]
pub(crate) fn sdk_finality_from(level: u8) -> (finality: Option<Finality>)
    ensures
        finality == finality_of(level),
{
    match wormhole_anchor_sdk::wormhole::Finality::try_from(level) {
        Ok(wormhole_anchor_sdk::wormhole::Finality::Confirmed) => Some(Finality::Confirmed),
        Ok(wormhole_anchor_sdk::wormhole::Finality::Finalized) => Some(Finality::Finalized),
        Err(_) => None,
    }
}

} // verus!
