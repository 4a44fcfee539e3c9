//! What the bridge asks of the programs around it. An operation of the bridge
//! performs none of these itself: it returns them, and whoever runs the
//! bridge carries them out, all or none.

use vstd::prelude::*;
use crate::context::{SEED_PREFIX_MINT_AUTHORITY, SEED_PREFIX_SENT};
use crate::wire::{le_bytes, u64_le_bytes};
use crate::wormhole::{sdk_seed_prefix_emitter, seed_prefix_emitter, Finality};

verus! {

/// A transfer of lamports between two system accounts.
#[derive(Clone, Copy, Debug, PartialEq, Eq)]
pub struct Transfer {
    pub from: [u8; 32],
    pub to: [u8; 32],
    pub lamports: u64,
}

/// A request to burn tokens, signed by their holder.
#[derive(Clone, Copy, Debug, PartialEq, Eq)]
pub struct Burn {
    pub mint: [u8; 32],
    pub from: [u8; 32],
    pub authority: [u8; 32],
    pub amount: u64,
}

/// A request to mint tokens, signed by the program's mint authority. The
/// authority is an address derived from `authority_seeds`: no key exists.
#[derive(Debug, PartialEq, Eq)]
pub struct MintTo {
    pub mint: [u8; 32],
    pub to: [u8; 32],
    pub amount: u64,
    pub authority_seeds: Vec<Vec<u8>>,
}

/// A [`MintTo`] as a mathematical value.
pub struct MintToView {
    pub mint: [u8; 32],
    pub to: [u8; 32],
    pub amount: u64,
    pub authority_seeds: Seq<Seq<u8>>,
}

impl View for MintTo {
    type V = MintToView;

    open spec fn view(&self) -> MintToView {
        MintToView {
            mint: self.mint,
            to: self.to,
            amount: self.amount,
            authority_seeds: self.authority_seeds.deep_view(),
        }
    }
}

/// A request to Wormhole to post a message. The program signs twice: for
/// the address that stores the message and for its emitter, each an address
/// derived from the seeds given.
#[derive(Debug, PartialEq, Eq)]
pub struct PostMessage {
    pub payer: [u8; 32],
    pub batch_id: u32,
    pub payload: Vec<u8>,
    pub finality: Finality,
    pub message_seeds: Vec<Vec<u8>>,
    pub emitter_seeds: Vec<Vec<u8>>,
}

/// A [`PostMessage`] as a mathematical value.
pub struct PostMessageView {
    pub payer: [u8; 32],
    pub batch_id: u32,
    pub payload: Seq<u8>,
    pub finality: Finality,
    pub message_seeds: Seq<Seq<u8>>,
    pub emitter_seeds: Seq<Seq<u8>>,
}

impl View for PostMessage {
    type V = PostMessageView;

    open spec fn view(&self) -> PostMessageView {
        PostMessageView {
            payer: self.payer,
            batch_id: self.batch_id,
            payload: self.payload@,
            finality: self.finality,
            message_seeds: self.message_seeds.deep_view(),
            emitter_seeds: self.emitter_seeds.deep_view(),
        }
    }
}

/// The posting of one message: the fee, where Wormhole asks for one, and
/// then the message.
#[derive(Debug, PartialEq, Eq)]
pub struct Publication {
    pub fee: Option<Transfer>,
    pub post: PostMessage,
}

/// A [`Publication`] as a mathematical value.
pub struct PublicationView {
    pub fee: Option<Transfer>,
    pub post: PostMessageView,
}

impl View for Publication {
    type V = PublicationView;

    open spec fn view(&self) -> PublicationView {
        PublicationView { fee: self.fee, post: self.post@ }
    }
}

/// The burn of tokens and the posting of its notice.
#[derive(Debug, PartialEq, Eq)]
pub struct BurnAndSend {
    pub burn: Burn,
    pub publication: Publication,
}

/// A [`BurnAndSend`] as a mathematical value.
pub struct BurnAndSendView {
    pub burn: Burn,
    pub publication: PublicationView,
}

impl View for BurnAndSend {
    type V = BurnAndSendView;

    open spec fn view(&self) -> BurnAndSendView {
        BurnAndSendView { burn: self.burn, publication: self.publication@ }
    }
}

/// Seeds of the address that stores the message posted under `sequence`:
/// `sent`, the sequence as eight little-endian bytes, the bump.
pub open spec fn sent_seeds(sequence: u64, bump: u8) -> Seq<Seq<u8>> {
    seq![SEED_PREFIX_SENT@, le_bytes(sequence as nat, 8), seq![bump]]
}

/// Seeds of this program's emitter address: `emitter`, the bump.
pub open spec fn emitter_seeds(bump: u8) -> Seq<Seq<u8>> {
    seq![seed_prefix_emitter(), seq![bump]]
}

/// Seeds of the address that signs for minting: `mint_authority`, the bump.
pub open spec fn mint_authority_seeds(bump: u8) -> Seq<Seq<u8>> {
    seq![SEED_PREFIX_MINT_AUTHORITY@, seq![bump]]
}

/// Builds the seeds of the address that stores the message posted under
/// `sequence`.
pub fn sent_signer_seeds(sequence: u64, bump: u8) -> (seeds: Vec<Vec<u8>>)
    ensures
        seeds.deep_view() == sent_seeds(sequence, bump),
{
    let mut prefix: Vec<u8> = Vec::new();
    prefix.extend_from_slice(&SEED_PREFIX_SENT);
    let number = u64_le_bytes(sequence);
    let mut place: Vec<u8> = Vec::new();
    place.extend_from_slice(&number);
    let mut last: Vec<u8> = Vec::new();
    last.push(bump);
    let mut seeds: Vec<Vec<u8>> = Vec::new();
    seeds.push(prefix);
    seeds.push(place);
    seeds.push(last);
    proof {
        assert(prefix@ =~= SEED_PREFIX_SENT@);
        assert(place@ =~= le_bytes(sequence as nat, 8));
        assert(seeds.deep_view() =~~= sent_seeds(sequence, bump));
    }
    seeds
}

/// Builds the seeds of this program's emitter address.
pub fn emitter_signer_seeds(bump: u8) -> (seeds: Vec<Vec<u8>>)
    ensures
        seeds.deep_view() == emitter_seeds(bump),
{
    let prefix = sdk_seed_prefix_emitter();
    let mut last: Vec<u8> = Vec::new();
    last.push(bump);
    let mut seeds: Vec<Vec<u8>> = Vec::new();
    seeds.push(prefix);
    seeds.push(last);
    proof {
        assert(seeds.deep_view() =~~= emitter_seeds(bump));
    }
    seeds
}

/// Builds the seeds of the address that signs for minting.
pub fn mint_authority_signer_seeds(bump: u8) -> (seeds: Vec<Vec<u8>>)
    ensures
        seeds.deep_view() == mint_authority_seeds(bump),
{
    let mut prefix: Vec<u8> = Vec::new();
    prefix.extend_from_slice(&SEED_PREFIX_MINT_AUTHORITY);
    let mut last: Vec<u8> = Vec::new();
    last.push(bump);
    let mut seeds: Vec<Vec<u8>> = Vec::new();
    seeds.push(prefix);
    seeds.push(last);
    proof {
        assert(prefix@ =~= SEED_PREFIX_MINT_AUTHORITY@);
        assert(seeds.deep_view() =~~= mint_authority_seeds(bump));
    }
    seeds
}

} // verus!
