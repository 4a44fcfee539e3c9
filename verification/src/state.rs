//! What the bridge keeps between operations, and the plain records that its
//! messages carry.

use vstd::prelude::*;
use crate::error::CustomError;
use crate::ledger::{ledger_wf, ReplayLedger};
use crate::registry::{registry_wf, EmitterRegistry};
use crate::wire::{
    all_zero, borsh_read_u64, borsh_write_u64, le_bytes, lemma_le_bytes_len,
    lemma_le_bytes_of_value, lemma_le_value_of_bytes, lemma_radix_pow_values, read_address,
    same_address,
};
use crate::wormhole::{finality_of, CHAIN_ID_SOLANA};

verus! {

/// Notice of a burn on this chain: the amount to release on the other side
/// and the 32-byte address that receives it.
#[derive(Clone, Copy, Debug, PartialEq, Eq)]
pub struct BurnPayload {
    pub amount: u64,
    pub recipient: [u8; 32],
}

/// Length in bytes of an encoded [`BurnPayload`].
pub const BURN_PAYLOAD_LENGTH: usize = 40;

impl BurnPayload {
    /// The bytes of a burn notice: the amount as eight little-endian bytes,
    /// then the recipient.
    pub open spec fn encoded(self) -> Seq<u8> {
        le_bytes(self.amount as nat, 8) + self.recipient@
    }

    /// Writes the notice as its forty bytes. This always succeeds.
    pub fn encode(&self) -> (out: Result<Vec<u8>, CustomError>)
        ensures
            out is Ok,
            out->Ok_0@ == self.encoded(),
            out->Ok_0@.len() == BURN_PAYLOAD_LENGTH,
    {
        let mut out: Vec<u8> = match borsh_write_u64(self.amount) {
            Some(bytes) => bytes,
            None => {
                return Err(CustomError::InvalidMessage);
            },
        };
        proof {
            lemma_le_bytes_len(self.amount as nat, 8);
        }
        out.extend_from_slice(&self.recipient);
        assert(out@ =~= self.encoded());
        Ok(out)
    }

    /// Reads a notice from exactly forty bytes: the notice that is written
    /// as `bytes`. Any other length is refused as
    /// [`CustomError::InvalidMessage`].
    pub fn decode(bytes: &[u8]) -> (out: Result<BurnPayload, CustomError>)
        ensures
            out is Ok <==> bytes@.len() == BURN_PAYLOAD_LENGTH,
            out is Ok ==> out->Ok_0.encoded() == bytes@,
            out is Err ==> out->Err_0 == CustomError::InvalidMessage,
    {
        if bytes.len() != BURN_PAYLOAD_LENGTH {
            return Err(CustomError::InvalidMessage);
        }
        let amount = match borsh_read_u64(vstd::slice::slice_subrange(bytes, 0, 8)) {
            Some(amount) => amount,
            None => {
                return Err(CustomError::InvalidMessage);
            },
        };
        let recipient = read_address(bytes, 8);
        proof {
            lemma_le_bytes_of_value(bytes@.subrange(0, 8));
            lemma_radix_pow_values();
            assert(le_bytes(amount as nat, 8) + recipient@ =~= bytes@);
        }
        Ok(BurnPayload { amount, recipient })
    }

    /// Two notices that are written alike are the same notice.
    pub proof fn lemma_encoded_injective(self, other: BurnPayload)
        requires
            self.encoded() == other.encoded(),
        ensures
            self == other,
    {
        lemma_le_bytes_len(self.amount as nat, 8);
        lemma_le_bytes_len(other.amount as nat, 8);
        lemma_radix_pow_values();
        lemma_le_value_of_bytes(self.amount as nat, 8);
        lemma_le_value_of_bytes(other.amount as nat, 8);
        assert(self.encoded().subrange(0, 8) =~= le_bytes(self.amount as nat, 8));
        assert(other.encoded().subrange(0, 8) =~= le_bytes(other.amount as nat, 8));
        assert(self.encoded().subrange(8, 40) =~= self.recipient@);
        assert(other.encoded().subrange(8, 40) =~= other.recipient@);
        assert(self.recipient =~= other.recipient);
    }
}

/// Counter kept for a sender. Sixty-four bits wide, so that it does not wrap
/// in practice.
#[derive(Clone, Copy, Debug, PartialEq, Eq)]
pub struct NonceAccount {
    pub nonce: u64,
}

/// Where the Wormhole accounts that this program posts through live.
#[derive(Clone, Copy, Debug, PartialEq, Eq)]
pub struct WormholeAddresses {
    /// Wormhole's bridge data (its own config).
    pub bridge: [u8; 32],
    /// Where the fee for posting a message is paid.
    pub fee_collector: [u8; 32],
    /// The tracker of this program's emitter sequence.
    pub sequence: [u8; 32],
}

/// The one governance record of a deployment.
#[derive(Clone, Copy, Debug, PartialEq, Eq)]
pub struct Config {
    /// Who may register emitters and switch public minting. Set when the
    /// program is initialized, and never changed.
    pub owner: [u8; 32],
    /// The Wormhole accounts to post through.
    pub wormhole: WormholeAddresses,
    /// Batch id of the messages posted; zero means no batching.
    pub batch_id: u32,
    /// Finality asked of the messages posted, as the byte that stands for it.
    pub finality: u8,
    /// Whether anybody may redeem an incoming message for tokens.
    pub is_public_mint: bool,
}

impl Config {
    /// The stored finality byte stands for a finality level.
    pub open spec fn wf(self) -> bool {
        finality_of(self.finality) is Some
    }
}

/// This program's own emitter: the bump of the address it signs with.
#[derive(Clone, Copy, Debug, PartialEq, Eq)]
pub struct WormholeEmitter {
    pub bump: u8,
}

/// Whether `address` on `chain` may be registered as an emitter: the chain
/// is a foreign one, and the address is not all zero.
pub open spec fn valid_foreign_emitter(chain: u16, address: [u8; 32]) -> bool {
    chain > 0 && chain != CHAIN_ID_SOLANA && !all_zero(address@)
}

/// The one trusted source of messages on a foreign chain.
#[derive(Clone, Copy, Debug, PartialEq, Eq)]
pub struct ForeignEmitter {
    pub chain: u16,
    pub address: [u8; 32],
}

impl ForeignEmitter {
    /// The emitter may stand in the registry.
    pub open spec fn wf(self) -> bool {
        valid_foreign_emitter(self.chain, self.address)
    }

    /// Whether `address` is this emitter's address, byte for byte.
    pub fn verify(&self, address: &[u8; 32]) -> (same: bool)
        ensures
            same == (*address == self.address),
    {
        same_address(address, &self.address)
    }
}

/// The most bytes of a message that a [`Received`] record keeps.
pub const MESSAGE_MAX_LENGTH: usize = 1024;

/// What is kept of an incoming message once it has been applied.
#[derive(Debug, PartialEq, Eq)]
pub struct Received {
    /// Batch id of the message.
    pub batch_id: u32,
    /// Hash under which Wormhole posted the verified message.
    pub wormhole_message_hash: [u8; 32],
    /// The bytes that the message carried.
    pub message: Vec<u8>,
}

/// A [`Received`] record as a mathematical value.
pub struct ReceivedView {
    pub batch_id: u32,
    pub wormhole_message_hash: [u8; 32],
    pub message: Seq<u8>,
}

impl ReceivedView {
    /// The record keeps no more than [`MESSAGE_MAX_LENGTH`] bytes.
    pub open spec fn wf(self) -> bool {
        self.message.len() <= MESSAGE_MAX_LENGTH
    }
}

impl View for Received {
    type V = ReceivedView;

    open spec fn view(&self) -> ReceivedView {
        ReceivedView {
            batch_id: self.batch_id,
            wormhole_message_hash: self.wormhole_message_hash,
            message: self.message@,
        }
    }
}

/// Everything that the program keeps between instructions.
#[derive(Debug)]
pub struct Bridge {
    /// The governance record.
    pub config: Config,
    /// This program's own emitter.
    pub wormhole_emitter: WormholeEmitter,
    /// The trusted emitter of each foreign chain.
    pub foreign_emitters: EmitterRegistry,
    /// The incoming messages that have been applied.
    pub received: ReplayLedger,
}

/// The state of the program as a mathematical value.
pub struct BridgeView {
    pub config: Config,
    pub wormhole_emitter: WormholeEmitter,
    /// The registered address of each chain that has one.
    pub foreign_emitters: Map<u16, [u8; 32]>,
    /// The record of each `(chain, sequence)` that has been applied.
    pub received: Map<(u16, u64), ReceivedView>,
}

impl BridgeView {
    /// The config, every registered emitter and every record is valid.
    pub open spec fn wf(self) -> bool {
        &&& self.config.wf()
        &&& registry_wf(self.foreign_emitters)
        &&& ledger_wf(self.received)
    }

    /// The state with public minting switched to `is_mintable`.
    pub open spec fn with_public_mint(self, is_mintable: bool) -> BridgeView {
        BridgeView { config: Config { is_public_mint: is_mintable, ..self.config }, ..self }
    }

    /// The state with `address` registered as the emitter of `chain`.
    pub open spec fn with_emitter(self, chain: u16, address: [u8; 32]) -> BridgeView {
        BridgeView { foreign_emitters: self.foreign_emitters.insert(chain, address), ..self }
    }

    /// The state with `record` filed under `(chain, sequence)`.
    pub open spec fn with_received(self, chain: u16, sequence: u64, record: ReceivedView)
        -> BridgeView {
        BridgeView { received: self.received.insert((chain, sequence), record), ..self }
    }
}

impl View for Bridge {
    type V = BridgeView;

    open spec fn view(&self) -> BridgeView {
        BridgeView {
            config: self.config,
            wormhole_emitter: self.wormhole_emitter,
            foreign_emitters: self.foreign_emitters@,
            received: self.received@,
        }
    }
}

impl Bridge {
    /// The state is valid.
    pub open spec fn wf(&self) -> bool {
        self@.wf()
    }
}

} // verus!
