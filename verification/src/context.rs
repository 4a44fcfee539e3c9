//! The accounts that each instruction is given, reduced to what the bridge
//! reads from them, and the constraints that they must meet.

use vstd::prelude::*;
use crate::error::CustomError;
use crate::state::Config;
use crate::wire::same_address;

verus! {

/// Seed of the address under which a posted message is stored: the ASCII
/// bytes of `sent`.
pub const SEED_PREFIX_SENT: [u8; 4] = [115, 101, 110, 116];

/// Seed of the address that signs for minting: the ASCII bytes of
/// `mint_authority`.
pub const SEED_PREFIX_MINT_AUTHORITY: [u8; 14] = [
    109,
    105,
    110,
    116,
    95,
    97,
    117,
    116,
    104,
    111,
    114,
    105,
    116,
    121,
];

/// The number of decimals that the bridged token must have.
pub const MINT_DECIMALS: u8 = 6;

/// Wormhole's bridge data account: where it lives, and the fee that it asks
/// for posting a message.
#[derive(Clone, Copy, Debug, PartialEq, Eq)]
pub struct BridgeData {
    pub address: [u8; 32],
    pub fee: u64,
}

/// Wormhole's tracker of an emitter's sequence: where it lives, and the
/// sequence number of the last message posted.
#[derive(Clone, Copy, Debug, PartialEq, Eq)]
pub struct SequenceTracker {
    pub address: [u8; 32],
    pub sequence: u64,
}

/// A token mint: where it lives, and how many decimals its amounts have.
#[derive(Clone, Copy, Debug, PartialEq, Eq)]
pub struct Mint {
    pub address: [u8; 32],
    pub decimals: u8,
}

/// A message that Wormhole has verified and posted: where it comes from, its
/// place in the emitter's sequence, and the bytes it carries. The bridge
/// takes the verification for granted.
#[derive(Debug, PartialEq, Eq)]
pub struct PostedVaa {
    pub emitter_chain: u16,
    pub emitter_address: [u8; 32],
    pub sequence: u64,
    pub batch_id: u32,
    pub payload: Vec<u8>,
}

/// Accounts of the instruction that initializes the program.
#[derive(Clone, Copy, Debug, PartialEq, Eq)]
pub struct Initialize {
    /// Who initializes the program, and so becomes its owner. Pays the fee
    /// of the first message.
    pub owner: [u8; 32],
    /// The id of this program.
    pub program_id: [u8; 32],
    /// Wormhole's bridge data.
    pub wormhole_bridge: BridgeData,
    /// Wormhole's fee collector.
    pub wormhole_fee_collector: [u8; 32],
    /// The tracker of this program's emitter sequence.
    pub wormhole_sequence: [u8; 32],
    /// Bump of this program's emitter address.
    pub wormhole_emitter_bump: u8,
    /// Bump of the address of the first message.
    pub wormhole_message_bump: u8,
}

/// Accounts of the instruction that registers a foreign emitter.
#[derive(Clone, Copy, Debug, PartialEq, Eq)]
pub struct RegisterEmitter {
    /// Who asks for the registration.
    pub owner: [u8; 32],
}

/// Accounts of the instruction that switches public minting.
#[derive(Clone, Copy, Debug, PartialEq, Eq)]
pub struct SetPublicMint {
    /// Who asks for the switch.
    pub owner: [u8; 32],
}

/// Accounts of the instruction that redeems a verified message for tokens.
#[derive(Debug, PartialEq, Eq)]
pub struct ReceiveAndMint {
    /// Who receives the tokens.
    pub user: [u8; 32],
    /// Who pays for the record of the message.
    pub payer: [u8; 32],
    /// The verified message.
    pub posted: PostedVaa,
    /// The token account that the tokens are minted to.
    pub user_token_account: [u8; 32],
    /// The mint of the bridged token.
    pub token_mint: Mint,
    /// Bump of the address that signs for minting.
    pub mint_authority_bump: u8,
}

/// Accounts of the instruction that mints tokens.
#[derive(Clone, Copy, Debug, PartialEq, Eq)]
pub struct MintWusdv {
    /// The token account that the tokens are minted to.
    pub user_token_account: [u8; 32],
    /// The mint of the bridged token.
    pub token_mint: Mint,
    /// Bump of the address that signs for minting.
    pub mint_authority_bump: u8,
}

/// Accounts of the instruction that burns tokens.
#[derive(Clone, Copy, Debug, PartialEq, Eq)]
pub struct BurnWusdv {
    /// Who burns, and signs for it.
    pub user: [u8; 32],
    /// The token account that the tokens are burnt from.
    pub user_token_account: [u8; 32],
    /// The mint of the bridged token.
    pub token_mint: Mint,
}

/// Accounts of the instruction that posts a message.
#[derive(Clone, Copy, Debug, PartialEq, Eq)]
pub struct SendMessage {
    /// Who pays Wormhole's fee.
    pub payer: [u8; 32],
    /// Wormhole's bridge data.
    pub wormhole_bridge: BridgeData,
    /// Wormhole's fee collector.
    pub wormhole_fee_collector: [u8; 32],
    /// The tracker of this program's emitter sequence.
    pub wormhole_sequence: SequenceTracker,
    /// Bump of the address of the message to post.
    pub wormhole_message_bump: u8,
}

/// Accounts of the instruction that burns tokens and posts the notice.
#[derive(Clone, Copy, Debug, PartialEq, Eq)]
pub struct BurnAndSendMessage {
    /// Who burns, and signs for it.
    pub user: [u8; 32],
    /// The token account that the tokens are burnt from.
    pub user_token_account: [u8; 32],
    /// The mint of the bridged token.
    pub token_mint: Mint,
    /// Who pays Wormhole's fee.
    pub payer: [u8; 32],
    /// Wormhole's bridge data.
    pub wormhole_bridge: BridgeData,
    /// Wormhole's fee collector.
    pub wormhole_fee_collector: [u8; 32],
    /// The tracker of this program's emitter sequence.
    pub wormhole_sequence: SequenceTracker,
    /// Bump of the address of the message to post.
    pub wormhole_message_bump: u8,
}

impl RegisterEmitter {
    /// What is wrong with the accounts, if anything: only the owner in the
    /// config may register an emitter.
    pub open spec fn fault(self, config: Config) -> Option<CustomError> {
        if self.owner != config.owner {
            Some(CustomError::OwnerOnly)
        } else {
            None
        }
    }

    /// Holds the accounts to their constraints.
    pub fn check(&self, config: &Config) -> (out: Result<(), CustomError>)
        ensures
            out is Err <==> self.fault(*config) is Some,
            out is Err ==> Some(out->Err_0) == self.fault(*config),
    {
        if !same_address(&self.owner, &config.owner) {
            return Err(CustomError::OwnerOnly);
        }
        Ok(())
    }
}

impl SetPublicMint {
    /// What is wrong with the accounts, if anything: only the owner in the
    /// config may switch public minting.
    pub open spec fn fault(self, config: Config) -> Option<CustomError> {
        if self.owner != config.owner {
            Some(CustomError::OwnerOnly)
        } else {
            None
        }
    }

    /// Holds the accounts to their constraints.
    pub fn check(&self, config: &Config) -> (out: Result<(), CustomError>)
        ensures
            out is Err <==> self.fault(*config) is Some,
            out is Err ==> Some(out->Err_0) == self.fault(*config),
    {
        if !same_address(&self.owner, &config.owner) {
            return Err(CustomError::OwnerOnly);
        }
        Ok(())
    }
}

impl SendMessage {
    /// What is wrong with the accounts, if anything. The first of these that
    /// applies: the bridge data, the fee collector or the sequence tracker
    /// is not the account that the config names.
    pub open spec fn fault(self, config: Config) -> Option<CustomError> {
        if self.wormhole_bridge.address != config.wormhole.bridge {
            Some(CustomError::InvalidWormholeConfig)
        } else if self.wormhole_fee_collector != config.wormhole.fee_collector {
            Some(CustomError::InvalidWormholeFeeCollector)
        } else if self.wormhole_sequence.address != config.wormhole.sequence {
            Some(CustomError::InvalidWormholeSequence)
        } else {
            None
        }
    }

    /// Holds the accounts to their constraints.
    pub fn check(&self, config: &Config) -> (out: Result<(), CustomError>)
        ensures
            out is Err <==> self.fault(*config) is Some,
            out is Err ==> Some(out->Err_0) == self.fault(*config),
    {
        if !same_address(&self.wormhole_bridge.address, &config.wormhole.bridge) {
            return Err(CustomError::InvalidWormholeConfig);
        }
        if !same_address(&self.wormhole_fee_collector, &config.wormhole.fee_collector) {
            return Err(CustomError::InvalidWormholeFeeCollector);
        }
        if !same_address(&self.wormhole_sequence.address, &config.wormhole.sequence) {
            return Err(CustomError::InvalidWormholeSequence);
        }
        Ok(())
    }
}

impl MintWusdv {
    /// What is wrong with the accounts, if anything: the mint must have six
    /// decimals.
    pub open spec fn fault(self) -> Option<CustomError> {
        if self.token_mint.decimals != MINT_DECIMALS {
            Some(CustomError::InvalidMintDecimals)
        } else {
            None
        }
    }

    /// Holds the accounts to their constraints.
    pub fn check(&self) -> (out: Result<(), CustomError>)
        ensures
            out is Err <==> self.fault() is Some,
            out is Err ==> Some(out->Err_0) == self.fault(),
    {
        if self.token_mint.decimals != MINT_DECIMALS {
            return Err(CustomError::InvalidMintDecimals);
        }
        Ok(())
    }
}

impl BurnWusdv {
    /// What is wrong with the accounts, if anything: the mint must have six
    /// decimals.
    pub open spec fn fault(self) -> Option<CustomError> {
        if self.token_mint.decimals != MINT_DECIMALS {
            Some(CustomError::InvalidMintDecimals)
        } else {
            None
        }
    }

    /// Holds the accounts to their constraints.
    pub fn check(&self) -> (out: Result<(), CustomError>)
        ensures
            out is Err <==> self.fault() is Some,
            out is Err ==> Some(out->Err_0) == self.fault(),
    {
        if self.token_mint.decimals != MINT_DECIMALS {
            return Err(CustomError::InvalidMintDecimals);
        }
        Ok(())
    }
}

impl ReceiveAndMint {
    /// The accounts that minting reads.
    pub open spec fn minting(self) -> MintWusdv {
        MintWusdv {
            user_token_account: self.user_token_account,
            token_mint: self.token_mint,
            mint_authority_bump: self.mint_authority_bump,
        }
    }

    /// The accounts that minting reads.
    pub fn mint_accounts(&self) -> (accounts: MintWusdv)
        ensures
            accounts == self.minting(),
    {
        MintWusdv {
            user_token_account: self.user_token_account,
            token_mint: self.token_mint,
            mint_authority_bump: self.mint_authority_bump,
        }
    }
}

impl BurnAndSendMessage {
    /// The accounts that burning reads.
    pub open spec fn burning(self) -> BurnWusdv {
        BurnWusdv {
            user: self.user,
            user_token_account: self.user_token_account,
            token_mint: self.token_mint,
        }
    }

    /// The accounts that posting the notice reads.
    pub open spec fn posting(self) -> SendMessage {
        SendMessage {
            payer: self.payer,
            wormhole_bridge: self.wormhole_bridge,
            wormhole_fee_collector: self.wormhole_fee_collector,
            wormhole_sequence: self.wormhole_sequence,
            wormhole_message_bump: self.wormhole_message_bump,
        }
    }

    /// The accounts that burning reads.
    pub fn burn_accounts(&self) -> (accounts: BurnWusdv)
        ensures
            accounts == self.burning(),
    {
        BurnWusdv {
            user: self.user,
            user_token_account: self.user_token_account,
            token_mint: self.token_mint,
        }
    }

    /// The accounts that posting the notice reads.
    pub fn send_message_accounts(&self) -> (accounts: SendMessage)
        ensures
            accounts == self.posting(),
    {
        SendMessage {
            payer: self.payer,
            wormhole_bridge: self.wormhole_bridge,
            wormhole_fee_collector: self.wormhole_fee_collector,
            wormhole_sequence: self.wormhole_sequence,
            wormhole_message_bump: self.wormhole_message_bump,
        }
    }
}

} // verus!
