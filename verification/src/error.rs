//! The ways a bridge operation can fail.

use vstd::prelude::*;

verus! {

/// Why an operation was refused. Every failure is final for the operation in
/// which it occurs, and an operation that fails changes nothing.
#[derive(Clone, Copy, Debug, PartialEq, Eq, Structural)]
pub enum CustomError {
    /// Unauthorized minting attempt.
    Unauthorized,
    /// The token mint does not use six decimals.
    InvalidMintDecimals,
    /// Only the program's owner is permitted.
    OwnerOnly,
    /// The foreign emitter has a bad chain id or a zero address, or a message
    /// did not come from the emitter registered for its chain.
    InvalidForeignEmitter,
    /// The Wormhole bridge data account is not the one in the config.
    InvalidWormholeConfig,
    /// The Wormhole fee collector account is not the one in the config.
    InvalidWormholeFeeCollector,
    /// The emitter's sequence account is not the one in the config, or its
    /// counter cannot advance.
    InvalidWormholeSequence,
    /// The payload is malformed, or is not of the expected kind.
    InvalidMessage,
    /// Public minting is switched off.
    PublicMintDisabled,
    /// Nothing would be left to mint once the fee is taken off.
    AmountTooSmall,
    /// The amount is zero; or the accounts are in order, and the amount is
    /// so large that the fee cannot be added to it.
    InvalidAmount,
    /// A message with this chain and sequence has been applied before.
    DuplicateMessage,
    /// The program has been initialized before.
    AlreadyInitialized,
}

} // verus!
