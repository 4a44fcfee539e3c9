//! A two-way token bridge over Wormhole, as a state machine.
//!
//! Tokens leave this chain by being burnt, with a notice posted through
//! Wormhole; they arrive by a message that Wormhole has verified being
//! redeemed for newly minted tokens. The bridge decides; it performs no
//! transfer and posts nothing itself. Each instruction takes the state of
//! the program and the accounts it is given, and returns what to ask of the
//! token program and of Wormhole.
//!
//! What the bridge guarantees:
//! - only the emitter registered for a chain can have its messages redeemed;
//! - a message is redeemed at most once;
//! - only the owner registers emitters and switches public minting;
//! - no address that signs for the program has a key: each is derived from
//!   seeds.

use vstd::prelude::*;
use crate::context::{
    BurnAndSendMessage, Initialize, ReceiveAndMint, RegisterEmitter, SetPublicMint,
};
use crate::error::CustomError;
use crate::instruction::{BurnAndSend, BurnAndSendView, MintTo, MintToView, Publication};
use crate::processor::{
    burn_and_send_fault, burn_and_send_request, initial_bridge, initial_publication,
    receive_and_mint_fault, receive_and_mint_record, receive_and_mint_request,
    register_emitter_fault, trusted_emitter,
};
use crate::state::{Bridge, BridgeView};

pub mod amount;
pub mod authority;
pub mod context;
pub mod error;
pub mod guarantees;
pub mod instruction;
pub mod ledger;
pub mod message;
pub mod processor;
pub mod registry;
pub mod state;
pub mod wire;
pub mod wormhole;

verus! {

/// Initializes the program: whoever calls becomes the owner, and the first
/// message is posted. A program is initialized once: where `program` holds
/// a state already, the call fails with
/// [`CustomError::AlreadyInitialized`].
pub fn initialize(program: &mut Option<Bridge>, ctx: &Initialize) -> (out: Result<
    Publication,
    CustomError,
>)
    ensures
        out is Err <==> *old(program) is Some,
        out is Err ==> out->Err_0 == CustomError::AlreadyInitialized,
        out is Err ==> *final(program) == *old(program),
        out is Ok ==> *final(program) is Some,
        out is Ok ==> (*final(program))->0@ == initial_bridge(*ctx),
        out is Ok ==> (*final(program))->0.wf(),
        out is Ok ==> out->Ok_0@ == initial_publication(*ctx),
{
    if program.is_some() {
        return Err(CustomError::AlreadyInitialized);
    }
    match processor::initialize(ctx) {
        Ok((bridge, publication)) => {
            *program = Some(bridge);
            Ok(publication)
        },
        Err(e) => Err(e),
    }
}

/// What registering an emitter makes of the state.
pub open spec fn register_emitter_step(
    bridge: BridgeView,
    ctx: RegisterEmitter,
    chain: u16,
    address: [u8; 32],
) -> Result<BridgeView, CustomError> {
    match register_emitter_fault(ctx, bridge.config, chain, address) {
        Some(e) => Err(e),
        None => Ok(bridge.with_emitter(chain, address)),
    }
}

/// Registers `address` as the one trusted emitter of the foreign chain
/// `chain`. Only the owner may. A chain that had an emitter gets the new
/// one in its place.
pub fn register_emitter(
    bridge: &mut Bridge,
    ctx: &RegisterEmitter,
    chain: u16,
    address: [u8; 32],
) -> (out: Result<(), CustomError>)
    requires
        old(bridge).wf(),
    ensures
        out is Ok ==> register_emitter_step(old(bridge)@, *ctx, chain, address) == Ok::<
            BridgeView,
            CustomError,
        >(final(bridge)@),
        out is Err ==> register_emitter_step(old(bridge)@, *ctx, chain, address) == Err::<
            BridgeView,
            CustomError,
        >(out->Err_0),
        out is Err ==> final(bridge)@ == old(bridge)@,
        ctx.owner != old(bridge).config.owner ==> out is Err && out->Err_0
            == CustomError::OwnerOnly,
        final(bridge).wf(),
{
    let config = bridge.config;
    let out = processor::register_emitter(ctx, &config, &mut bridge.foreign_emitters, chain, address);
    proof {
        if out is Ok {
            assert(bridge@ =~= old(bridge)@.with_emitter(chain, address));
        } else {
            assert(bridge@ =~= old(bridge)@);
        }
    }
    out
}

/// What switching public minting makes of the state.
pub open spec fn set_public_mint_step(bridge: BridgeView, ctx: SetPublicMint, is_mintable: bool)
    -> Result<BridgeView, CustomError> {
    match ctx.fault(bridge.config) {
        Some(e) => Err(e),
        None => Ok(bridge.with_public_mint(is_mintable)),
    }
}

/// Switches public minting on or off. Only the owner may.
pub fn set_public_mint(bridge: &mut Bridge, ctx: &SetPublicMint, is_mintable: bool) -> (out:
    Result<(), CustomError>)
    requires
        old(bridge).wf(),
    ensures
        out is Ok ==> set_public_mint_step(old(bridge)@, *ctx, is_mintable) == Ok::<
            BridgeView,
            CustomError,
        >(final(bridge)@),
        out is Err ==> set_public_mint_step(old(bridge)@, *ctx, is_mintable) == Err::<
            BridgeView,
            CustomError,
        >(out->Err_0),
        out is Err ==> final(bridge)@ == old(bridge)@,
        ctx.owner != old(bridge).config.owner ==> out is Err && out->Err_0
            == CustomError::OwnerOnly,
        final(bridge).wf(),
{
    let out = processor::set_public_mint(ctx, &mut bridge.config, is_mintable);
    proof {
        if out is Ok {
            assert(bridge@ =~= old(bridge)@.with_public_mint(is_mintable));
        } else {
            assert(bridge@ =~= old(bridge)@);
        }
    }
    out
}

/// What burning and sending returns. The state is not touched.
pub open spec fn burn_and_send_step(
    bridge: BridgeView,
    ctx: BurnAndSendMessage,
    amount: u64,
    recipient: [u8; 32],
) -> Result<BurnAndSendView, CustomError> {
    match burn_and_send_fault(ctx, bridge.config, amount) {
        Some(e) => Err(e),
        None => Ok(
            burn_and_send_request(ctx, bridge.config, bridge.wormhole_emitter, amount, recipient),
        ),
    }
}

/// Burns `amount` and the fee from the user's tokens, and posts the notice
/// that releases `amount` to `recipient` on the other chain. An amount of
/// zero is refused with [`CustomError::InvalidAmount`], whatever the
/// accounts. For any other amount the accounts are judged first: a mint
/// without six decimals, then a Wormhole account that is not the one in the
/// config, is reported before anything is said of the size of the amount.
pub fn burn_and_send(
    bridge: &Bridge,
    ctx: &BurnAndSendMessage,
    amount: u64,
    recipient: [u8; 32],
) -> (out: Result<BurnAndSend, CustomError>)
    requires
        bridge.wf(),
    ensures
        out is Ok ==> burn_and_send_step(bridge@, *ctx, amount, recipient) == Ok::<
            BurnAndSendView,
            CustomError,
        >(out->Ok_0@),
        out is Err ==> burn_and_send_step(bridge@, *ctx, amount, recipient) == Err::<
            BurnAndSendView,
            CustomError,
        >(out->Err_0),
        amount == 0 ==> out is Err && out->Err_0 == CustomError::InvalidAmount,
        amount > 0 && ctx.burning().fault() is Some ==> out is Err && Some(out->Err_0)
            == ctx.burning().fault(),
        amount > 0 && ctx.burning().fault() is None && ctx.posting().fault(bridge.config)
            is Some ==> out is Err && Some(out->Err_0) == ctx.posting().fault(bridge.config),
{
    processor::burn_and_send(ctx, &bridge.config, &bridge.wormhole_emitter, amount, recipient)
}

/// What redeeming a posted message makes of the state, and what it returns.
pub open spec fn receive_and_mint_step(bridge: BridgeView, ctx: ReceiveAndMint, vaa_hash: [u8; 32])
    -> Result<(BridgeView, MintToView), CustomError> {
    match receive_and_mint_fault(ctx, bridge.config, bridge.foreign_emitters, bridge.received) {
        Some(e) => Err(e),
        None => Ok(
            (
                bridge.with_received(
                    ctx.posted.emitter_chain,
                    ctx.posted.sequence,
                    receive_and_mint_record(ctx, vaa_hash),
                ),
                receive_and_mint_request(ctx),
            ),
        ),
    }
}

/// Redeems a message that Wormhole has verified and posted: records it, and
/// asks for the amount it announces, less the fee, to be minted to the
/// user. The checks come in this order, and the first that fails decides:
/// public minting is on; the message announces an amount; its emitter is
/// the one registered for its chain; no message of the same chain and
/// sequence has been redeemed; the amount exceeds the fee; the mint has six
/// decimals.
pub fn receive_and_mint(bridge: &mut Bridge, ctx: &ReceiveAndMint, vaa_hash: [u8; 32]) -> (out:
    Result<MintTo, CustomError>)
    requires
        old(bridge).wf(),
    ensures
        out is Ok ==> receive_and_mint_step(old(bridge)@, *ctx, vaa_hash) == Ok::<
            (BridgeView, MintToView),
            CustomError,
        >((final(bridge)@, out->Ok_0@)),
        out is Err ==> receive_and_mint_step(old(bridge)@, *ctx, vaa_hash) == Err::<
            (BridgeView, MintToView),
            CustomError,
        >(out->Err_0),
        out is Err ==> final(bridge)@ == old(bridge)@,
        old(bridge)@.received.contains_key((ctx.posted.emitter_chain, ctx.posted.sequence))
            ==> out is Err,
        !trusted_emitter(old(bridge)@.foreign_emitters, ctx.posted) ==> out is Err,
        final(bridge).wf(),
{
    let config = bridge.config;
    let out = processor::receive_and_mint(
        ctx,
        &config,
        &bridge.foreign_emitters,
        &mut bridge.received,
        vaa_hash,
    );
    proof {
        if out is Ok {
            assert(bridge@ =~= old(bridge)@.with_received(
                ctx.posted.emitter_chain,
                ctx.posted.sequence,
                receive_and_mint_record(*ctx, vaa_hash),
            ));
        } else {
            assert(bridge@ =~= old(bridge)@);
        }
    }
    out
}

} // verus!
