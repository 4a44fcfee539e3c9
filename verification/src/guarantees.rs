//! What holds of the bridge whatever it is asked to do, proved from the
//! definitions of its steps.

use vstd::prelude::*;
use crate::context::{
    BurnAndSendMessage, ReceiveAndMint, RegisterEmitter, SetPublicMint,
};
use crate::error::CustomError;
use crate::instruction::MintToView;
use crate::context::{PostedVaa, SendMessage};
use crate::message::{decoded, lemma_decode_encode, MessageView};
use crate::processor::{
    announced_amount, posting, receive_message_fault, received_record, send_message_fault,
    trusted_emitter, PROCESSING_FEE,
};
use crate::state::{Config, ReceivedView, WormholeEmitter, MESSAGE_MAX_LENGTH};
use crate::state::BridgeView;
use crate::{
    burn_and_send_step, receive_and_mint_step, register_emitter_step, set_public_mint_step,
};

verus! {

/// Redeeming a message files it in the ledger under its chain and sequence,
/// and changes nothing else: not the config, not the registry, not any
/// other record.
pub proof fn lemma_redeemed_message_is_recorded(
    bridge: BridgeView,
    ctx: ReceiveAndMint,
    vaa_hash: [u8; 32],
)
    requires
        receive_and_mint_step(bridge, ctx, vaa_hash) is Ok,
    ensures
        ({
            let after = receive_and_mint_step(bridge, ctx, vaa_hash)->Ok_0.0;
            &&& after.received.contains_key((ctx.posted.emitter_chain, ctx.posted.sequence))
            &&& !bridge.received.contains_key((ctx.posted.emitter_chain, ctx.posted.sequence))
            &&& after.config == bridge.config
            &&& after.wormhole_emitter == bridge.wormhole_emitter
            &&& after.foreign_emitters == bridge.foreign_emitters
            &&& forall|key: (u16, u64)| #[trigger]
                bridge.received.contains_key(key) ==> after.received.contains_key(key)
                    && after.received[key] == bridge.received[key]
        }),
{
}

/// A message whose chain and sequence stand in the ledger is never redeemed
/// again, whatever it carries and whoever presents it. Where public minting
/// is on, the message announces an amount and its emitter is trusted, the
/// refusal is [`CustomError::DuplicateMessage`]; otherwise an earlier check
/// has refused it already.
pub proof fn lemma_recorded_message_is_not_redeemed(
    bridge: BridgeView,
    ctx: ReceiveAndMint,
    vaa_hash: [u8; 32],
)
    requires
        bridge.received.contains_key((ctx.posted.emitter_chain, ctx.posted.sequence)),
    ensures
        receive_and_mint_step(bridge, ctx, vaa_hash) is Err,
        bridge.config.is_public_mint && announced_amount(ctx.posted.payload@) is Some
            && trusted_emitter(bridge.foreign_emitters, ctx.posted) ==> receive_and_mint_step(
            bridge,
            ctx,
            vaa_hash,
        ) == Err::<(BridgeView, MintToView), CustomError>(CustomError::DuplicateMessage),
{
}

/// Once a message has been redeemed, a second attempt with the same chain
/// and sequence mints nothing. Presenting the same message again fails with
/// [`CustomError::DuplicateMessage`]; so does presenting any message of
/// that chain and sequence which announces an amount and comes from the
/// trusted emitter.
pub proof fn lemma_replay_is_refused(
    bridge: BridgeView,
    first: ReceiveAndMint,
    first_hash: [u8; 32],
    second: ReceiveAndMint,
    second_hash: [u8; 32],
)
    requires
        receive_and_mint_step(bridge, first, first_hash) is Ok,
        second.posted.emitter_chain == first.posted.emitter_chain,
        second.posted.sequence == first.posted.sequence,
    ensures
        ({
            let after = receive_and_mint_step(bridge, first, first_hash)->Ok_0.0;
            &&& receive_and_mint_step(after, second, second_hash) is Err
            &&& receive_and_mint_step(after, first, second_hash) == Err::<
                (BridgeView, MintToView),
                CustomError,
            >(CustomError::DuplicateMessage)
            &&& announced_amount(second.posted.payload@) is Some && trusted_emitter(
                after.foreign_emitters,
                second.posted,
            ) ==> receive_and_mint_step(after, second, second_hash) == Err::<
                (BridgeView, MintToView),
                CustomError,
            >(CustomError::DuplicateMessage)
        }),
{
    lemma_redeemed_message_is_recorded(bridge, first, first_hash);
    let after = receive_and_mint_step(bridge, first, first_hash)->Ok_0.0;
    lemma_recorded_message_is_not_redeemed(after, second, second_hash);
    lemma_recorded_message_is_not_redeemed(after, first, second_hash);
}

/// No step removes or rewrites a record: what stands in the ledger before
/// registering an emitter, switching public minting or redeeming a message
/// stands there afterwards, unchanged.
pub proof fn lemma_records_are_permanent(
    bridge: BridgeView,
    key: (u16, u64),
    registering: RegisterEmitter,
    chain: u16,
    address: [u8; 32],
    switching: SetPublicMint,
    is_mintable: bool,
    redeeming: ReceiveAndMint,
    vaa_hash: [u8; 32],
)
    requires
        bridge.received.contains_key(key),
    ensures
        register_emitter_step(bridge, registering, chain, address) matches Ok(after)
            ==> after.received.contains_key(key) && after.received[key] == bridge.received[key],
        set_public_mint_step(bridge, switching, is_mintable) matches Ok(after)
            ==> after.received.contains_key(key) && after.received[key] == bridge.received[key],
        receive_and_mint_step(bridge, redeeming, vaa_hash) matches Ok(after)
            ==> after.0.received.contains_key(key) && after.0.received[key]
            == bridge.received[key],
{
}

/// A message from a chain without a registered emitter, or from an address
/// other than the registered one, is never redeemed. Where public minting
/// is on and the message announces an amount, the refusal is
/// [`CustomError::InvalidForeignEmitter`]; otherwise an earlier check has
/// refused it already.
pub proof fn lemma_untrusted_emitter_is_refused(
    bridge: BridgeView,
    ctx: ReceiveAndMint,
    vaa_hash: [u8; 32],
)
    requires
        !bridge.foreign_emitters.contains_key(ctx.posted.emitter_chain)
            || bridge.foreign_emitters[ctx.posted.emitter_chain] != ctx.posted.emitter_address,
    ensures
        receive_and_mint_step(bridge, ctx, vaa_hash) is Err,
        bridge.config.is_public_mint && announced_amount(ctx.posted.payload@) is Some
            ==> receive_and_mint_step(bridge, ctx, vaa_hash) == Err::<
            (BridgeView, MintToView),
            CustomError,
        >(CustomError::InvalidForeignEmitter),
{
}

/// Whoever is not the owner can neither register an emitter nor switch
/// public minting: both fail with [`CustomError::OwnerOnly`], whatever else
/// is asked, and a step that fails leaves the state as it is.
pub proof fn lemma_only_owner_governs(
    bridge: BridgeView,
    caller: [u8; 32],
    chain: u16,
    address: [u8; 32],
    is_mintable: bool,
)
    requires
        caller != bridge.config.owner,
    ensures
        register_emitter_step(bridge, RegisterEmitter { owner: caller }, chain, address) == Err::<
            BridgeView,
            CustomError,
        >(CustomError::OwnerOnly),
        set_public_mint_step(bridge, SetPublicMint { owner: caller }, is_mintable) == Err::<
            BridgeView,
            CustomError,
        >(CustomError::OwnerOnly),
{
}

/// The owner and the program's own emitter are set when the program is
/// initialized, and no step changes them.
pub proof fn lemma_identities_are_fixed(
    bridge: BridgeView,
    registering: RegisterEmitter,
    chain: u16,
    address: [u8; 32],
    switching: SetPublicMint,
    is_mintable: bool,
    redeeming: ReceiveAndMint,
    vaa_hash: [u8; 32],
)
    ensures
        register_emitter_step(bridge, registering, chain, address) matches Ok(after)
            ==> after.config.owner == bridge.config.owner && after.wormhole_emitter
            == bridge.wormhole_emitter,
        set_public_mint_step(bridge, switching, is_mintable) matches Ok(after)
            ==> after.config.owner == bridge.config.owner && after.wormhole_emitter
            == bridge.wormhole_emitter,
        receive_and_mint_step(bridge, redeeming, vaa_hash) matches Ok(after)
            ==> after.0.config.owner == bridge.config.owner && after.0.wormhole_emitter
            == bridge.wormhole_emitter,
{
}

/// A chain that has an emitter keeps one: registering puts an address in
/// the place of its chain and touches no other chain, and no other step
/// touches the registry.
pub proof fn lemma_emitters_are_never_removed(
    bridge: BridgeView,
    known: u16,
    registering: RegisterEmitter,
    chain: u16,
    address: [u8; 32],
    switching: SetPublicMint,
    is_mintable: bool,
    redeeming: ReceiveAndMint,
    vaa_hash: [u8; 32],
)
    requires
        bridge.foreign_emitters.contains_key(known),
    ensures
        register_emitter_step(bridge, registering, chain, address) matches Ok(after)
            ==> after.foreign_emitters.contains_key(known) && after.foreign_emitters[chain]
            == address && (known != chain ==> after.foreign_emitters[known]
            == bridge.foreign_emitters[known]),
        set_public_mint_step(bridge, switching, is_mintable) matches Ok(after)
            ==> after.foreign_emitters == bridge.foreign_emitters,
        receive_and_mint_step(bridge, redeeming, vaa_hash) matches Ok(after)
            ==> after.0.foreign_emitters == bridge.foreign_emitters,
{
}

/// A valid state stays valid, whatever step is taken.
pub proof fn lemma_steps_keep_the_state_valid(
    bridge: BridgeView,
    registering: RegisterEmitter,
    chain: u16,
    address: [u8; 32],
    switching: SetPublicMint,
    is_mintable: bool,
    redeeming: ReceiveAndMint,
    vaa_hash: [u8; 32],
)
    requires
        bridge.wf(),
    ensures
        register_emitter_step(bridge, registering, chain, address) matches Ok(after)
            ==> after.wf(),
        set_public_mint_step(bridge, switching, is_mintable) matches Ok(after) ==> after.wf(),
        receive_and_mint_step(bridge, redeeming, vaa_hash) matches Ok(after) ==> after.0.wf(),
{
    if receive_and_mint_step(bridge, redeeming, vaa_hash) is Ok {
        crate::message::lemma_encode_decode(redeeming.posted.payload@);
    }
}

/// Burning nothing is refused with [`CustomError::InvalidAmount`], whatever
/// the accounts.
pub proof fn lemma_zero_burn_is_refused(
    bridge: BridgeView,
    ctx: BurnAndSendMessage,
    recipient: [u8; 32],
)
    ensures
        burn_and_send_step(bridge, ctx, 0, recipient) is Err,
        burn_and_send_step(bridge, ctx, 0, recipient)->Err_0 == CustomError::InvalidAmount,
{
}

/// The accounts are judged before the size of the amount. For an amount
/// that is not zero, a mint without six decimals is refused with
/// [`CustomError::InvalidMintDecimals`]; with such a mint, a Wormhole account
/// that is not the one in the config is refused with the error of that
/// account. This holds also of an amount to which the fee cannot be added.
pub proof fn lemma_accounts_are_judged_before_the_fee(
    bridge: BridgeView,
    ctx: BurnAndSendMessage,
    amount: u64,
    recipient: [u8; 32],
)
    requires
        amount > 0,
    ensures
        ctx.burning().fault() is Some ==> burn_and_send_step(bridge, ctx, amount, recipient)
            is Err && burn_and_send_step(bridge, ctx, amount, recipient)->Err_0
            == CustomError::InvalidMintDecimals,
        ctx.burning().fault() is None && ctx.posting().fault(bridge.config) is Some
            ==> burn_and_send_step(bridge, ctx, amount, recipient) is Err && Some(
            burn_and_send_step(bridge, ctx, amount, recipient)->Err_0,
        ) == ctx.posting().fault(bridge.config),
        ctx.burning().fault() is None && ctx.posting().fault(bridge.config) is None && amount
            + PROCESSING_FEE > u64::MAX ==> burn_and_send_step(bridge, ctx, amount, recipient)
            is Err && burn_and_send_step(bridge, ctx, amount, recipient)->Err_0
            == CustomError::InvalidAmount,
{
}

/// What is sent as a hello arrives as that hello. The payload that
/// `send_message` posts for `message` decodes to a hello with the same
/// bytes; delivered unchanged, it is recorded with those bytes wherever the
/// place of its chain and sequence is free.
pub proof fn lemma_sent_hello_is_received(
    ctx: SendMessage,
    config: Config,
    emitter: WormholeEmitter,
    message: Seq<u8>,
    received: Map<(u16, u64), ReceivedView>,
    posted: PostedVaa,
    vaa_hash: [u8; 32],
)
    requires
        send_message_fault(ctx, config, message) is None,
        posted.payload@ == posting(
            ctx,
            config,
            emitter,
            (MessageView::Hello { message }).encoded(),
        ).post.payload,
        !received.contains_key((posted.emitter_chain, posted.sequence)),
    ensures
        decoded(posted.payload@) == Some(MessageView::Hello { message }),
        receive_message_fault(received, posted, decoded(posted.payload@).unwrap()) is None,
        received_record(posted, decoded(posted.payload@).unwrap()->message, vaa_hash).message
            == message,
{
    lemma_decode_encode(MessageView::Hello { message });
}

/// A record keeps up to [`MESSAGE_MAX_LENGTH`] bytes, that many included. A
/// hello of no more bytes is recorded in full wherever the place of its
/// chain and sequence is free; a longer one is refused with
/// [`CustomError::InvalidMessage`].
pub proof fn lemma_record_bound_is_inclusive(
    received: Map<(u16, u64), ReceivedView>,
    posted: PostedVaa,
    message: Seq<u8>,
    vaa_hash: [u8; 32],
)
    requires
        !received.contains_key((posted.emitter_chain, posted.sequence)),
    ensures
        message.len() <= MESSAGE_MAX_LENGTH ==> receive_message_fault(
            received,
            posted,
            MessageView::Hello { message },
        ) is None,
        message.len() <= MESSAGE_MAX_LENGTH ==> received_record(posted, message, vaa_hash).wf()
            && received_record(posted, message, vaa_hash).message == message,
        message.len() > MESSAGE_MAX_LENGTH ==> receive_message_fault(
            received,
            posted,
            MessageView::Hello { message },
        ) == Some(CustomError::InvalidMessage),
{
}

/// A message that announces no more than the fee is never redeemed. Where
/// the checks that come first pass (public minting is on, the emitter is
/// trusted, the message is new), the refusal is
/// [`CustomError::AmountTooSmall`].
pub proof fn lemma_small_amount_is_refused(
    bridge: BridgeView,
    ctx: ReceiveAndMint,
    vaa_hash: [u8; 32],
)
    requires
        announced_amount(ctx.posted.payload@) is Some,
        announced_amount(ctx.posted.payload@).unwrap() <= PROCESSING_FEE,
    ensures
        receive_and_mint_step(bridge, ctx, vaa_hash) is Err,
        bridge.config.is_public_mint && trusted_emitter(bridge.foreign_emitters, ctx.posted)
            && !bridge.received.contains_key((ctx.posted.emitter_chain, ctx.posted.sequence))
            ==> receive_and_mint_step(bridge, ctx, vaa_hash) == Err::<
            (BridgeView, MintToView),
            CustomError,
        >(CustomError::AmountTooSmall),
{
}

/// What is minted is the announced amount less the fee: never nothing, and
/// never more than was announced.
pub proof fn lemma_minted_amount(bridge: BridgeView, ctx: ReceiveAndMint, vaa_hash: [u8; 32])
    requires
        receive_and_mint_step(bridge, ctx, vaa_hash) is Ok,
    ensures
        ({
            let minted = receive_and_mint_step(bridge, ctx, vaa_hash)->Ok_0.1;
            &&& announced_amount(ctx.posted.payload@) is Some
            &&& minted.amount + PROCESSING_FEE == announced_amount(ctx.posted.payload@).unwrap()
            &&& minted.amount > 0
            &&& minted.to == ctx.user_token_account
        }),
{
}

} // verus!
