//! The handlers of the instructions. Each holds the accounts it is given to
//! their constraints, decides, and returns what is to be asked of the token
//! program and of Wormhole. A handler that fails has changed nothing.

use vstd::prelude::*;
use crate::amount::parsed_amount;
use crate::context::{
    BurnAndSendMessage, BurnWusdv, Initialize, MintWusdv, PostedVaa, ReceiveAndMint,
    RegisterEmitter, SendMessage, SetPublicMint,
};
use crate::error::CustomError;
use crate::instruction::{
    emitter_seeds, emitter_signer_seeds, mint_authority_seeds, mint_authority_signer_seeds,
    sent_seeds, sent_signer_seeds, Burn, BurnAndSend, BurnAndSendView, MintTo, MintToView,
    PostMessage, PostMessageView, Publication, PublicationView, Transfer,
};
use crate::ledger::ReplayLedger;
use crate::message::{decoded, MessageView, WormholeMessage, HELLO_MESSAGE_MAX_LENGTH};
use crate::registry::EmitterRegistry;
use crate::state::{
    valid_foreign_emitter, Bridge, BridgeView, BurnPayload, Config, ForeignEmitter, Received,
    ReceivedView, WormholeAddresses, WormholeEmitter, MESSAGE_MAX_LENGTH,
};
use crate::wire::is_zero_address;
use crate::wormhole::{
    finality_of, sdk_chain_id_solana, sdk_finality_confirmed, sdk_finality_from,
    sdk_initial_sequence, Finality, INITIAL_SEQUENCE,
};

verus! {

/// What the bridge keeps for itself of every transfer, in base units of the
/// token. It is burnt on top of the amount sent, and taken off the amount
/// received.
pub const PROCESSING_FEE: u64 = 10_000;

/// The fee that posting costs, if Wormhole asks for one: paid by `payer` to
/// the fee collector.
pub open spec fn fee_transfer(payer: [u8; 32], fee_collector: [u8; 32], fee: u64) -> Option<
    Transfer,
> {
    if fee > 0 {
        Some(Transfer { from: payer, to: fee_collector, lamports: fee })
    } else {
        None
    }
}

/// The posting of `payload` under `sequence`: the fee first, where there is
/// one; then the message, with the batch id and the finality of the config,
/// signed for the address that stores it and for the program's emitter.
pub open spec fn publication(
    config: Config,
    emitter: WormholeEmitter,
    payer: [u8; 32],
    fee: u64,
    fee_collector: [u8; 32],
    sequence: u64,
    message_bump: u8,
    payload: Seq<u8>,
) -> PublicationView {
    PublicationView {
        fee: fee_transfer(payer, fee_collector, fee),
        post: PostMessageView {
            payer,
            batch_id: config.batch_id,
            payload,
            finality: finality_of(config.finality).unwrap(),
            message_seeds: sent_seeds(sequence, message_bump),
            emitter_seeds: emitter_seeds(emitter.bump),
        },
    }
}

fn post_message(
    config: &Config,
    emitter: &WormholeEmitter,
    finality: Finality,
    payer: [u8; 32],
    fee: u64,
    fee_collector: [u8; 32],
    sequence: u64,
    message_bump: u8,
    payload: Vec<u8>,
) -> (out: Publication)
    requires
        finality_of(config.finality) == Some(finality),
    ensures
        out@ == publication(
            *config,
            *emitter,
            payer,
            fee,
            fee_collector,
            sequence,
            message_bump,
            payload@,
        ),
{
    let fee = if fee > 0 {
        Some(Transfer { from: payer, to: fee_collector, lamports: fee })
    } else {
        None
    };
    Publication {
        fee,
        post: PostMessage {
            payer,
            batch_id: config.batch_id,
            payload,
            finality,
            message_seeds: sent_signer_seeds(sequence, message_bump),
            emitter_seeds: emitter_signer_seeds(emitter.bump),
        },
    }
}

/// The config of a program that `ctx` has just initialized: `ctx.owner`
/// owns it, public minting is off, messages are not batched and ask for
/// the finality `Confirmed`.
pub open spec fn initial_config(ctx: Initialize) -> Config {
    Config {
        owner: ctx.owner,
        wormhole: WormholeAddresses {
            bridge: ctx.wormhole_bridge.address,
            fee_collector: ctx.wormhole_fee_collector,
            sequence: ctx.wormhole_sequence,
        },
        batch_id: 0,
        finality: 0,
        is_public_mint: false,
    }
}

/// The state of a program that `ctx` has just initialized: no emitter is
/// registered and no message has been applied.
pub open spec fn initial_bridge(ctx: Initialize) -> BridgeView {
    BridgeView {
        config: initial_config(ctx),
        wormhole_emitter: WormholeEmitter { bump: ctx.wormhole_emitter_bump },
        foreign_emitters: Map::empty(),
        received: Map::empty(),
    }
}

/// The first message of a program: it tells that the program is alive, and
/// is posted under the initial sequence at the owner's cost.
pub open spec fn initial_publication(ctx: Initialize) -> PublicationView {
    publication(
        initial_config(ctx),
        WormholeEmitter { bump: ctx.wormhole_emitter_bump },
        ctx.owner,
        ctx.wormhole_bridge.fee,
        ctx.wormhole_fee_collector,
        INITIAL_SEQUENCE,
        ctx.wormhole_message_bump,
        (MessageView::Alive { program_id: ctx.program_id@ }).encoded(),
    )
}

/// Sets the program up and posts its first message. This always succeeds.
pub fn initialize(ctx: &Initialize) -> (out: Result<(Bridge, Publication), CustomError>)
    ensures
        out is Ok,
        out->Ok_0.0@ == initial_bridge(*ctx),
        out->Ok_0.0.wf(),
        out->Ok_0.1@ == initial_publication(*ctx),
{
    let config = Config {
        owner: ctx.owner,
        wormhole: WormholeAddresses {
            bridge: ctx.wormhole_bridge.address,
            fee_collector: ctx.wormhole_fee_collector,
            sequence: ctx.wormhole_sequence,
        },
        batch_id: 0,
        finality: sdk_finality_confirmed(),
        is_public_mint: false,
    };
    let wormhole_emitter = WormholeEmitter { bump: ctx.wormhole_emitter_bump };
    let payload = match (WormholeMessage::Alive { program_id: ctx.program_id }).encode() {
        Ok(payload) => payload,
        Err(e) => {
            return Err(e);
        },
    };
    let publication = post_message(
        &config,
        &wormhole_emitter,
        Finality::Confirmed,
        ctx.owner,
        ctx.wormhole_bridge.fee,
        ctx.wormhole_fee_collector,
        sdk_initial_sequence(),
        ctx.wormhole_message_bump,
        payload,
    );
    let bridge = Bridge {
        config,
        wormhole_emitter,
        foreign_emitters: EmitterRegistry::new(),
        received: ReplayLedger::new(),
    };
    Ok((bridge, publication))
}

/// Why an emitter cannot be registered, if it cannot. The first of these
/// that applies: the accounts do not meet their constraints (the caller is
/// not the owner); the chain is 0 or this chain, or the address is all zero.
pub open spec fn register_emitter_fault(
    ctx: RegisterEmitter,
    config: Config,
    chain: u16,
    address: [u8; 32],
) -> Option<CustomError> {
    if ctx.fault(config) is Some {
        ctx.fault(config)
    } else if !valid_foreign_emitter(chain, address) {
        Some(CustomError::InvalidForeignEmitter)
    } else {
        None
    }
}

/// Registers `address` as the trusted emitter of `chain`, in the place of
/// the one registered before, if there was one.
pub fn register_emitter(
    ctx: &RegisterEmitter,
    config: &Config,
    foreign_emitters: &mut EmitterRegistry,
    chain: u16,
    address: [u8; 32],
) -> (out: Result<(), CustomError>)
    requires
        old(foreign_emitters).wf(),
    ensures
        out is Err <==> register_emitter_fault(*ctx, *config, chain, address) is Some,
        out is Err ==> Some(out->Err_0) == register_emitter_fault(*ctx, *config, chain, address),
        out is Err ==> final(foreign_emitters)@ == old(foreign_emitters)@,
        out is Ok ==> final(foreign_emitters)@ == old(foreign_emitters)@.insert(chain, address),
        final(foreign_emitters).wf(),
{
    match ctx.check(config) {
        Ok(()) => {},
        Err(e) => {
            return Err(e);
        },
    }
    if chain == 0 || chain == sdk_chain_id_solana() || is_zero_address(&address) {
        return Err(CustomError::InvalidForeignEmitter);
    }
    foreign_emitters.insert(ForeignEmitter { chain, address });
    Ok(())
}

/// Switches public minting on or off. Only the owner may; nothing else in
/// the config changes.
pub fn set_public_mint(ctx: &SetPublicMint, config: &mut Config, is_mintable: bool) -> (out:
    Result<(), CustomError>)
    ensures
        out is Err <==> ctx.fault(*old(config)) is Some,
        out is Err ==> Some(out->Err_0) == ctx.fault(*old(config)),
        out is Err ==> *final(config) == *old(config),
        out is Ok ==> *final(config) == (Config { is_public_mint: is_mintable, ..*old(config) }),
{
    match ctx.check(config) {
        Ok(()) => {},
        Err(e) => {
            return Err(e);
        },
    }
    config.is_public_mint = is_mintable;
    Ok(())
}

/// The request to mint `amount` to the user's token account.
pub open spec fn mint_request(ctx: MintWusdv, amount: u64) -> MintToView {
    MintToView {
        mint: ctx.token_mint.address,
        to: ctx.user_token_account,
        amount,
        authority_seeds: mint_authority_seeds(ctx.mint_authority_bump),
    }
}

/// Asks for `amount` to be minted to the user's token account, signed by
/// the program's mint authority.
pub fn mint_wusdv(ctx: &MintWusdv, amount: u64) -> (out: Result<MintTo, CustomError>)
    ensures
        out is Err <==> ctx.fault() is Some,
        out is Err ==> Some(out->Err_0) == ctx.fault(),
        out is Ok ==> out->Ok_0@ == mint_request(*ctx, amount),
{
    match ctx.check() {
        Ok(()) => {},
        Err(e) => {
            return Err(e);
        },
    }
    Ok(
        MintTo {
            mint: ctx.token_mint.address,
            to: ctx.user_token_account,
            amount,
            authority_seeds: mint_authority_signer_seeds(ctx.mint_authority_bump),
        },
    )
}

/// The request to burn `amount` from the user's token account.
pub open spec fn burn_request(ctx: BurnWusdv, amount: u64) -> Burn {
    Burn {
        mint: ctx.token_mint.address,
        from: ctx.user_token_account,
        authority: ctx.user,
        amount,
    }
}

/// Asks for `amount` to be burnt from the user's token account, signed by
/// the user.
pub fn burn_wusdv(ctx: &BurnWusdv, amount: u64) -> (out: Result<Burn, CustomError>)
    ensures
        out is Err <==> ctx.fault() is Some,
        out is Err ==> Some(out->Err_0) == ctx.fault(),
        out is Ok ==> out->Ok_0 == burn_request(*ctx, amount),
{
    match ctx.check() {
        Ok(()) => {},
        Err(e) => {
            return Err(e);
        },
    }
    Ok(
        Burn {
            mint: ctx.token_mint.address,
            from: ctx.user_token_account,
            authority: ctx.user,
            amount,
        },
    )
}

/// Why the emitter cannot post another message, if it cannot: its sequence
/// is at its end.
pub open spec fn sequence_fault(ctx: SendMessage) -> Option<CustomError> {
    if ctx.wormhole_sequence.sequence == u64::MAX {
        Some(CustomError::InvalidWormholeSequence)
    } else {
        None
    }
}

/// Why nothing can be posted through these accounts, if nothing can. The
/// first of these that applies: the accounts do not meet their constraints;
/// the emitter's sequence is at its end.
pub open spec fn posting_fault(ctx: SendMessage, config: Config) -> Option<CustomError> {
    if ctx.fault(config) is Some {
        ctx.fault(config)
    } else {
        sequence_fault(ctx)
    }
}

/// The posting of `payload` through these accounts, under the sequence
/// number that follows the tracker's.
pub open spec fn posting(
    ctx: SendMessage,
    config: Config,
    emitter: WormholeEmitter,
    payload: Seq<u8>,
) -> PublicationView {
    publication(
        config,
        emitter,
        ctx.payer,
        ctx.wormhole_bridge.fee,
        ctx.wormhole_fee_collector,
        (ctx.wormhole_sequence.sequence + 1) as u64,
        ctx.wormhole_message_bump,
        payload,
    )
}

fn next_posting(ctx: &SendMessage, config: &Config) -> (out: Result<(u64, Finality), CustomError>)
    requires
        config.wf(),
    ensures
        out is Err <==> sequence_fault(*ctx) is Some,
        out is Err ==> Some(out->Err_0) == sequence_fault(*ctx),
        out is Ok ==> out->Ok_0.0 == ctx.wormhole_sequence.sequence + 1,
        out is Ok ==> Some(out->Ok_0.1) == finality_of(config.finality),
{
    let sequence = match ctx.wormhole_sequence.sequence.checked_add(1) {
        Some(sequence) => sequence,
        None => {
            return Err(CustomError::InvalidWormholeSequence);
        },
    };
    match sdk_finality_from(config.finality) {
        Some(finality) => Ok((sequence, finality)),
        None => Err(CustomError::InvalidWormholeConfig),
    }
}

fn check_posting(ctx: &SendMessage, config: &Config) -> (out: Result<(u64, Finality), CustomError>)
    requires
        config.wf(),
    ensures
        out is Err <==> posting_fault(*ctx, *config) is Some,
        out is Err ==> Some(out->Err_0) == posting_fault(*ctx, *config),
        out is Ok ==> out->Ok_0.0 == ctx.wormhole_sequence.sequence + 1,
        out is Ok ==> Some(out->Ok_0.1) == finality_of(config.finality),
{
    match ctx.check(config) {
        Ok(()) => {},
        Err(e) => {
            return Err(e);
        },
    }
    next_posting(ctx, config)
}

/// Why a hello cannot be sent, if it cannot. The first of these that
/// applies: nothing can be posted through the accounts; the message is
/// longer than a hello may be.
pub open spec fn send_message_fault(ctx: SendMessage, config: Config, message: Seq<u8>) -> Option<
    CustomError,
> {
    if posting_fault(ctx, config) is Some {
        posting_fault(ctx, config)
    } else if message.len() > HELLO_MESSAGE_MAX_LENGTH {
        Some(CustomError::InvalidMessage)
    } else {
        None
    }
}

/// Posts `message` as a hello.
pub fn send_message(
    ctx: &SendMessage,
    config: &Config,
    emitter: &WormholeEmitter,
    message: Vec<u8>,
) -> (out: Result<Publication, CustomError>)
    requires
        config.wf(),
    ensures
        out is Err <==> send_message_fault(*ctx, *config, message@) is Some,
        out is Err ==> Some(out->Err_0) == send_message_fault(*ctx, *config, message@),
        out is Ok ==> out->Ok_0@ == posting(
            *ctx,
            *config,
            *emitter,
            (MessageView::Hello { message: message@ }).encoded(),
        ),
{
    let (sequence, finality) = match check_posting(ctx, config) {
        Ok(checked) => checked,
        Err(e) => {
            return Err(e);
        },
    };
    let payload = match (WormholeMessage::Hello { message }).encode() {
        Ok(payload) => payload,
        Err(e) => {
            return Err(e);
        },
    };
    Ok(
        post_message(
            config,
            emitter,
            finality,
            ctx.payer,
            ctx.wormhole_bridge.fee,
            ctx.wormhole_fee_collector,
            sequence,
            ctx.wormhole_message_bump,
            payload,
        ),
    )
}

/// Why an incoming message cannot be recorded, if it cannot. The first of
/// these that applies: it is no hello, or carries more than a record
/// keeps; a message of the same chain and sequence has been recorded.
pub open spec fn receive_message_fault(
    received: Map<(u16, u64), ReceivedView>,
    posted: PostedVaa,
    message: MessageView,
) -> Option<CustomError> {
    if !(message matches MessageView::Hello { message: text } && text.len()
        <= MESSAGE_MAX_LENGTH) {
        Some(CustomError::InvalidMessage)
    } else if received.contains_key((posted.emitter_chain, posted.sequence)) {
        Some(CustomError::DuplicateMessage)
    } else {
        None
    }
}

/// What is kept of a posted hello that carried `text`.
pub open spec fn received_record(posted: PostedVaa, text: Seq<u8>, vaa_hash: [u8; 32])
    -> ReceivedView {
    ReceivedView { batch_id: posted.batch_id, wormhole_message_hash: vaa_hash, message: text }
}

/// Records the hello `message`, which `posted` carried, under the chain and
/// the sequence of `posted`. A message is recorded once: where the place is
/// taken, the call fails and the ledger stays as it is.
pub fn receive_message(
    received: &mut ReplayLedger,
    posted: &PostedVaa,
    message: &WormholeMessage,
    vaa_hash: [u8; 32],
) -> (out: Result<(), CustomError>)
    requires
        old(received).wf(),
    ensures
        out is Err <==> receive_message_fault(old(received)@, *posted, message@) is Some,
        out is Err ==> Some(out->Err_0) == receive_message_fault(
            old(received)@,
            *posted,
            message@,
        ),
        out is Err ==> final(received)@ == old(received)@,
        out is Ok ==> final(received)@ == old(received)@.insert(
            (posted.emitter_chain, posted.sequence),
            received_record(*posted, message@->message, vaa_hash),
        ),
        message@ is Hello && message@->message.len() <= MESSAGE_MAX_LENGTH && !old(
            received,
        )@.contains_key((posted.emitter_chain, posted.sequence)) ==> out is Ok,
        final(received).wf(),
{
    match message {
        WormholeMessage::Hello { message: text } => {
            if text.len() > MESSAGE_MAX_LENGTH {
                return Err(CustomError::InvalidMessage);
            }
            let record = Received {
                batch_id: posted.batch_id,
                wormhole_message_hash: vaa_hash,
                message: vstd::slice::slice_to_vec(text.as_slice()),
            };
            received.record_once(posted.emitter_chain, posted.sequence, record)
        },
        _ => Err(CustomError::InvalidMessage),
    }
}

/// Why tokens cannot be burnt and sent, if they cannot. The first of these
/// that applies:
/// - the amount is zero;
/// - the accounts of the burn do not meet their constraints;
/// - the Wormhole accounts do not meet theirs;
/// - the fee cannot be added to the amount;
/// - the emitter's sequence is at its end.
pub open spec fn burn_and_send_fault(ctx: BurnAndSendMessage, config: Config, amount: u64)
    -> Option<CustomError> {
    if amount == 0 {
        Some(CustomError::InvalidAmount)
    } else if ctx.burning().fault() is Some {
        ctx.burning().fault()
    } else if ctx.posting().fault(config) is Some {
        ctx.posting().fault(config)
    } else if amount + PROCESSING_FEE > u64::MAX {
        Some(CustomError::InvalidAmount)
    } else {
        sequence_fault(ctx.posting())
    }
}

/// What burning and sending asks for: the burn of the amount and the fee,
/// and the posting of a notice of the amount for the recipient.
pub open spec fn burn_and_send_request(
    ctx: BurnAndSendMessage,
    config: Config,
    emitter: WormholeEmitter,
    amount: u64,
    recipient: [u8; 32],
) -> BurnAndSendView {
    BurnAndSendView {
        burn: burn_request(ctx.burning(), (amount + PROCESSING_FEE) as u64),
        publication: posting(
            ctx.posting(),
            config,
            emitter,
            (MessageView::Burn { amount, recipient: recipient@ }).encoded(),
        ),
    }
}

/// Burns `amount` and the fee from the user's tokens, and posts the notice
/// that releases `amount` to `recipient` on the other chain. `recipient` is
/// the address there, brought to 32 bytes. An amount of zero is refused
/// first; then the accounts are held to their constraints; only then is the
/// fee added to the amount.
pub fn burn_and_send(
    ctx: &BurnAndSendMessage,
    config: &Config,
    emitter: &WormholeEmitter,
    amount: u64,
    recipient: [u8; 32],
) -> (out: Result<BurnAndSend, CustomError>)
    requires
        config.wf(),
    ensures
        out is Err <==> burn_and_send_fault(*ctx, *config, amount) is Some,
        out is Err ==> Some(out->Err_0) == burn_and_send_fault(*ctx, *config, amount),
        out is Ok ==> out->Ok_0@ == burn_and_send_request(
            *ctx,
            *config,
            *emitter,
            amount,
            recipient,
        ),
        amount == 0 ==> out is Err && out->Err_0 == CustomError::InvalidAmount,
        amount > 0 && ctx.burning().fault() is Some ==> out is Err && Some(out->Err_0)
            == ctx.burning().fault(),
        amount > 0 && ctx.burning().fault() is None && ctx.posting().fault(*config) is Some
            ==> out is Err && Some(out->Err_0) == ctx.posting().fault(*config),
{
    if amount == 0 {
        return Err(CustomError::InvalidAmount);
    }
    let burning = ctx.burn_accounts();
    match burning.check() {
        Ok(()) => {},
        Err(e) => {
            return Err(e);
        },
    }
    let accounts = ctx.send_message_accounts();
    match accounts.check(config) {
        Ok(()) => {},
        Err(e) => {
            return Err(e);
        },
    }
    let total = match amount.checked_add(PROCESSING_FEE) {
        Some(total) => total,
        None => {
            return Err(CustomError::InvalidAmount);
        },
    };
    let (sequence, finality) = match next_posting(&accounts, config) {
        Ok(next) => next,
        Err(e) => {
            return Err(e);
        },
    };
    let burn = match burn_wusdv(&burning, total) {
        Ok(burn) => burn,
        Err(e) => {
            return Err(e);
        },
    };
    let notice = WormholeMessage::Burn { payload: BurnPayload { amount, recipient } };
    let payload = match notice.encode() {
        Ok(payload) => payload,
        Err(e) => {
            return Err(e);
        },
    };
    let publication = post_message(
        config,
        emitter,
        finality,
        accounts.payer,
        accounts.wormhole_bridge.fee,
        accounts.wormhole_fee_collector,
        sequence,
        accounts.wormhole_message_bump,
        payload,
    );
    Ok(BurnAndSend { burn, publication })
}

/// The text of the hello that `payload` holds, if it holds a hello.
pub open spec fn hello_text(payload: Seq<u8>) -> Option<Seq<u8>> {
    match decoded(payload) {
        Some(MessageView::Hello { message }) => Some(message),
        _ => None,
    }
}

/// The amount that `payload` announces: it must hold a hello whose text is
/// an amount in decimal.
pub open spec fn announced_amount(payload: Seq<u8>) -> Option<u64> {
    match hello_text(payload) {
        Some(text) => parsed_amount(text),
        None => None,
    }
}

/// Whether the registry trusts the emitter of `posted`.
pub open spec fn trusted_emitter(foreign_emitters: Map<u16, [u8; 32]>, posted: PostedVaa) -> bool {
    foreign_emitters.contains_key(posted.emitter_chain) && foreign_emitters[posted.emitter_chain]
        == posted.emitter_address
}

/// Why a posted message cannot be redeemed, if it cannot. The first of
/// these that applies:
/// - public minting is off;
/// - the message is no hello that announces an amount;
/// - its emitter is not the one registered for its chain;
/// - a message of the same chain and sequence has been redeemed;
/// - the amount does not exceed the fee;
/// - the accounts of the mint do not meet their constraints.
pub open spec fn receive_and_mint_fault(
    ctx: ReceiveAndMint,
    config: Config,
    foreign_emitters: Map<u16, [u8; 32]>,
    received: Map<(u16, u64), ReceivedView>,
) -> Option<CustomError> {
    if !config.is_public_mint {
        Some(CustomError::PublicMintDisabled)
    } else if announced_amount(ctx.posted.payload@) is None {
        Some(CustomError::InvalidMessage)
    } else if !trusted_emitter(foreign_emitters, ctx.posted) {
        Some(CustomError::InvalidForeignEmitter)
    } else if received.contains_key((ctx.posted.emitter_chain, ctx.posted.sequence)) {
        Some(CustomError::DuplicateMessage)
    } else if announced_amount(ctx.posted.payload@).unwrap() <= PROCESSING_FEE {
        Some(CustomError::AmountTooSmall)
    } else {
        ctx.minting().fault()
    }
}

/// What redeeming the message asks for: the mint of the announced amount,
/// less the fee, to the user's token account.
pub open spec fn receive_and_mint_request(ctx: ReceiveAndMint) -> MintToView {
    mint_request(
        ctx.minting(),
        (announced_amount(ctx.posted.payload@).unwrap() - PROCESSING_FEE) as u64,
    )
}

/// What redeeming the message leaves in the ledger.
pub open spec fn receive_and_mint_record(ctx: ReceiveAndMint, vaa_hash: [u8; 32]) -> ReceivedView {
    received_record(ctx.posted, hello_text(ctx.posted.payload@).unwrap(), vaa_hash)
}

/// Redeems a posted message for tokens: records it, and asks for the amount
/// it announces, less the fee, to be minted to the user. The record is
/// written before anything is minted, and only if the mint will be asked
/// for: a call that fails leaves the ledger as it was.
pub fn receive_and_mint(
    ctx: &ReceiveAndMint,
    config: &Config,
    foreign_emitters: &EmitterRegistry,
    received: &mut ReplayLedger,
    vaa_hash: [u8; 32],
) -> (out: Result<MintTo, CustomError>)
    requires
        old(received).wf(),
    ensures
        out is Err <==> receive_and_mint_fault(*ctx, *config, foreign_emitters@, old(received)@)
            is Some,
        out is Err ==> Some(out->Err_0) == receive_and_mint_fault(
            *ctx,
            *config,
            foreign_emitters@,
            old(received)@,
        ),
        out is Err ==> final(received)@ == old(received)@,
        out is Ok ==> out->Ok_0@ == receive_and_mint_request(*ctx),
        out is Ok ==> final(received)@ == old(received)@.insert(
            (ctx.posted.emitter_chain, ctx.posted.sequence),
            receive_and_mint_record(*ctx, vaa_hash),
        ),
        final(received).wf(),
{
    if !config.is_public_mint {
        return Err(CustomError::PublicMintDisabled);
    }
    let message = match WormholeMessage::decode(ctx.posted.payload.as_slice()) {
        Ok(message) => message,
        Err(e) => {
            return Err(e);
        },
    };
    let amount = match &message {
        WormholeMessage::Hello { message: text } => match crate::amount::parse_amount(
            text.as_slice(),
        ) {
            Some(amount) => amount,
            None => {
                return Err(CustomError::InvalidMessage);
            },
        },
        _ => {
            return Err(CustomError::InvalidMessage);
        },
    };
    if !foreign_emitters.verify(ctx.posted.emitter_chain, &ctx.posted.emitter_address) {
        return Err(CustomError::InvalidForeignEmitter);
    }
    // What minting would give, were the message new. Nothing is written yet.
    let minted = if amount <= PROCESSING_FEE {
        Err(CustomError::AmountTooSmall)
    } else {
        mint_wusdv(&ctx.mint_accounts(), amount - PROCESSING_FEE)
    };
    match minted {
        Ok(mint) => match receive_message(received, &ctx.posted, &message, vaa_hash) {
            Ok(()) => Ok(mint),
            Err(e) => Err(e),
        },
        Err(e) => {
            if received.contains(ctx.posted.emitter_chain, ctx.posted.sequence) {
                Err(CustomError::DuplicateMessage)
            } else {
                Err(e)
            }
        },
    }
}

} // verus!
