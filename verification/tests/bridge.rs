use usdv_bridge::context::{
    BridgeData, BurnAndSendMessage, BurnWusdv, Initialize, Mint, MintWusdv, PostedVaa,
    ReceiveAndMint, RegisterEmitter, SendMessage, SequenceTracker, SetPublicMint,
};
use usdv_bridge::error::CustomError;
use usdv_bridge::instruction::{
    emitter_signer_seeds, mint_authority_signer_seeds, sent_signer_seeds, Burn, Transfer,
};
use usdv_bridge::ledger::ReplayLedger;
use usdv_bridge::message::WormholeMessage;
use usdv_bridge::processor::{
    burn_wusdv, mint_wusdv, receive_message, send_message, PROCESSING_FEE,
};
use usdv_bridge::registry::EmitterRegistry;
use usdv_bridge::state::{
    Bridge, BurnPayload, Config, ForeignEmitter, Received, WormholeAddresses, WormholeEmitter,
};
use usdv_bridge::wire::right_align;
use usdv_bridge::wormhole::Finality;
use usdv_bridge::{burn_and_send, initialize, receive_and_mint, register_emitter, set_public_mint};

const OWNER: [u8; 32] = [1u8; 32];
const STRANGER: [u8; 32] = [2u8; 32];
const PROGRAM: [u8; 32] = [3u8; 32];
const WORMHOLE_BRIDGE: [u8; 32] = [4u8; 32];
const FEE_COLLECTOR: [u8; 32] = [5u8; 32];
const SEQUENCE: [u8; 32] = [6u8; 32];
const USER: [u8; 32] = [7u8; 32];
const PAYER: [u8; 32] = [8u8; 32];
const TOKEN_ACCOUNT: [u8; 32] = [9u8; 32];
const MINT: [u8; 32] = [10u8; 32];
const EMITTER_A: [u8; 32] = [11u8; 32];
const EMITTER_B: [u8; 32] = [12u8; 32];
const HASH: [u8; 32] = [13u8; 32];

fn initialize_accounts(fee: u64) -> Initialize {
    Initialize {
        owner: OWNER,
        program_id: PROGRAM,
        wormhole_bridge: BridgeData { address: WORMHOLE_BRIDGE, fee },
        wormhole_fee_collector: FEE_COLLECTOR,
        wormhole_sequence: SEQUENCE,
        wormhole_emitter_bump: 254,
        wormhole_message_bump: 253,
    }
}

fn fresh() -> Bridge {
    let mut program = None;
    initialize(&mut program, &initialize_accounts(0)).unwrap();
    program.unwrap()
}

fn open_bridge() -> Bridge {
    let mut bridge = fresh();
    register_emitter(&mut bridge, &RegisterEmitter { owner: OWNER }, 2, EMITTER_A).unwrap();
    set_public_mint(&mut bridge, &SetPublicMint { owner: OWNER }, true).unwrap();
    bridge
}

fn hello(text: &[u8]) -> Vec<u8> {
    WormholeMessage::Hello { message: text.to_vec() }.encode().unwrap()
}

fn redeem(chain: u16, emitter: [u8; 32], sequence: u64, payload: Vec<u8>) -> ReceiveAndMint {
    ReceiveAndMint {
        user: USER,
        payer: PAYER,
        posted: PostedVaa {
            emitter_chain: chain,
            emitter_address: emitter,
            sequence,
            batch_id: 17,
            payload,
        },
        user_token_account: TOKEN_ACCOUNT,
        token_mint: Mint { address: MINT, decimals: 6 },
        mint_authority_bump: 252,
    }
}

fn burn_accounts() -> BurnAndSendMessage {
    BurnAndSendMessage {
        user: USER,
        user_token_account: TOKEN_ACCOUNT,
        token_mint: Mint { address: MINT, decimals: 6 },
        payer: PAYER,
        wormhole_bridge: BridgeData { address: WORMHOLE_BRIDGE, fee: 100 },
        wormhole_fee_collector: FEE_COLLECTOR,
        wormhole_sequence: SequenceTracker { address: SEQUENCE, sequence: 41 },
        wormhole_message_bump: 251,
    }
}

fn send_accounts() -> SendMessage {
    SendMessage {
        payer: PAYER,
        wormhole_bridge: BridgeData { address: WORMHOLE_BRIDGE, fee: 0 },
        wormhole_fee_collector: FEE_COLLECTOR,
        wormhole_sequence: SequenceTracker { address: SEQUENCE, sequence: 0x0102 },
        wormhole_message_bump: 250,
    }
}

fn config_of(bridge: &Bridge) -> Config {
    bridge.config
}

#[test]
fn initialize_sets_the_config() {
    let bridge = fresh();
    assert_eq!(
        bridge.config,
        Config {
            owner: OWNER,
            wormhole: WormholeAddresses {
                bridge: WORMHOLE_BRIDGE,
                fee_collector: FEE_COLLECTOR,
                sequence: SEQUENCE,
            },
            batch_id: 0,
            finality: 0,
            is_public_mint: false,
        }
    );
    assert_eq!(bridge.wormhole_emitter, WormholeEmitter { bump: 254 });
    assert_eq!(bridge.foreign_emitters.get(2), None);
    assert!(!bridge.received.contains(2, 1));
}

#[test]
fn initialize_posts_that_the_program_is_alive() {
    let mut program = None;
    let publication = initialize(&mut program, &initialize_accounts(0)).unwrap();
    assert_eq!(publication.fee, None);
    assert_eq!(publication.post.payer, OWNER);
    assert_eq!(publication.post.batch_id, 0);
    assert_eq!(publication.post.finality, Finality::Confirmed);
    let mut expected = vec![0u8];
    expected.extend_from_slice(&PROGRAM);
    assert_eq!(publication.post.payload, expected);
    assert_eq!(
        publication.post.message_seeds,
        vec![b"sent".to_vec(), vec![1, 0, 0, 0, 0, 0, 0, 0], vec![253]]
    );
    assert_eq!(publication.post.emitter_seeds, vec![b"emitter".to_vec(), vec![254]]);
}

#[test]
fn initialize_pays_the_fee_that_wormhole_asks() {
    let mut program = None;
    let publication = initialize(&mut program, &initialize_accounts(5_000)).unwrap();
    assert_eq!(
        publication.fee,
        Some(Transfer { from: OWNER, to: FEE_COLLECTOR, lamports: 5_000 })
    );
}

#[test]
fn initialize_happens_once() {
    let mut program = None;
    initialize(&mut program, &initialize_accounts(0)).unwrap();
    let mut second = initialize_accounts(9);
    second.owner = STRANGER;
    assert_eq!(initialize(&mut program, &second), Err(CustomError::AlreadyInitialized));
    assert_eq!(program.unwrap().config.owner, OWNER);
}

#[test]
fn owner_registers_an_emitter() {
    let mut bridge = fresh();
    assert_eq!(
        register_emitter(&mut bridge, &RegisterEmitter { owner: OWNER }, 2, EMITTER_A),
        Ok(())
    );
    assert_eq!(
        bridge.foreign_emitters.get(2),
        Some(ForeignEmitter { chain: 2, address: EMITTER_A })
    );
    assert!(bridge.foreign_emitters.verify(2, &EMITTER_A));
    assert!(!bridge.foreign_emitters.verify(2, &EMITTER_B));
    assert!(!bridge.foreign_emitters.verify(3, &EMITTER_A));
}

#[test]
fn registering_again_overwrites() {
    let mut bridge = fresh();
    register_emitter(&mut bridge, &RegisterEmitter { owner: OWNER }, 2, EMITTER_A).unwrap();
    register_emitter(&mut bridge, &RegisterEmitter { owner: OWNER }, 5, EMITTER_A).unwrap();
    register_emitter(&mut bridge, &RegisterEmitter { owner: OWNER }, 2, EMITTER_B).unwrap();
    assert!(bridge.foreign_emitters.verify(2, &EMITTER_B));
    assert!(!bridge.foreign_emitters.verify(2, &EMITTER_A));
    assert!(bridge.foreign_emitters.verify(5, &EMITTER_A));
}

#[test]
fn stranger_cannot_register_an_emitter() {
    let mut bridge = fresh();
    let before = config_of(&bridge);
    assert_eq!(
        register_emitter(&mut bridge, &RegisterEmitter { owner: STRANGER }, 2, EMITTER_A),
        Err(CustomError::OwnerOnly)
    );
    assert_eq!(bridge.foreign_emitters.get(2), None);
    assert_eq!(bridge.config, before);
}

#[test]
fn stranger_is_refused_before_the_emitter_is_looked_at() {
    let mut bridge = fresh();
    assert_eq!(
        register_emitter(&mut bridge, &RegisterEmitter { owner: STRANGER }, 0, [0u8; 32]),
        Err(CustomError::OwnerOnly)
    );
}

#[test]
fn bad_emitters_are_refused() {
    let mut bridge = fresh();
    let owner = RegisterEmitter { owner: OWNER };
    assert_eq!(
        register_emitter(&mut bridge, &owner, 0, EMITTER_A),
        Err(CustomError::InvalidForeignEmitter)
    );
    assert_eq!(
        register_emitter(&mut bridge, &owner, 1, EMITTER_A),
        Err(CustomError::InvalidForeignEmitter)
    );
    assert_eq!(
        register_emitter(&mut bridge, &owner, 2, [0u8; 32]),
        Err(CustomError::InvalidForeignEmitter)
    );
    assert_eq!(bridge.foreign_emitters.get(0), None);
    assert_eq!(bridge.foreign_emitters.get(1), None);
    assert_eq!(bridge.foreign_emitters.get(2), None);
    let mut almost_zero = [0u8; 32];
    almost_zero[0] = 1;
    assert_eq!(register_emitter(&mut bridge, &owner, u16::MAX, almost_zero), Ok(()));
}

#[test]
fn a_refused_emitter_leaves_the_old_one() {
    let mut bridge = fresh();
    let owner = RegisterEmitter { owner: OWNER };
    register_emitter(&mut bridge, &owner, 2, EMITTER_A).unwrap();
    assert_eq!(
        register_emitter(&mut bridge, &owner, 2, [0u8; 32]),
        Err(CustomError::InvalidForeignEmitter)
    );
    assert!(bridge.foreign_emitters.verify(2, &EMITTER_A));
}

#[test]
fn owner_switches_public_mint() {
    let mut bridge = fresh();
    assert!(!bridge.config.is_public_mint);
    assert_eq!(set_public_mint(&mut bridge, &SetPublicMint { owner: OWNER }, true), Ok(()));
    assert!(bridge.config.is_public_mint);
    assert_eq!(bridge.config.owner, OWNER);
    assert_eq!(set_public_mint(&mut bridge, &SetPublicMint { owner: OWNER }, false), Ok(()));
    assert!(!bridge.config.is_public_mint);
}

#[test]
fn stranger_cannot_switch_public_mint() {
    let mut bridge = fresh();
    let before = config_of(&bridge);
    assert_eq!(
        set_public_mint(&mut bridge, &SetPublicMint { owner: STRANGER }, true),
        Err(CustomError::OwnerOnly)
    );
    assert_eq!(bridge.config, before);
}

#[test]
fn end_to_end_redeem_once() {
    let mut program = None;
    initialize(&mut program, &initialize_accounts(0)).unwrap();
    let mut bridge = program.unwrap();
    register_emitter(&mut bridge, &RegisterEmitter { owner: OWNER }, 2, EMITTER_A).unwrap();
    set_public_mint(&mut bridge, &SetPublicMint { owner: OWNER }, true).unwrap();

    let mut balance: u64 = 0;
    let ctx = redeem(2, EMITTER_A, 1, hello(b"1000000"));
    let mint = receive_and_mint(&mut bridge, &ctx, HASH).unwrap();
    assert_eq!(mint.amount, 1_000_000 - PROCESSING_FEE);
    assert_eq!(mint.to, TOKEN_ACCOUNT);
    assert_eq!(mint.mint, MINT);
    assert_eq!(mint.authority_seeds, vec![b"mint_authority".to_vec(), vec![252]]);
    balance += mint.amount;
    assert_eq!(balance, 1_000_000 - PROCESSING_FEE);

    assert!(bridge.received.contains(2, 1));
    assert_eq!(
        bridge.received.get(2, 1),
        Some(&Received {
            batch_id: 17,
            wormhole_message_hash: HASH,
            message: b"1000000".to_vec(),
        })
    );

    let again = receive_and_mint(&mut bridge, &ctx, HASH);
    assert_eq!(again, Err(CustomError::DuplicateMessage));
    assert_eq!(balance, 1_000_000 - PROCESSING_FEE);
    assert!(bridge.received.contains(2, 1));
}

#[test]
fn the_fee_is_ten_thousand() {
    assert_eq!(PROCESSING_FEE, 10_000);
    let mut bridge = open_bridge();
    let mint = receive_and_mint(&mut bridge, &redeem(2, EMITTER_A, 1, hello(b"1000000")), HASH)
        .unwrap();
    assert_eq!(mint.amount, 990_000);
}

#[test]
fn same_sequence_with_other_content_is_a_replay() {
    let mut bridge = open_bridge();
    receive_and_mint(&mut bridge, &redeem(2, EMITTER_A, 1, hello(b"1000000")), HASH).unwrap();
    let mut other = redeem(2, EMITTER_A, 1, hello(b"5000000"));
    other.user = STRANGER;
    assert_eq!(
        receive_and_mint(&mut bridge, &other, [99u8; 32]),
        Err(CustomError::DuplicateMessage)
    );
    assert_eq!(bridge.received.get(2, 1).unwrap().message, b"1000000".to_vec());
}

#[test]
fn other_sequences_and_chains_are_not_replays() {
    let mut bridge = open_bridge();
    register_emitter(&mut bridge, &RegisterEmitter { owner: OWNER }, 3, EMITTER_B).unwrap();
    receive_and_mint(&mut bridge, &redeem(2, EMITTER_A, 1, hello(b"1000000")), HASH).unwrap();
    assert!(receive_and_mint(&mut bridge, &redeem(2, EMITTER_A, 2, hello(b"1000000")), HASH)
        .is_ok());
    assert!(receive_and_mint(&mut bridge, &redeem(3, EMITTER_B, 1, hello(b"1000000")), HASH)
        .is_ok());
    assert!(receive_and_mint(&mut bridge, &redeem(2, EMITTER_A, u64::MAX, hello(b"20000")), HASH)
        .is_ok());
    assert!(bridge.received.contains(2, 1));
    assert!(bridge.received.contains(2, 2));
    assert!(bridge.received.contains(3, 1));
    assert!(bridge.received.contains(2, u64::MAX));
    assert!(!bridge.received.contains(3, 2));
}

#[test]
fn unregistered_chain_is_refused() {
    let mut bridge = open_bridge();
    assert_eq!(
        receive_and_mint(&mut bridge, &redeem(4, EMITTER_A, 1, hello(b"1000000")), HASH),
        Err(CustomError::InvalidForeignEmitter)
    );
    assert!(!bridge.received.contains(4, 1));
}

#[test]
fn wrong_source_address_is_refused() {
    let mut bridge = open_bridge();
    assert_eq!(
        receive_and_mint(&mut bridge, &redeem(2, EMITTER_B, 1, hello(b"1000000")), HASH),
        Err(CustomError::InvalidForeignEmitter)
    );
    let mut near = EMITTER_A;
    near[31] ^= 1;
    assert_eq!(
        receive_and_mint(&mut bridge, &redeem(2, near, 1, hello(b"1000000")), HASH),
        Err(CustomError::InvalidForeignEmitter)
    );
    assert!(!bridge.received.contains(2, 1));
}

#[test]
fn closed_gate_refuses_everything() {
    let mut bridge = fresh();
    register_emitter(&mut bridge, &RegisterEmitter { owner: OWNER }, 2, EMITTER_A).unwrap();
    assert_eq!(
        receive_and_mint(&mut bridge, &redeem(2, EMITTER_A, 1, hello(b"1000000")), HASH),
        Err(CustomError::PublicMintDisabled)
    );
    assert_eq!(
        receive_and_mint(&mut bridge, &redeem(9, EMITTER_B, 1, vec![77]), HASH),
        Err(CustomError::PublicMintDisabled)
    );
    assert!(!bridge.received.contains(2, 1));
}

#[test]
fn closing_the_gate_stops_redeeming() {
    let mut bridge = open_bridge();
    receive_and_mint(&mut bridge, &redeem(2, EMITTER_A, 1, hello(b"1000000")), HASH).unwrap();
    set_public_mint(&mut bridge, &SetPublicMint { owner: OWNER }, false).unwrap();
    assert_eq!(
        receive_and_mint(&mut bridge, &redeem(2, EMITTER_A, 2, hello(b"1000000")), HASH),
        Err(CustomError::PublicMintDisabled)
    );
    assert_eq!(
        receive_and_mint(&mut bridge, &redeem(2, EMITTER_A, 1, hello(b"1000000")), HASH),
        Err(CustomError::PublicMintDisabled)
    );
    assert!(bridge.received.contains(2, 1));
    assert!(!bridge.received.contains(2, 2));
}

#[test]
fn payloads_that_announce_no_amount_are_refused() {
    let mut bridge = open_bridge();
    let alive = WormholeMessage::Alive { program_id: PROGRAM }.encode().unwrap();
    let burn = WormholeMessage::Burn { payload: BurnPayload { amount: 1_000_000, recipient: USER } }
        .encode()
        .unwrap();
    let mut truncated = hello(b"1000000");
    truncated.pop();
    let mut extended = hello(b"1000000");
    extended.push(b'0');
    let payloads = vec![
        Vec::new(),
        vec![9u8, 1, 2],
        alive,
        burn,
        truncated,
        extended,
        hello(b""),
        hello(b"one"),
        hello(b"1000000 "),
        hello(b"-1"),
        hello(b"18446744073709551616"),
    ];
    for payload in payloads {
        assert_eq!(
            receive_and_mint(&mut bridge, &redeem(2, EMITTER_A, 1, payload), HASH),
            Err(CustomError::InvalidMessage)
        );
    }
    assert!(!bridge.received.contains(2, 1));
}

#[test]
fn a_bad_payload_is_reported_before_a_bad_emitter() {
    let mut bridge = open_bridge();
    assert_eq!(
        receive_and_mint(&mut bridge, &redeem(4, EMITTER_B, 1, hello(b"x")), HASH),
        Err(CustomError::InvalidMessage)
    );
}

#[test]
fn amounts_up_to_the_fee_are_too_small() {
    let mut bridge = open_bridge();
    for text in [&b"0"[..], &b"1"[..], &b"9999"[..], &b"10000"[..]] {
        assert_eq!(
            receive_and_mint(&mut bridge, &redeem(2, EMITTER_A, 1, hello(text)), HASH),
            Err(CustomError::AmountTooSmall)
        );
        assert!(!bridge.received.contains(2, 1));
    }
    let mint = receive_and_mint(&mut bridge, &redeem(2, EMITTER_A, 1, hello(b"10001")), HASH)
        .unwrap();
    assert_eq!(mint.amount, 1);
    assert!(bridge.received.contains(2, 1));
}

#[test]
fn a_replay_is_reported_before_a_small_amount() {
    let mut bridge = open_bridge();
    receive_and_mint(&mut bridge, &redeem(2, EMITTER_A, 1, hello(b"1000000")), HASH).unwrap();
    assert_eq!(
        receive_and_mint(&mut bridge, &redeem(2, EMITTER_A, 1, hello(b"5")), HASH),
        Err(CustomError::DuplicateMessage)
    );
}

#[test]
fn the_largest_amount_is_redeemed() {
    let mut bridge = open_bridge();
    let mint = receive_and_mint(
        &mut bridge,
        &redeem(2, EMITTER_A, 1, hello(b"18446744073709551615")),
        HASH,
    )
    .unwrap();
    assert_eq!(mint.amount, u64::MAX - PROCESSING_FEE);
}

#[test]
fn a_mint_with_other_decimals_is_refused_and_not_recorded() {
    let mut bridge = open_bridge();
    let mut ctx = redeem(2, EMITTER_A, 1, hello(b"1000000"));
    ctx.token_mint.decimals = 9;
    assert_eq!(
        receive_and_mint(&mut bridge, &ctx, HASH),
        Err(CustomError::InvalidMintDecimals)
    );
    assert!(!bridge.received.contains(2, 1));
    ctx.token_mint.decimals = 6;
    assert!(receive_and_mint(&mut bridge, &ctx, HASH).is_ok());
    ctx.token_mint.decimals = 9;
    assert_eq!(receive_and_mint(&mut bridge, &ctx, HASH), Err(CustomError::DuplicateMessage));
}

#[test]
fn burning_nothing_is_refused() {
    let bridge = fresh();
    assert_eq!(
        burn_and_send(&bridge, &burn_accounts(), 0, USER).map(|_| ()),
        Err(CustomError::InvalidAmount)
    );
    let mut broken = burn_accounts();
    broken.token_mint.decimals = 0;
    broken.wormhole_bridge.address = STRANGER;
    assert_eq!(
        burn_and_send(&bridge, &broken, 0, USER).map(|_| ()),
        Err(CustomError::InvalidAmount)
    );
}

#[test]
fn burning_more_than_fits_with_the_fee_is_refused() {
    let bridge = fresh();
    assert_eq!(
        burn_and_send(&bridge, &burn_accounts(), u64::MAX - PROCESSING_FEE + 1, USER).map(|_| ()),
        Err(CustomError::InvalidAmount)
    );
    let most = burn_and_send(&bridge, &burn_accounts(), u64::MAX - PROCESSING_FEE, USER).unwrap();
    assert_eq!(most.burn.amount, u64::MAX);
}

#[test]
fn burn_and_send_burns_amount_and_fee_and_posts_the_notice() {
    let bridge = fresh();
    let recipient = right_align(&[0xabu8; 20]).unwrap();
    let out = burn_and_send(&bridge, &burn_accounts(), 2_000_000, recipient).unwrap();
    assert_eq!(
        out.burn,
        Burn { mint: MINT, from: TOKEN_ACCOUNT, authority: USER, amount: 2_000_000 + PROCESSING_FEE }
    );
    assert_eq!(
        out.publication.fee,
        Some(Transfer { from: PAYER, to: FEE_COLLECTOR, lamports: 100 })
    );
    let post = out.publication.post;
    assert_eq!(post.payer, PAYER);
    assert_eq!(post.batch_id, 0);
    assert_eq!(post.finality, Finality::Confirmed);
    let mut payload = vec![2u8, 0x80, 0x84, 0x1e, 0, 0, 0, 0, 0];
    payload.extend_from_slice(&[0u8; 12]);
    payload.extend_from_slice(&[0xabu8; 20]);
    assert_eq!(post.payload, payload);
    assert_eq!(
        WormholeMessage::decode(&post.payload),
        Ok(WormholeMessage::Burn { payload: BurnPayload { amount: 2_000_000, recipient } })
    );
    assert_eq!(
        post.message_seeds,
        vec![b"sent".to_vec(), vec![42, 0, 0, 0, 0, 0, 0, 0], vec![251]]
    );
    assert_eq!(post.emitter_seeds, vec![b"emitter".to_vec(), vec![254]]);
}

#[test]
fn burn_and_send_does_not_touch_the_state() {
    let mut bridge = open_bridge();
    receive_and_mint(&mut bridge, &redeem(2, EMITTER_A, 1, hello(b"1000000")), HASH).unwrap();
    let before = config_of(&bridge);
    burn_and_send(&bridge, &burn_accounts(), 5, USER).unwrap();
    assert_eq!(bridge.config, before);
    assert!(bridge.foreign_emitters.verify(2, &EMITTER_A));
    assert!(bridge.received.contains(2, 1));
}

#[test]
fn burn_and_send_holds_the_accounts_to_the_config() {
    let bridge = fresh();
    let mut ctx = burn_accounts();
    ctx.token_mint.decimals = 9;
    ctx.wormhole_bridge.address = STRANGER;
    assert_eq!(
        burn_and_send(&bridge, &ctx, 5, USER).map(|_| ()),
        Err(CustomError::InvalidMintDecimals)
    );
    let mut ctx = burn_accounts();
    ctx.wormhole_bridge.address = STRANGER;
    ctx.wormhole_fee_collector = STRANGER;
    assert_eq!(
        burn_and_send(&bridge, &ctx, 5, USER).map(|_| ()),
        Err(CustomError::InvalidWormholeConfig)
    );
    let mut ctx = burn_accounts();
    ctx.wormhole_fee_collector = STRANGER;
    ctx.wormhole_sequence.address = STRANGER;
    assert_eq!(
        burn_and_send(&bridge, &ctx, 5, USER).map(|_| ()),
        Err(CustomError::InvalidWormholeFeeCollector)
    );
    let mut ctx = burn_accounts();
    ctx.wormhole_sequence.address = STRANGER;
    assert_eq!(
        burn_and_send(&bridge, &ctx, 5, USER).map(|_| ()),
        Err(CustomError::InvalidWormholeSequence)
    );
}

#[test]
fn a_sequence_at_its_end_cannot_advance() {
    let bridge = fresh();
    let mut ctx = burn_accounts();
    ctx.wormhole_sequence.sequence = u64::MAX;
    assert_eq!(
        burn_and_send(&bridge, &ctx, 5, USER).map(|_| ()),
        Err(CustomError::InvalidWormholeSequence)
    );
    ctx.wormhole_sequence.sequence = u64::MAX - 1;
    let out = burn_and_send(&bridge, &ctx, 5, USER).unwrap();
    assert_eq!(out.publication.post.message_seeds[1], vec![255u8; 8]);
}

#[test]
fn send_message_posts_a_hello() {
    let bridge = fresh();
    let out = send_message(
        &send_accounts(),
        &bridge.config,
        &bridge.wormhole_emitter,
        b"hi".to_vec(),
    )
    .unwrap();
    assert_eq!(out.fee, None);
    assert_eq!(out.post.payload, vec![1, 2, 0, b'h', b'i']);
    assert_eq!(out.post.finality, Finality::Confirmed);
    assert_eq!(
        out.post.message_seeds,
        vec![b"sent".to_vec(), vec![3, 1, 0, 0, 0, 0, 0, 0], vec![250]]
    );
    assert_eq!(out.post.emitter_seeds, vec![b"emitter".to_vec(), vec![254]]);
}

#[test]
fn send_message_asks_for_the_finality_of_the_config() {
    let mut bridge = fresh();
    bridge.config.finality = 1;
    let out = send_message(
        &send_accounts(),
        &bridge.config,
        &bridge.wormhole_emitter,
        Vec::new(),
    )
    .unwrap();
    assert_eq!(out.post.finality, Finality::Finalized);
}

#[test]
fn send_message_refuses_what_is_too_long() {
    let bridge = fresh();
    assert_eq!(
        send_message(&send_accounts(), &bridge.config, &bridge.wormhole_emitter, vec![0u8; 513])
            .map(|_| ()),
        Err(CustomError::InvalidMessage)
    );
    assert!(
        send_message(&send_accounts(), &bridge.config, &bridge.wormhole_emitter, vec![0u8; 512])
            .is_ok()
    );
    let mut ctx = send_accounts();
    ctx.wormhole_bridge.address = STRANGER;
    assert_eq!(
        send_message(&ctx, &bridge.config, &bridge.wormhole_emitter, vec![0u8; 513]).map(|_| ()),
        Err(CustomError::InvalidWormholeConfig)
    );
}

#[test]
fn receive_message_records_a_hello_once() {
    let mut ledger = ReplayLedger::new();
    let posted = PostedVaa {
        emitter_chain: 2,
        emitter_address: EMITTER_A,
        sequence: 7,
        batch_id: 3,
        payload: hello(b"abc"),
    };
    let message = WormholeMessage::Hello { message: b"abc".to_vec() };
    assert_eq!(receive_message(&mut ledger, &posted, &message, HASH), Ok(()));
    assert_eq!(
        ledger.get(2, 7),
        Some(&Received { batch_id: 3, wormhole_message_hash: HASH, message: b"abc".to_vec() })
    );
    assert_eq!(
        receive_message(&mut ledger, &posted, &message, HASH),
        Err(CustomError::DuplicateMessage)
    );
    assert_eq!(ledger.get(7, 2), None);
}

#[test]
fn receive_message_refuses_what_is_no_hello() {
    let mut ledger = ReplayLedger::new();
    let posted = PostedVaa {
        emitter_chain: 2,
        emitter_address: EMITTER_A,
        sequence: 7,
        batch_id: 3,
        payload: Vec::new(),
    };
    let alive = WormholeMessage::Alive { program_id: PROGRAM };
    assert_eq!(
        receive_message(&mut ledger, &posted, &alive, HASH),
        Err(CustomError::InvalidMessage)
    );
    let long = WormholeMessage::Hello { message: vec![1u8; 1025] };
    assert_eq!(
        receive_message(&mut ledger, &posted, &long, HASH),
        Err(CustomError::InvalidMessage)
    );
    assert!(!ledger.contains(2, 7));
    let longest = WormholeMessage::Hello { message: vec![1u8; 1024] };
    assert_eq!(receive_message(&mut ledger, &posted, &longest, HASH), Ok(()));
}

#[test]
fn ledger_keeps_the_first_record() {
    let mut ledger = ReplayLedger::new();
    let first = Received { batch_id: 1, wormhole_message_hash: HASH, message: vec![1] };
    let second = Received { batch_id: 2, wormhole_message_hash: [0u8; 32], message: vec![2] };
    assert_eq!(ledger.record_once(65535, u64::MAX, first), Ok(()));
    assert_eq!(
        ledger.record_once(65535, u64::MAX, second),
        Err(CustomError::DuplicateMessage)
    );
    assert_eq!(ledger.get(65535, u64::MAX).unwrap().batch_id, 1);
    assert!(!ledger.contains(65534, u64::MAX));
    assert!(!ledger.contains(65535, u64::MAX - 1));
    assert!(!ledger.contains(0, 0));
}

#[test]
fn registry_answers_for_what_it_holds() {
    let mut registry = EmitterRegistry::new();
    assert_eq!(registry.get(2), None);
    assert!(!registry.verify(2, &EMITTER_A));
    registry.insert(ForeignEmitter { chain: 2, address: EMITTER_A });
    assert!(registry.verify(2, &EMITTER_A));
    assert!(ForeignEmitter { chain: 2, address: EMITTER_A }.verify(&EMITTER_A));
    assert!(!ForeignEmitter { chain: 2, address: EMITTER_A }.verify(&EMITTER_B));
}

#[test]
fn mint_request_is_signed_by_the_mint_authority() {
    let accounts = MintWusdv {
        user_token_account: TOKEN_ACCOUNT,
        token_mint: Mint { address: MINT, decimals: 6 },
        mint_authority_bump: 200,
    };
    let mint = mint_wusdv(&accounts, 123).unwrap();
    assert_eq!(mint.amount, 123);
    assert_eq!(mint.mint, MINT);
    assert_eq!(mint.to, TOKEN_ACCOUNT);
    assert_eq!(mint.authority_seeds, vec![b"mint_authority".to_vec(), vec![200]]);
    let mut wrong = accounts;
    wrong.token_mint.decimals = 5;
    assert_eq!(mint_wusdv(&wrong, 123).map(|_| ()), Err(CustomError::InvalidMintDecimals));
}

#[test]
fn burn_request_is_signed_by_the_user() {
    let accounts = BurnWusdv {
        user: USER,
        user_token_account: TOKEN_ACCOUNT,
        token_mint: Mint { address: MINT, decimals: 6 },
    };
    assert_eq!(
        burn_wusdv(&accounts, 55),
        Ok(Burn { mint: MINT, from: TOKEN_ACCOUNT, authority: USER, amount: 55 })
    );
    let mut wrong = accounts;
    wrong.token_mint.decimals = 7;
    assert_eq!(burn_wusdv(&wrong, 55), Err(CustomError::InvalidMintDecimals));
}

#[test]
fn seeds_are_prefix_and_bump() {
    assert_eq!(
        sent_signer_seeds(0x0102_0304_0506_0708, 9),
        vec![b"sent".to_vec(), vec![8, 7, 6, 5, 4, 3, 2, 1], vec![9]]
    );
    assert_eq!(emitter_signer_seeds(0), vec![b"emitter".to_vec(), vec![0]]);
    assert_eq!(mint_authority_signer_seeds(255), vec![b"mint_authority".to_vec(), vec![255]]);
}

#[test]
fn accounts_are_held_to_the_config() {
    let bridge = fresh();
    assert_eq!(RegisterEmitter { owner: OWNER }.check(&bridge.config), Ok(()));
    assert_eq!(
        RegisterEmitter { owner: STRANGER }.check(&bridge.config),
        Err(CustomError::OwnerOnly)
    );
    assert_eq!(SetPublicMint { owner: OWNER }.check(&bridge.config), Ok(()));
    assert_eq!(
        SetPublicMint { owner: STRANGER }.check(&bridge.config),
        Err(CustomError::OwnerOnly)
    );
    assert_eq!(send_accounts().check(&bridge.config), Ok(()));
    let mut wrong = send_accounts();
    wrong.wormhole_sequence.address = FEE_COLLECTOR;
    assert_eq!(wrong.check(&bridge.config), Err(CustomError::InvalidWormholeSequence));
}

#[test]
fn accounts_of_the_parts_are_those_of_the_whole() {
    let whole = burn_accounts();
    assert_eq!(
        whole.burn_accounts(),
        BurnWusdv { user: USER, user_token_account: TOKEN_ACCOUNT, token_mint: whole.token_mint }
    );
    assert_eq!(
        whole.send_message_accounts(),
        SendMessage {
            payer: PAYER,
            wormhole_bridge: whole.wormhole_bridge,
            wormhole_fee_collector: FEE_COLLECTOR,
            wormhole_sequence: whole.wormhole_sequence,
            wormhole_message_bump: 251,
        }
    );
    let redeeming = redeem(2, EMITTER_A, 1, Vec::new());
    assert_eq!(
        redeeming.mint_accounts(),
        MintWusdv {
            user_token_account: TOKEN_ACCOUNT,
            token_mint: redeeming.token_mint,
            mint_authority_bump: 252,
        }
    );
}

#[test]
fn accounts_are_judged_before_the_fee_is_added() {
    let bridge = fresh();
    let too_much = u64::MAX - PROCESSING_FEE + 1;

    let mut ctx = burn_accounts();
    ctx.token_mint.decimals = 9;
    ctx.wormhole_bridge.address = STRANGER;
    assert_eq!(
        burn_and_send(&bridge, &ctx, too_much, USER).map(|_| ()),
        Err(CustomError::InvalidMintDecimals)
    );
    assert_eq!(
        burn_and_send(&bridge, &ctx, u64::MAX, USER).map(|_| ()),
        Err(CustomError::InvalidMintDecimals)
    );

    let mut ctx = burn_accounts();
    ctx.wormhole_bridge.address = STRANGER;
    assert_eq!(
        burn_and_send(&bridge, &ctx, too_much, USER).map(|_| ()),
        Err(CustomError::InvalidWormholeConfig)
    );

    let mut ctx = burn_accounts();
    ctx.wormhole_fee_collector = STRANGER;
    assert_eq!(
        burn_and_send(&bridge, &ctx, too_much, USER).map(|_| ()),
        Err(CustomError::InvalidWormholeFeeCollector)
    );

    let mut ctx = burn_accounts();
    ctx.wormhole_sequence.address = STRANGER;
    assert_eq!(
        burn_and_send(&bridge, &ctx, too_much, USER).map(|_| ()),
        Err(CustomError::InvalidWormholeSequence)
    );
}

#[test]
fn with_accounts_in_order_the_fee_is_added_before_the_sequence_advances() {
    let bridge = fresh();
    let mut ctx = burn_accounts();
    ctx.wormhole_sequence.sequence = u64::MAX;
    assert_eq!(
        burn_and_send(&bridge, &ctx, u64::MAX - PROCESSING_FEE + 1, USER).map(|_| ()),
        Err(CustomError::InvalidAmount)
    );
    assert_eq!(
        burn_and_send(&bridge, &ctx, u64::MAX - PROCESSING_FEE, USER).map(|_| ()),
        Err(CustomError::InvalidWormholeSequence)
    );
}

#[test]
fn what_is_sent_as_a_hello_is_received_as_sent() {
    let bridge = fresh();
    for text in [Vec::new(), b"1000000".to_vec(), vec![0xffu8; 512]] {
        let sent = send_message(
            &send_accounts(),
            &bridge.config,
            &bridge.wormhole_emitter,
            text.clone(),
        )
        .unwrap();
        let posted = PostedVaa {
            emitter_chain: 2,
            emitter_address: EMITTER_A,
            sequence: 9,
            batch_id: sent.post.batch_id,
            payload: sent.post.payload,
        };
        let message = WormholeMessage::decode(&posted.payload).unwrap();
        assert_eq!(message, WormholeMessage::Hello { message: text.clone() });
        let mut ledger = ReplayLedger::new();
        assert_eq!(receive_message(&mut ledger, &posted, &message, HASH), Ok(()));
        assert_eq!(ledger.get(2, 9).unwrap().message, text);
    }
}

#[test]
fn a_record_keeps_exactly_the_most_it_may() {
    let mut ledger = ReplayLedger::new();
    let posted = PostedVaa {
        emitter_chain: 2,
        emitter_address: EMITTER_A,
        sequence: 1,
        batch_id: 0,
        payload: Vec::new(),
    };
    let text: Vec<u8> = (0..1024).map(|i| (i % 256) as u8).collect();
    let message = WormholeMessage::Hello { message: text.clone() };
    assert_eq!(receive_message(&mut ledger, &posted, &message, HASH), Ok(()));
    let kept = ledger.get(2, 1).unwrap();
    assert_eq!(kept.message.len(), 1024);
    assert_eq!(kept.message, text);
}
