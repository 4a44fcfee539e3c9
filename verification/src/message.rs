//! The messages that the bridge exchanges with its counterparts, and their
//! wire format.
//!
//! Every message starts with one byte that tells its kind:
//!
//! | kind  | first byte | rest                                                   |
//! |-------|------------|--------------------------------------------------------|
//! | alive | 0          | 32 bytes: the id of the program that came alive        |
//! | hello | 1          | length as 2 little-endian bytes, then that many bytes  |
//! | burn  | 2          | amount as 8 little-endian bytes, then 32 bytes         |
//!
//! A message is exactly as long as its kind says: nothing may follow it.

use vstd::prelude::*;
use crate::error::CustomError;
use crate::state::BurnPayload;
use crate::wire::{
    borsh_read_u16, borsh_read_u64, borsh_write_u16, le_bytes, le_value, lemma_le_bytes_len,
    lemma_le_bytes_of_value, lemma_le_value_of_bytes, lemma_radix_pow_values, read_address,
};

verus! {

/// First byte of an alive message.
pub const PAYLOAD_ID_ALIVE: u8 = 0;

/// First byte of a hello message.
pub const PAYLOAD_ID_HELLO: u8 = 1;

/// First byte of a burn notice.
pub const PAYLOAD_ID_BURN: u8 = 2;

/// The most bytes that a hello message may carry.
pub const HELLO_MESSAGE_MAX_LENGTH: usize = 512;

/// A message of the bridge.
#[derive(Debug, PartialEq, Eq)]
pub enum WormholeMessage {
    /// Sent once, when the program is initialized.
    Alive { program_id: [u8; 32] },
    /// Free-form bytes; an incoming hello carries a token amount in decimal.
    Hello { message: Vec<u8> },
    /// Tokens were burnt on this chain.
    Burn { payload: BurnPayload },
}

/// A message as a mathematical value.
pub enum MessageView {
    Alive { program_id: Seq<u8> },
    Hello { message: Seq<u8> },
    Burn { amount: u64, recipient: Seq<u8> },
}

impl View for WormholeMessage {
    type V = MessageView;

    open spec fn view(&self) -> MessageView {
        match *self {
            WormholeMessage::Alive { program_id } => MessageView::Alive { program_id: program_id@ },
            WormholeMessage::Hello { message } => MessageView::Hello { message: message@ },
            WormholeMessage::Burn { payload } => MessageView::Burn {
                amount: payload.amount,
                recipient: payload.recipient@,
            },
        }
    }
}

impl MessageView {
    /// Whether the message can be written: ids and addresses have 32 bytes,
    /// and a hello carries no more than [`HELLO_MESSAGE_MAX_LENGTH`] bytes.
    pub open spec fn wf(self) -> bool {
        match self {
            MessageView::Alive { program_id } => program_id.len() == 32,
            MessageView::Hello { message } => message.len() <= HELLO_MESSAGE_MAX_LENGTH,
            MessageView::Burn { amount, recipient } => recipient.len() == 32,
        }
    }

    /// The bytes of the message on the wire.
    pub open spec fn encoded(self) -> Seq<u8> {
        match self {
            MessageView::Alive { program_id } => seq![PAYLOAD_ID_ALIVE] + program_id,
            MessageView::Hello { message } => seq![PAYLOAD_ID_HELLO] + le_bytes(message.len(), 2)
                + message,
            MessageView::Burn { amount, recipient } => seq![PAYLOAD_ID_BURN] + le_bytes(
                amount as nat,
                8,
            ) + recipient,
        }
    }
}

/// The message that `bytes` hold, if they hold one: the first byte must name
/// a kind, and the rest must have exactly the shape of that kind.
pub open spec fn decoded(bytes: Seq<u8>) -> Option<MessageView> {
    if bytes.len() == 0 {
        None
    } else if bytes[0] == PAYLOAD_ID_ALIVE {
        if bytes.len() == 33 {
            Some(MessageView::Alive { program_id: bytes.subrange(1, 33) })
        } else {
            None
        }
    } else if bytes[0] == PAYLOAD_ID_HELLO {
        if bytes.len() >= 3 && le_value(bytes.subrange(1, 3)) <= HELLO_MESSAGE_MAX_LENGTH
            && bytes.len() == 3 + le_value(bytes.subrange(1, 3)) {
            Some(MessageView::Hello { message: bytes.subrange(3, bytes.len() as int) })
        } else {
            None
        }
    } else if bytes[0] == PAYLOAD_ID_BURN {
        if bytes.len() == 41 {
            Some(
                MessageView::Burn {
                    amount: le_value(bytes.subrange(1, 9)) as u64,
                    recipient: bytes.subrange(9, 41),
                },
            )
        } else {
            None
        }
    } else {
        None
    }
}

/// How long a message is on the wire.
pub proof fn lemma_encoded_length(message: MessageView)
    requires
        message.wf(),
    ensures
        message matches MessageView::Alive { .. } ==> message.encoded().len() == 33,
        message matches MessageView::Hello { message: text } ==> message.encoded().len() == 3
            + text.len(),
        message matches MessageView::Burn { .. } ==> message.encoded().len() == 41,
{
    match message {
        MessageView::Alive { program_id } => {},
        MessageView::Hello { message: text } => {
            lemma_le_bytes_len(text.len(), 2);
        },
        MessageView::Burn { amount, recipient } => {
            lemma_le_bytes_len(amount as nat, 8);
        },
    }
}

/// Reading what was written gives the message back.
pub proof fn lemma_decode_encode(message: MessageView)
    requires
        message.wf(),
    ensures
        decoded(message.encoded()) == Some(message),
{
    let bytes = message.encoded();
    lemma_radix_pow_values();
    match message {
        MessageView::Alive { program_id } => {
            assert(bytes.subrange(1, 33) =~= program_id);
        },
        MessageView::Hello { message: text } => {
            lemma_le_bytes_len(text.len(), 2);
            lemma_le_value_of_bytes(text.len(), 2);
            assert(bytes.subrange(1, 3) =~= le_bytes(text.len(), 2));
            assert(bytes.subrange(3, bytes.len() as int) =~= text);
        },
        MessageView::Burn { amount, recipient } => {
            lemma_le_bytes_len(amount as nat, 8);
            lemma_le_value_of_bytes(amount as nat, 8);
            assert(bytes.subrange(1, 9) =~= le_bytes(amount as nat, 8));
            assert(bytes.subrange(9, 41) =~= recipient);
        },
    }
}

/// What was read is well formed, and writing it gives the bytes back: no two
/// byte strings stand for the same message.
pub proof fn lemma_encode_decode(bytes: Seq<u8>)
    requires
        decoded(bytes) is Some,
    ensures
        decoded(bytes).unwrap().wf(),
        decoded(bytes).unwrap().encoded() == bytes,
{
    let message = decoded(bytes).unwrap();
    lemma_radix_pow_values();
    match message {
        MessageView::Alive { program_id } => {
            assert(message.encoded() =~= bytes);
        },
        MessageView::Hello { message: text } => {
            lemma_le_bytes_of_value(bytes.subrange(1, 3));
            assert(message.encoded() =~= bytes);
        },
        MessageView::Burn { amount, recipient } => {
            lemma_le_bytes_of_value(bytes.subrange(1, 9));
            assert(message.encoded() =~= bytes);
        },
    }
}

/// A message that lost its end is refused.
pub proof fn lemma_truncated_is_refused(message: MessageView, kept: int)
    requires
        message.wf(),
        0 <= kept < message.encoded().len(),
    ensures
        decoded(message.encoded().take(kept)) is None,
{
    let bytes = message.encoded();
    let cut = bytes.take(kept);
    lemma_decode_encode(message);
    lemma_radix_pow_values();
    if kept > 0 {
        assert(cut[0] == bytes[0]);
        match message {
            MessageView::Alive { program_id } => {},
            MessageView::Hello { message: text } => {
                lemma_le_bytes_len(text.len(), 2);
                if kept >= 3 {
                    assert(cut.subrange(1, 3) =~= bytes.subrange(1, 3));
                }
            },
            MessageView::Burn { amount, recipient } => {
                lemma_le_bytes_len(amount as nat, 8);
            },
        }
    }
}

/// A message with anything after it is refused.
pub proof fn lemma_extended_is_refused(message: MessageView, extra: Seq<u8>)
    requires
        message.wf(),
        extra.len() > 0,
    ensures
        decoded(message.encoded() + extra) is None,
{
    let bytes = message.encoded();
    let long = bytes + extra;
    lemma_decode_encode(message);
    lemma_radix_pow_values();
    assert(long[0] == bytes[0]);
    match message {
        MessageView::Alive { program_id } => {},
        MessageView::Hello { message: text } => {
            lemma_le_bytes_len(text.len(), 2);
            assert(long.subrange(1, 3) =~= bytes.subrange(1, 3));
        },
        MessageView::Burn { amount, recipient } => {
            lemma_le_bytes_len(amount as nat, 8);
        },
    }
}

impl WormholeMessage {
    /// Writes the message in the wire format. Only a hello that carries more
    /// than [`HELLO_MESSAGE_MAX_LENGTH`] bytes cannot be written; it is
    /// refused as [`CustomError::InvalidMessage`].
    pub fn encode(&self) -> (out: Result<Vec<u8>, CustomError>)
        ensures
            out is Ok <==> self@.wf(),
            out is Ok ==> out->Ok_0@ == self@.encoded(),
            out is Err ==> out->Err_0 == CustomError::InvalidMessage,
    {
        let mut out: Vec<u8> = Vec::new();
        match self {
            WormholeMessage::Alive { program_id } => {
                out.push(PAYLOAD_ID_ALIVE);
                out.extend_from_slice(program_id);
            },
            WormholeMessage::Hello { message } => {
                if message.len() > HELLO_MESSAGE_MAX_LENGTH {
                    return Err(CustomError::InvalidMessage);
                }
                let length = match borsh_write_u16(message.len() as u16) {
                    Some(length) => length,
                    None => {
                        return Err(CustomError::InvalidMessage);
                    },
                };
                proof {
                    lemma_le_bytes_len(message@.len(), 2);
                }
                out.push(PAYLOAD_ID_HELLO);
                out.extend_from_slice(length.as_slice());
                out.extend_from_slice(message.as_slice());
            },
            WormholeMessage::Burn { payload } => {
                let body = match payload.encode() {
                    Ok(body) => body,
                    Err(e) => {
                        return Err(e);
                    },
                };
                out.push(PAYLOAD_ID_BURN);
                out.extend_from_slice(body.as_slice());
            },
        }
        assert(out@ =~= self@.encoded());
        Ok(out)
    }

    /// Reads a message from its wire format. Bytes that hold no message are
    /// refused as [`CustomError::InvalidMessage`]: an unknown kind, a
    /// length that does not fit the kind, a hello that announces more than
    /// [`HELLO_MESSAGE_MAX_LENGTH`] bytes.
    pub fn decode(bytes: &[u8]) -> (out: Result<WormholeMessage, CustomError>)
        ensures
            out is Ok <==> decoded(bytes@) is Some,
            out is Ok ==> Some(out->Ok_0@) == decoded(bytes@),
            out is Err ==> out->Err_0 == CustomError::InvalidMessage,
    {
        let len = bytes.len();
        if len == 0 {
            return Err(CustomError::InvalidMessage);
        }
        let kind = bytes[0];
        if kind == PAYLOAD_ID_ALIVE {
            if len != 33 {
                return Err(CustomError::InvalidMessage);
            }
            Ok(WormholeMessage::Alive { program_id: read_address(bytes, 1) })
        } else if kind == PAYLOAD_ID_HELLO {
            if len < 3 {
                return Err(CustomError::InvalidMessage);
            }
            let announced = match borsh_read_u16(vstd::slice::slice_subrange(bytes, 1, 3)) {
                Some(announced) => announced as usize,
                None => {
                    return Err(CustomError::InvalidMessage);
                },
            };
            proof {
                lemma_le_bytes_of_value(bytes@.subrange(1, 3));
                lemma_radix_pow_values();
            }
            if announced > HELLO_MESSAGE_MAX_LENGTH || len - 3 != announced {
                return Err(CustomError::InvalidMessage);
            }
            let message = vstd::slice::slice_to_vec(vstd::slice::slice_subrange(bytes, 3, len));
            Ok(WormholeMessage::Hello { message })
        } else if kind == PAYLOAD_ID_BURN {
            if len != 41 {
                return Err(CustomError::InvalidMessage);
            }
            let amount = match borsh_read_u64(vstd::slice::slice_subrange(bytes, 1, 9)) {
                Some(amount) => amount,
                None => {
                    return Err(CustomError::InvalidMessage);
                },
            };
            proof {
                lemma_le_bytes_of_value(bytes@.subrange(1, 9));
                lemma_radix_pow_values();
            }
            let recipient = read_address(bytes, 9);
            Ok(WormholeMessage::Burn { payload: BurnPayload { amount, recipient } })
        } else {
            Err(CustomError::InvalidMessage)
        }
    }
}

} // verus!
