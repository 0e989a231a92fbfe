//! What the check manager hands to the block-reading checkers: the parts of
//! a fetched block that the checks read, as plain values.

use vstd::prelude::*;

verus! {

/// One commit signature: the raw address bytes of the validator that
/// signed.
#[derive(Clone, Debug)]
pub struct SignatureData {
    pub validator_address: Vec<u8>,
}

/// A block's last-commit: one entry per validator signature.
#[derive(Clone, Debug)]
pub struct CommitData {
    pub signatures: Vec<SignatureData>,
}

/// A block's transaction payloads, each an opaque byte buffer.
#[derive(Clone, Debug)]
pub struct TxData {
    pub txs: Vec<Vec<u8>>,
}

/// The payload of one fetched block.
#[derive(Clone, Debug)]
pub struct BlockData {
    /// The header's height; the chain always sends a header.
    pub height: i64,
    pub last_commit: Option<CommitData>,
    pub data: Option<TxData>,
}

/// A block as dispatched to the per-height checkers; `block` is absent when
/// the chain answered without one.
#[derive(Clone, Debug)]
pub struct BlockMessage {
    pub block: Option<BlockData>,
}

/// One message of a decoded transaction body: its protobuf type tag.
#[derive(Clone, Debug)]
pub struct TxMessageAny {
    pub type_url: String,
}

/// A decoded transaction envelope: the messages of its body, in order.
#[derive(Clone, Debug)]
pub struct TxBody {
    pub messages: Vec<TxMessageAny>,
}

/// One key/value attribute of an execution-log event.
#[derive(Clone, Debug)]
pub struct TxAttribute {
    pub key: String,
    pub value: String,
}

/// One event of an execution-log entry, tagged with its kind.
#[derive(Clone, Debug)]
pub struct TxEvent {
    pub event_type: String,
    pub attributes: Vec<TxAttribute>,
}

/// One entry of a transaction's execution logs, tied to the message it
/// belongs to by position.
#[derive(Clone, Debug)]
pub struct TxLog {
    pub msg_index: u32,
    pub events: Vec<TxEvent>,
}

} // verus!
