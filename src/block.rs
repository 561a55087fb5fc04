//! The block as the extractors read it: transactions in block order, each with
//! its calls and its receipt's logs in order.

use vstd::prelude::*;

verus! {

/// The block's timestamp.
#[derive(Clone, Copy, Debug, PartialEq, Eq, Structural)]
pub struct BlockTime {
    pub seconds: i64,
    pub nanos: i32,
}

/// A log entry of a receipt.
#[derive(Clone, Debug, PartialEq, Eq)]
pub struct Log {
    /// The emitting contract.
    pub address: Vec<u8>,
    /// The topic words; the first names the event.
    pub topics: Vec<Vec<u8>>,
    pub data: Vec<u8>,
    /// The log's position within the block.
    pub block_index: u32,
}

/// A call of a transaction's trace.
#[derive(Clone, Debug, PartialEq, Eq)]
pub struct Call {
    /// The called contract.
    pub address: Vec<u8>,
    /// The input; its first four bytes name the function.
    pub input: Vec<u8>,
    pub return_data: Vec<u8>,
    /// Whether the call's effects were rolled back.
    pub state_reverted: bool,
    /// The call's start ordinal within the block.
    pub begin_ordinal: u64,
}

/// A transaction with its calls and its receipt's logs.
#[derive(Clone, Debug, PartialEq, Eq)]
pub struct Transaction {
    pub hash: Vec<u8>,
    /// Whether the transaction succeeded; only those that did are read.
    pub succeeded: bool,
    pub calls: Vec<Call>,
    pub logs: Vec<Log>,
}

#[derive(Clone, Debug, PartialEq, Eq)]
pub struct Block {
    pub number: u64,
    pub time: BlockTime,
    pub transactions: Vec<Transaction>,
}

/// The sequence holding `o`'s value, if it has one.
pub open spec fn opt_seq<T>(o: Option<T>) -> Seq<T> {
    match o {
        Some(v) => seq![v],
        None => seq![],
    }
}

} // verus!
