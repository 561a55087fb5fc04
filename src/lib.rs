//! Decoding of the Polymarket CTF exchange contract's logs and calls out of
//! an Ethereum block, into one ordered collection of records per event kind
//! and per function kind.
//!
//! Each collection is a function of the block alone: for each successful
//! transaction in block order, for each of its logs (or calls) in order, one
//! record where the entry belongs to the tracked contract, is an instance of
//! the kind, and its payload decodes. An entry that does not decode is left
//! out; a call whose result does not decode keeps its record, with a zero
//! result.

use vstd::prelude::*;

pub mod abi;
pub mod block;
pub mod bytes;
pub mod calls;
pub mod catalog;
pub mod events;
pub mod pipeline;

pub use abi::{Param, Value};
pub use block::{Block, BlockTime, Call, Log, Transaction};
pub use calls::{CallRecord, Calls, decode_bytes4, decode_call, extract_calls, map_calls, match_call};
pub use catalog::{CallKind, EventKind, CALL_KIND_COUNT, EVENT_KIND_COUNT, TRACKED_CONTRACT};
pub use events::{EventRecord, Events, decode_event, extract_events, map_events, match_log};
pub use pipeline::{EventsCalls, map_block, map_events_calls};
