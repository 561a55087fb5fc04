//! The three entry points over a block: its events, its calls, or both.

use vstd::prelude::*;
use crate::abi::ValueView;
use crate::block::{Block, Call};
use crate::calls::{Calls, CallRecordView, calls_view, calls_of, map_calls, call_record, call_matches, call_fields};
use crate::catalog::{CallKind, TRACKED_CONTRACT, call_has_output};
use crate::events::{Events, EventRecordView, events_view, events_of, map_events};

verus! {

/// The event and call collections of one block.
#[derive(Clone, Debug, PartialEq, Eq)]
pub struct EventsCalls {
    pub events: Events,
    pub calls: Calls,
}

/// Both collections of `o`.
pub open spec fn output_view(o: EventsCalls) -> (Seq<Seq<EventRecordView>>, Seq<Seq<CallRecordView>>) {
    (events_view(o.events), calls_view(o.calls))
}

/// Both collections of `blk`.
pub open spec fn output_of(blk: Block) -> (Seq<Seq<EventRecordView>>, Seq<Seq<CallRecordView>>) {
    (events_of(blk), calls_of(blk))
}

/// Puts the two sets of collections of one block side by side, unchanged.
pub fn map_events_calls(events: Events, calls: Calls) -> (r: EventsCalls)
    ensures
        r.events == events,
        r.calls == calls,
{
    EventsCalls { events, calls }
}

/// Decodes both the events and the calls of `blk`.
pub fn map_block(blk: &Block) -> (r: EventsCalls)
    ensures
        output_view(r) == output_of(*blk),
{
    let events = map_events(blk);
    let calls = map_calls(blk);
    map_events_calls(events, calls)
}

/// Running the pipeline twice on one block gives the same collections: each
/// output is a function of the block alone.
pub proof fn lemma_pipeline_idempotent(blk: Block, first: EventsCalls, second: EventsCalls)
    requires
        output_view(first) == output_of(blk),
        output_view(second) == output_of(blk),
    ensures
        output_view(first) == output_view(second),
        events_view(first.events) == events_view(second.events),
        calls_view(first.calls) == calls_view(second.calls),
{
}

/// A call record's success flag is the negation of the call's revert flag,
/// whatever the call returned.
pub proof fn lemma_success_is_not_reverted(k: CallKind, blk: Block, hash: Seq<u8>, c: Call, ret: Vec<u8>)
    requires
        call_record(k, blk, hash, c) is Some,
    ensures
        call_record(k, blk, hash, c).unwrap().success == !c.state_reverted,
        call_record(k, blk, hash, (Call { return_data: ret, ..c })) is Some,
        call_record(k, blk, hash, (Call { return_data: ret, ..c })).unwrap().success == !c.state_reverted,
{
}

/// A call of a function whose result is decoded still gives its record where
/// the returned bytes are absent or too short, with four zero bytes as result.
pub proof fn lemma_short_output_defaults(k: CallKind, blk: Block, hash: Seq<u8>, c: Call)
    requires
        call_has_output(k),
        c.address@ == TRACKED_CONTRACT@,
        call_matches(k, c),
        call_fields(k, c) is Some,
        c.return_data@.len() < 4,
    ensures
        call_record(k, blk, hash, c) is Some,
        call_record(k, blk, hash, c).unwrap().outputs == seq![ValueView::Bytes(seq![0u8, 0u8, 0u8, 0u8])],
{
}

} // verus!
