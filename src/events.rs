//! The event extractor: one record per log of the tracked contract that is an
//! instance of a known event and whose payload decodes.

use vstd::prelude::*;
use vstd::array::array_as_slice;
use crate::abi::{Param, Value, ValueView, param_at, kept, params_at, values_view, param_value, decode_params};
use crate::block::{Block, BlockTime, Log, Transaction, opt_seq};
use crate::bytes::{hex_of, hex_string, bytes_equal};
use crate::catalog::{EventKind, EVENT_KIND_COUNT, TRACKED_CONTRACT, event_topic, event_topic_params, event_data_params, event_index, event_kind_at, lemma_event_kind_at_index};

verus! {

/// A decoded log.
#[derive(Clone, Debug, PartialEq, Eq)]
pub struct EventRecord {
    /// The transaction's hash in lower-case hex.
    pub tx_hash: String,
    /// The log's position within the block.
    pub index: u32,
    pub block_time: BlockTime,
    pub block_number: u64,
    /// The indexed parameters, then those of the data, in declaration order.
    pub fields: Vec<Value>,
}

pub struct EventRecordView {
    pub tx_hash: Seq<char>,
    pub index: u32,
    pub block_time: BlockTime,
    pub block_number: u64,
    pub fields: Seq<ValueView>,
}

impl View for EventRecord {
    type V = EventRecordView;

    open spec fn view(&self) -> EventRecordView {
        EventRecordView {
            tx_hash: self.tx_hash@,
            index: self.index,
            block_time: self.block_time,
            block_number: self.block_number,
            fields: values_view(self.fields@),
        }
    }
}

pub open spec fn event_records_view(rs: Seq<EventRecord>) -> Seq<EventRecordView> {
    rs.map_values(|r: EventRecord| r@)
}

/// The fields that the indexed parameters `tp` decode to, each from its own
/// topic (the first topic is the kind's, so parameter `i` reads topic `i + 1`).
pub open spec fn topic_fields(tp: Seq<Param>, topics: Seq<Vec<u8>>) -> Option<Seq<ValueView>>
    decreases tp.len(),
{
    if tp.len() == 0 {
        Some(seq![])
    } else {
        match topic_fields(tp.drop_last(), topics) {
            Some(vs) => match param_at(tp.last(), topics[tp.len() as int]@, 0) {
                Some(o) => Some(vs + kept(o)),
                None => None,
            },
            None => None,
        }
    }
}

/// Whether `log` is an instance of `k`: its first topic is the kind's.
pub open spec fn log_matches(k: EventKind, log: Log) -> bool {
    log.topics@.len() >= 1 && log.topics@[0]@ == event_topic(k)
}

/// The fields of `log` read as an instance of `k`: it has one topic per
/// indexed parameter besides the first, data of exactly the size of the
/// other parameters, and each of them reads.
pub open spec fn event_fields(k: EventKind, log: Log) -> Option<Seq<ValueView>> {
    let tp = event_topic_params(k);
    let dp = event_data_params(k);
    if log.topics@.len() == tp.len() + 1 && log.data@.len() == 32 * dp.len() {
        match topic_fields(tp, log.topics@) {
            Some(a) => match params_at(dp, log.data@) {
                Some(b) => Some(a + b),
                None => None,
            },
            None => None,
        }
    } else {
        None
    }
}

/// The record that `log`, of the transaction with hash `hash`, gives for `k`.
pub open spec fn log_record(k: EventKind, blk: Block, hash: Seq<u8>, log: Log) -> Option<EventRecordView> {
    if log.address@ == TRACKED_CONTRACT@ && log_matches(k, log) {
        match event_fields(k, log) {
            Some(f) => Some(EventRecordView {
                tx_hash: hex_of(hash),
                index: log.block_index,
                block_time: blk.time,
                block_number: blk.number,
                fields: f,
            }),
            None => None,
        }
    } else {
        None
    }
}

/// The records that `logs` give for `k`, in order.
pub open spec fn logs_records(k: EventKind, blk: Block, hash: Seq<u8>, logs: Seq<Log>) -> Seq<EventRecordView>
    decreases logs.len(),
{
    if logs.len() == 0 {
        seq![]
    } else {
        logs_records(k, blk, hash, logs.drop_last()) + opt_seq(log_record(k, blk, hash, logs.last()))
    }
}

/// The records that the successful transactions among `txs` give for `k`:
/// transaction order, then log order.
pub open spec fn txs_event_records(k: EventKind, blk: Block, txs: Seq<Transaction>) -> Seq<EventRecordView>
    decreases txs.len(),
{
    if txs.len() == 0 {
        seq![]
    } else {
        let tx = txs.last();
        txs_event_records(k, blk, txs.drop_last()) + if tx.succeeded {
            logs_records(k, blk, tx.hash@, tx.logs@)
        } else {
            seq![]
        }
    }
}

/// The collection of `k` for the block.
pub open spec fn event_records(k: EventKind, blk: Block) -> Seq<EventRecordView> {
    txs_event_records(k, blk, blk.transactions@)
}

/// Whether `log` is an instance of `k`.
pub fn match_log(k: EventKind, log: &Log) -> (r: bool)
    ensures
        r == log_matches(k, *log),
{
    if log.topics.len() == 0 {
        return false;
    }
    let topic = k.topic();
    bytes_equal(log.topics[0].as_slice(), array_as_slice(&topic))
}

proof fn lemma_topics_fail_extends(tp: Seq<Param>, topics: Seq<Vec<u8>>, n: nat)
    requires
        n <= tp.len(),
        topic_fields(tp.subrange(0, n as int), topics) is None,
    ensures
        topic_fields(tp, topics) is None,
    decreases tp.len() - n,
{
    if n < tp.len() {
        assert(tp.subrange(0, n + 1 as int).drop_last() =~= tp.subrange(0, n as int));
        lemma_topics_fail_extends(tp, topics, n + 1);
    } else {
        assert(tp.subrange(0, n as int) =~= tp);
    }
}

fn decode_topics(tp: &Vec<Param>, topics: &Vec<Vec<u8>>) -> (r: Option<Vec<Value>>)
    requires
        topics@.len() == tp@.len() + 1,
    ensures
        r.is_some() == topic_fields(tp@, topics@).is_some(),
        r.is_some() ==> values_view(r.unwrap()@) == topic_fields(tp@, topics@).unwrap(),
{
    let mut out: Vec<Value> = Vec::new();
    let mut i: usize = 0;
    while i < tp.len()
        invariant
            topics@.len() == tp@.len() + 1,
            0 <= i <= tp@.len(),
            topic_fields(tp@.subrange(0, i as int), topics@).is_some(),
            values_view(out@) == topic_fields(tp@.subrange(0, i as int), topics@).unwrap(),
        decreases tp@.len() - i,
    {
        let ghost pre = tp@.subrange(0, i as int);
        let ghost cur = tp@.subrange(0, i + 1);
        assert(cur.drop_last() =~= pre);
        assert(cur.len() == i + 1);
        match param_value(tp[i], topics[i + 1].as_slice(), 0) {
            Some(Some(v)) => {
                out.push(v);
                assert(values_view(out@) =~= topic_fields(cur, topics@).unwrap());
            },
            Some(None) => {
                assert(values_view(out@) =~= topic_fields(cur, topics@).unwrap());
            },
            None => {
                proof { lemma_topics_fail_extends(tp@, topics@, (i + 1) as nat); }
                return None;
            },
        }
        i = i + 1;
    }
    assert(tp@.subrange(0, tp@.len() as int) =~= tp@);
    Some(out)
}

/// Reads the fields of `log` as an instance of `k`.
pub fn decode_event(k: EventKind, log: &Log) -> (r: Option<Vec<Value>>)
    ensures
        r.is_some() == event_fields(k, *log).is_some(),
        r.is_some() ==> values_view(r.unwrap()@) == event_fields(k, *log).unwrap(),
{
    let tp = k.topic_params();
    let dp = k.data_params();
    if log.topics.len() != tp.len() + 1 || log.data.len() / 32 != dp.len() || log.data.len() % 32 != 0 {
        return None;
    }
    let a = match decode_topics(&tp, &log.topics) {
        Some(a) => a,
        None => return None,
    };
    let b = match decode_params(dp.as_slice(), log.data.as_slice()) {
        Some(b) => b,
        None => return None,
    };
    let mut out = a;
    let mut rest = b;
    let ghost va = values_view(out@);
    let ghost vb = values_view(rest@);
    out.append(&mut rest);
    assert(values_view(out@) =~= va + vb);
    Some(out)
}

/// The records of kind `k` in `blk`: for each successful transaction in block
/// order, for each log of its receipt in order, one record where the log was
/// emitted by the tracked contract, is an instance of `k`, and decodes.
pub fn extract_events(blk: &Block, k: EventKind) -> (r: Vec<EventRecord>)
    ensures
        event_records_view(r@) == event_records(k, *blk),
{
    let mut out: Vec<EventRecord> = Vec::new();
    let mut t: usize = 0;
    while t < blk.transactions.len()
        invariant
            0 <= t <= blk.transactions@.len(),
            event_records_view(out@) == txs_event_records(k, *blk, blk.transactions@.subrange(0, t as int)),
        decreases blk.transactions@.len() - t,
    {
        let tx = &blk.transactions[t];
        let ghost before = event_records_view(out@);
        let ghost txs = blk.transactions@.subrange(0, t + 1);
        assert(txs.drop_last() =~= blk.transactions@.subrange(0, t as int));
        assert(txs.last() == *tx);
        if tx.succeeded {
            let mut l: usize = 0;
            while l < tx.logs.len()
                invariant
                    0 <= l <= tx.logs@.len(),
                    event_records_view(out@) == before + logs_records(k, *blk, tx.hash@, tx.logs@.subrange(0, l as int)),
                decreases tx.logs@.len() - l,
            {
                let log = &tx.logs[l];
                let ghost logs = tx.logs@.subrange(0, l + 1);
                assert(logs.drop_last() =~= tx.logs@.subrange(0, l as int));
                assert(logs.last() == *log);
                let ghost prev = event_records_view(out@);
                if bytes_equal(log.address.as_slice(), array_as_slice(&TRACKED_CONTRACT)) && match_log(k, log) {
                    match decode_event(k, log) {
                        Some(fields) => {
                            let rec = EventRecord {
                                tx_hash: hex_string(tx.hash.as_slice()),
                                index: log.block_index,
                                block_time: blk.time,
                                block_number: blk.number,
                                fields,
                            };
                            out.push(rec);
                            assert(event_records_view(out@) =~= prev + seq![rec@]);
                        },
                        None => {},
                    }
                }
                assert(event_records_view(out@) =~= before + logs_records(k, *blk, tx.hash@, logs));
                l = l + 1;
            }
            assert(tx.logs@.subrange(0, tx.logs@.len() as int) =~= tx.logs@);
        }
        assert(event_records_view(out@) =~= txs_event_records(k, *blk, txs));
        t = t + 1;
    }
    assert(blk.transactions@.subrange(0, blk.transactions@.len() as int) =~= blk.transactions@);
    out
}

/// The event collections of one block, one per kind, at the kind's position.
#[derive(Clone, Debug, PartialEq, Eq)]
pub struct Events {
    pub by_kind: Vec<Vec<EventRecord>>,
}

/// The collections that `e` holds.
pub open spec fn events_view(e: Events) -> Seq<Seq<EventRecordView>> {
    e.by_kind@.map_values(|c: Vec<EventRecord>| event_records_view(c@))
}

/// All event collections of `blk`, by position.
pub open spec fn events_of(blk: Block) -> Seq<Seq<EventRecordView>> {
    Seq::new(EVENT_KIND_COUNT as nat, |i: int| event_records(event_kind_at(i), blk))
}

impl Events {
    /// The collection of kind `k`.
    pub fn records(&self, k: EventKind) -> (r: &Vec<EventRecord>)
        requires
            self.by_kind@.len() == EVENT_KIND_COUNT,
        ensures
            *r == self.by_kind@[event_index(k)],
    {
        &self.by_kind[k.index()]
    }
}

/// Decodes every known event of the tracked contract in `blk`.
pub fn map_events(blk: &Block) -> (r: Events)
    ensures
        events_view(r) == events_of(*blk),
        r.by_kind@.len() == EVENT_KIND_COUNT,
{
    let mut by_kind: Vec<Vec<EventRecord>> = Vec::new();
    let mut i: usize = 0;
    while i < EVENT_KIND_COUNT
        invariant
            0 <= i <= EVENT_KIND_COUNT,
            by_kind@.len() == i,
            forall|j: int| 0 <= j < i ==> event_records_view(#[trigger] by_kind@[j]@) == event_records(event_kind_at(j), *blk),
        decreases EVENT_KIND_COUNT - i,
    {
        let k = EventKind::at(i);
        by_kind.push(extract_events(blk, k));
        i = i + 1;
    }
    let r = Events { by_kind };
    assert(events_view(r) =~= events_of(*blk));
    r
}

/// The collection at a kind's position is that kind's.
pub proof fn lemma_events_of_kind(blk: Block, k: EventKind)
    ensures
        events_of(blk)[event_index(k)] == event_records(k, blk),
{
    lemma_event_kind_at_index(k);
}

} // verus!
