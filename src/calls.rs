//! The call extractor: one record per call to the tracked contract that is an
//! instance of a known function and whose input decodes.

use vstd::prelude::*;
use vstd::array::array_as_slice;
use vstd::slice::{slice_subrange, slice_to_vec};
use crate::abi::{Value, ValueView, params_at, values_view, decode_params};
use crate::block::{Block, BlockTime, Call, Transaction, opt_seq};
use crate::bytes::{hex_of, hex_string, bytes_equal};
use crate::catalog::{CallKind, CALL_KIND_COUNT, TRACKED_CONTRACT, call_selector, call_params, call_has_output, call_index, call_kind_at, lemma_call_kind_at_index};

verus! {

/// A decoded call.
#[derive(Clone, Debug, PartialEq, Eq)]
pub struct CallRecord {
    /// The transaction's hash in lower-case hex.
    pub tx_hash: String,
    pub block_time: BlockTime,
    pub block_number: u64,
    /// The call's start ordinal within the block.
    pub ordinal: u64,
    /// Whether the call was not reverted.
    pub success: bool,
    /// The input parameters that are kept, in declaration order.
    pub fields: Vec<Value>,
    /// The decoded result, for the functions whose result is decoded.
    pub outputs: Vec<Value>,
}

pub struct CallRecordView {
    pub tx_hash: Seq<char>,
    pub block_time: BlockTime,
    pub block_number: u64,
    pub ordinal: u64,
    pub success: bool,
    pub fields: Seq<ValueView>,
    pub outputs: Seq<ValueView>,
}

impl View for CallRecord {
    type V = CallRecordView;

    open spec fn view(&self) -> CallRecordView {
        CallRecordView {
            tx_hash: self.tx_hash@,
            block_time: self.block_time,
            block_number: self.block_number,
            ordinal: self.ordinal,
            success: self.success,
            fields: values_view(self.fields@),
            outputs: values_view(self.outputs@),
        }
    }
}

pub open spec fn call_records_view(rs: Seq<CallRecord>) -> Seq<CallRecordView> {
    rs.map_values(|r: CallRecord| r@)
}

/// Whether `c` is an instance of `k`: its input starts with the kind's selector.
pub open spec fn call_matches(k: CallKind, c: Call) -> bool {
    c.input@.len() >= 4 && c.input@.subrange(0, 4) == call_selector(k)
}

/// The input fields of `c` read as an instance of `k`.
pub open spec fn call_fields(k: CallKind, c: Call) -> Option<Seq<ValueView>> {
    if c.input@.len() >= 4 {
        params_at(call_params(k), c.input@.subrange(4, c.input@.len() as int))
    } else {
        None
    }
}

/// The `bytes4` that `ret` returns: its first four bytes, or four zero bytes
/// where it is shorter.
pub open spec fn returned_bytes4(ret: Seq<u8>) -> Seq<u8> {
    if ret.len() >= 4 {
        ret.subrange(0, 4)
    } else {
        seq![0u8, 0u8, 0u8, 0u8]
    }
}

/// The decoded result of `c` as an instance of `k`.
pub open spec fn call_outputs(k: CallKind, c: Call) -> Seq<ValueView> {
    if call_has_output(k) {
        seq![ValueView::Bytes(returned_bytes4(c.return_data@))]
    } else {
        seq![]
    }
}

/// The record that `c`, of the transaction with hash `hash`, gives for `k`.
pub open spec fn call_record(k: CallKind, blk: Block, hash: Seq<u8>, c: Call) -> Option<CallRecordView> {
    if c.address@ == TRACKED_CONTRACT@ && call_matches(k, c) {
        match call_fields(k, c) {
            Some(f) => Some(CallRecordView {
                tx_hash: hex_of(hash),
                block_time: blk.time,
                block_number: blk.number,
                ordinal: c.begin_ordinal,
                success: !c.state_reverted,
                fields: f,
                outputs: call_outputs(k, c),
            }),
            None => None,
        }
    } else {
        None
    }
}

/// The records that `calls` give for `k`, in order.
pub open spec fn calls_records(k: CallKind, blk: Block, hash: Seq<u8>, calls: Seq<Call>) -> Seq<CallRecordView>
    decreases calls.len(),
{
    if calls.len() == 0 {
        seq![]
    } else {
        calls_records(k, blk, hash, calls.drop_last()) + opt_seq(call_record(k, blk, hash, calls.last()))
    }
}

/// The records that the successful transactions among `txs` give for `k`:
/// transaction order, then call order.
pub open spec fn txs_call_records(k: CallKind, blk: Block, txs: Seq<Transaction>) -> Seq<CallRecordView>
    decreases txs.len(),
{
    if txs.len() == 0 {
        seq![]
    } else {
        let tx = txs.last();
        txs_call_records(k, blk, txs.drop_last()) + if tx.succeeded {
            calls_records(k, blk, tx.hash@, tx.calls@)
        } else {
            seq![]
        }
    }
}

/// The collection of `k` for the block.
pub open spec fn call_records(k: CallKind, blk: Block) -> Seq<CallRecordView> {
    txs_call_records(k, blk, blk.transactions@)
}

/// Whether `c` is an instance of `k`.
pub fn match_call(k: CallKind, c: &Call) -> (r: bool)
    ensures
        r == call_matches(k, *c),
{
    if c.input.len() < 4 {
        return false;
    }
    let sel = k.selector();
    bytes_equal(slice_subrange(c.input.as_slice(), 0, 4), array_as_slice(&sel))
}

/// Reads the input fields of `c` as an instance of `k`.
pub fn decode_call(k: CallKind, c: &Call) -> (r: Option<Vec<Value>>)
    ensures
        r.is_some() == call_fields(k, *c).is_some(),
        r.is_some() ==> values_view(r.unwrap()@) == call_fields(k, *c).unwrap(),
{
    if c.input.len() < 4 {
        return None;
    }
    let ps = k.params();
    decode_params(ps.as_slice(), slice_subrange(c.input.as_slice(), 4, c.input.len()))
}

/// The `bytes4` that `ret` returns, or four zero bytes where it holds none.
pub fn decode_bytes4(ret: &[u8]) -> (r: Vec<u8>)
    ensures
        r@ == returned_bytes4(ret@),
{
    if ret.len() >= 4 {
        slice_to_vec(slice_subrange(ret, 0, 4))
    } else {
        let r: Vec<u8> = vec![0u8, 0u8, 0u8, 0u8];
        assert(r@ =~= seq![0u8, 0u8, 0u8, 0u8]);
        r
    }
}

/// The decoded result of `c` as an instance of `k`.
pub fn decode_outputs(k: CallKind, c: &Call) -> (r: Vec<Value>)
    ensures
        values_view(r@) == call_outputs(k, *c),
{
    let mut r: Vec<Value> = Vec::new();
    if k.has_output() {
        r.push(Value::Bytes(decode_bytes4(c.return_data.as_slice())));
    }
    assert(values_view(r@) =~= call_outputs(k, *c));
    r
}

/// The records of kind `k` in `blk`: for each successful transaction in block
/// order, for each of its calls in order, one record where the call went to
/// the tracked contract, is an instance of `k`, and its input decodes.
pub fn extract_calls(blk: &Block, k: CallKind) -> (r: Vec<CallRecord>)
    ensures
        call_records_view(r@) == call_records(k, *blk),
{
    let mut out: Vec<CallRecord> = Vec::new();
    let mut t: usize = 0;
    while t < blk.transactions.len()
        invariant
            0 <= t <= blk.transactions@.len(),
            call_records_view(out@) == txs_call_records(k, *blk, blk.transactions@.subrange(0, t as int)),
        decreases blk.transactions@.len() - t,
    {
        let tx = &blk.transactions[t];
        let ghost before = call_records_view(out@);
        let ghost txs = blk.transactions@.subrange(0, t + 1);
        assert(txs.drop_last() =~= blk.transactions@.subrange(0, t as int));
        assert(txs.last() == *tx);
        if tx.succeeded {
            let mut l: usize = 0;
            while l < tx.calls.len()
                invariant
                    0 <= l <= tx.calls@.len(),
                    call_records_view(out@) == before + calls_records(k, *blk, tx.hash@, tx.calls@.subrange(0, l as int)),
                decreases tx.calls@.len() - l,
            {
                let c = &tx.calls[l];
                let ghost calls = tx.calls@.subrange(0, l + 1);
                assert(calls.drop_last() =~= tx.calls@.subrange(0, l as int));
                assert(calls.last() == *c);
                let ghost prev = call_records_view(out@);
                if bytes_equal(c.address.as_slice(), array_as_slice(&TRACKED_CONTRACT)) && match_call(k, c) {
                    match decode_call(k, c) {
                        Some(fields) => {
                            let rec = CallRecord {
                                tx_hash: hex_string(tx.hash.as_slice()),
                                block_time: blk.time,
                                block_number: blk.number,
                                ordinal: c.begin_ordinal,
                                success: !c.state_reverted,
                                fields,
                                outputs: decode_outputs(k, c),
                            };
                            out.push(rec);
                            assert(call_records_view(out@) =~= prev + seq![rec@]);
                        },
                        None => {},
                    }
                }
                assert(call_records_view(out@) =~= before + calls_records(k, *blk, tx.hash@, calls));
                l = l + 1;
            }
            assert(tx.calls@.subrange(0, tx.calls@.len() as int) =~= tx.calls@);
        }
        assert(call_records_view(out@) =~= txs_call_records(k, *blk, txs));
        t = t + 1;
    }
    assert(blk.transactions@.subrange(0, blk.transactions@.len() as int) =~= blk.transactions@);
    out
}

/// The call collections of one block, one per kind, at the kind's position.
#[derive(Clone, Debug, PartialEq, Eq)]
pub struct Calls {
    pub by_kind: Vec<Vec<CallRecord>>,
}

/// The collections that `c` holds.
pub open spec fn calls_view(c: Calls) -> Seq<Seq<CallRecordView>> {
    c.by_kind@.map_values(|v: Vec<CallRecord>| call_records_view(v@))
}

/// All call collections of `blk`, by position.
pub open spec fn calls_of(blk: Block) -> Seq<Seq<CallRecordView>> {
    Seq::new(CALL_KIND_COUNT as nat, |i: int| call_records(call_kind_at(i), blk))
}

impl Calls {
    /// The collection of kind `k`.
    pub fn records(&self, k: CallKind) -> (r: &Vec<CallRecord>)
        requires
            self.by_kind@.len() == CALL_KIND_COUNT,
        ensures
            *r == self.by_kind@[call_index(k)],
    {
        &self.by_kind[k.index()]
    }
}

/// Decodes every known call to the tracked contract in `blk`.
pub fn map_calls(blk: &Block) -> (r: Calls)
    ensures
        calls_view(r) == calls_of(*blk),
        r.by_kind@.len() == CALL_KIND_COUNT,
{
    let mut by_kind: Vec<Vec<CallRecord>> = Vec::new();
    let mut i: usize = 0;
    while i < CALL_KIND_COUNT
        invariant
            0 <= i <= CALL_KIND_COUNT,
            by_kind@.len() == i,
            forall|j: int| 0 <= j < i ==> call_records_view(#[trigger] by_kind@[j]@) == call_records(call_kind_at(j), *blk),
        decreases CALL_KIND_COUNT - i,
    {
        let k = CallKind::at(i);
        by_kind.push(extract_calls(blk, k));
        i = i + 1;
    }
    let r = Calls { by_kind };
    assert(calls_view(r) =~= calls_of(*blk));
    r
}

/// The collection at a kind's position is that kind's.
pub proof fn lemma_calls_of_kind(blk: Block, k: CallKind)
    ensures
        calls_of(blk)[call_index(k)] == call_records(k, blk),
{
    lemma_call_kind_at_index(k);
}

} // verus!
