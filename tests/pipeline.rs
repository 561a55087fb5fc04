use polymarket_ctf_substream::{
    map_block, map_calls, map_events, decode_bytes4, Block, BlockTime, Call, CallKind, EventKind, Log,
    Transaction, Value, TRACKED_CONTRACT,
};
use polymarket_ctf_substream::catalog::{
    FEE_CHARGED_TOPIC, NEW_ADMIN_TOPIC, ORDER_FILLED_TOPIC, TOKEN_REGISTERED_TOPIC, TRADING_PAUSED_TOPIC,
    ADD_ADMIN_SELECTOR, FILL_ORDER_SELECTOR, FILL_ORDERS_SELECTOR, MATCH_ORDERS_SELECTOR,
    ON_ERC1155_BATCH_RECEIVED_SELECTOR, ON_ERC1155_RECEIVED_SELECTOR, PAUSE_TRADING_SELECTOR,
    REGISTER_TOKEN_SELECTOR,
};

const UINT256_MAX: &str =
    "115792089237316195423570985008687907853269984665640564039457584007913129639935";

/// An ABI value, for building inputs.
enum Tok {
    Word([u8; 32]),
    Bytes(Vec<u8>),
    Array(Vec<Tok>),
    Tuple(Vec<Tok>),
}

impl Tok {
    fn is_dynamic(&self) -> bool {
        match self {
            Tok::Word(_) => false,
            Tok::Bytes(_) | Tok::Array(_) => true,
            Tok::Tuple(ts) => ts.iter().any(|t| t.is_dynamic()),
        }
    }
}

fn uint(n: u128) -> [u8; 32] {
    let mut w = [0u8; 32];
    w[16..].copy_from_slice(&n.to_be_bytes());
    w
}

fn addr_word(a: &[u8; 20]) -> [u8; 32] {
    let mut w = [0u8; 32];
    w[12..].copy_from_slice(a);
    w
}

fn encode_list(ts: &[Tok]) -> Vec<u8> {
    let head_len = 32 * ts.len();
    let mut head = Vec::new();
    let mut tail = Vec::new();
    for t in ts {
        if t.is_dynamic() {
            head.extend_from_slice(&uint((head_len + tail.len()) as u128));
            tail.extend(encode_body(t));
        } else {
            head.extend(encode_body(t));
        }
    }
    head.extend(tail);
    head
}

fn encode_body(t: &Tok) -> Vec<u8> {
    match t {
        Tok::Word(w) => w.to_vec(),
        Tok::Bytes(b) => {
            let mut out = uint(b.len() as u128).to_vec();
            out.extend_from_slice(b);
            while out.len() % 32 != 0 {
                out.push(0);
            }
            out
        }
        Tok::Array(ts) => {
            let mut out = uint(ts.len() as u128).to_vec();
            out.extend(encode_list(ts));
            out
        }
        Tok::Tuple(ts) => encode_list(ts),
    }
}

fn order(salt: u128) -> Tok {
    let mut fields: Vec<Tok> = Vec::new();
    fields.push(Tok::Word(uint(salt)));
    fields.push(Tok::Word(addr_word(&[1u8; 20])));
    fields.push(Tok::Word(addr_word(&[2u8; 20])));
    fields.push(Tok::Word(addr_word(&[0u8; 20])));
    for v in [7u128, 100, 200, 0, 1, 0, 0, 1] {
        fields.push(Tok::Word(uint(v)));
    }
    fields.push(Tok::Bytes(vec![0xab; 65]));
    Tok::Tuple(fields)
}

fn input(selector: [u8; 4], args: &[Tok]) -> Vec<u8> {
    let mut v = selector.to_vec();
    v.extend(encode_list(args));
    v
}

fn log_at(address: &[u8], topics: Vec<Vec<u8>>, data: Vec<u8>, index: u32) -> Log {
    Log { address: address.to_vec(), topics, data, block_index: index }
}

fn call_to(address: &[u8], input: Vec<u8>, return_data: Vec<u8>, reverted: bool, ordinal: u64) -> Call {
    Call { address: address.to_vec(), input, return_data, state_reverted: reverted, begin_ordinal: ordinal }
}

fn tx(hash: Vec<u8>, logs: Vec<Log>, calls: Vec<Call>) -> Transaction {
    Transaction { hash, succeeded: true, calls, logs }
}

fn block(transactions: Vec<Transaction>) -> Block {
    Block { number: 4242, time: BlockTime { seconds: 1_700_000_000, nanos: 5 }, transactions }
}

fn admin_log(index: u32, new_admin: u8) -> Log {
    log_at(
        &TRACKED_CONTRACT,
        vec![NEW_ADMIN_TOPIC.to_vec(), addr_word(&[new_admin; 20]).to_vec(), addr_word(&[9u8; 20]).to_vec()],
        vec![],
        index,
    )
}

#[test]
fn token_registered_event_is_decoded() {
    let token0 = hex_word("0000000000000100000000000000000000000000000000000000000000003039");
    let token1 = hex_word("8000000000000000000000000000000000000000000000000000000000000001");
    let condition = [0x5au8; 32];
    let log = log_at(
        &TRACKED_CONTRACT,
        vec![TOKEN_REGISTERED_TOPIC.to_vec(), token0.to_vec(), token1.to_vec(), condition.to_vec()],
        vec![],
        3,
    );
    let blk = block(vec![tx(vec![0xde, 0xad, 0x01], vec![log], vec![])]);
    let events = map_events(&blk);
    let recs = events.records(EventKind::TokenRegistered);
    assert_eq!(recs.len(), 1);
    let r = &recs[0];
    assert_eq!(r.tx_hash, "dead01");
    assert_eq!(r.index, 3);
    assert_eq!(r.block_number, 4242);
    assert_eq!(r.block_time, BlockTime { seconds: 1_700_000_000, nanos: 5 });
    assert_eq!(
        r.fields,
        vec![
            Value::Uint("1606938044258990275541962092341162602522202993782792835313721".to_string()),
            Value::Uint("57896044618658097711785492504343953926634992332820282019728792003956564819969".to_string()),
            Value::Bytes(condition.to_vec()),
        ]
    );
    for k in 0..13 {
        if k != EventKind::TokenRegistered.index() {
            assert!(events.by_kind[k].is_empty());
        }
    }
}

fn hex_word(s: &str) -> [u8; 32] {
    let mut w = [0u8; 32];
    for i in 0..32 {
        w[i] = u8::from_str_radix(&s[2 * i..2 * i + 2], 16).unwrap();
    }
    w
}

#[test]
fn reverted_pause_trading_call_is_recorded_as_failed() {
    let c = call_to(&TRACKED_CONTRACT, PAUSE_TRADING_SELECTOR.to_vec(), vec![], true, 17);
    let blk = block(vec![tx(vec![1], vec![], vec![c])]);
    let calls = map_calls(&blk);
    let recs = calls.records(CallKind::PauseTrading);
    assert_eq!(recs.len(), 1);
    assert!(!recs[0].success);
    assert_eq!(recs[0].ordinal, 17);
    assert!(recs[0].fields.is_empty());
    assert!(recs[0].outputs.is_empty());
}

#[test]
fn log_of_another_contract_gives_no_record() {
    let other = [0x11u8; 20];
    let log = log_at(&other, vec![TRADING_PAUSED_TOPIC.to_vec(), addr_word(&[3u8; 20]).to_vec()], vec![], 0);
    let blk = block(vec![tx(vec![1], vec![log], vec![])]);
    let events = map_events(&blk);
    assert_eq!(events.by_kind.len(), 13);
    assert!(events.by_kind.iter().all(|c| c.is_empty()));
}

#[test]
fn events_keep_transaction_then_log_order() {
    let t1 = tx(vec![0xa1], vec![admin_log(1, 4), admin_log(2, 5)], vec![]);
    let mut failed = tx(vec![0xa2], vec![admin_log(3, 6)], vec![]);
    failed.succeeded = false;
    let t3 = tx(vec![0xa3], vec![admin_log(4, 7)], vec![]);
    let blk = block(vec![t1, failed, t3]);
    let events = map_events(&blk);
    let recs = events.records(EventKind::NewAdmin);
    let seen: Vec<(String, u32)> = recs.iter().map(|r| (r.tx_hash.clone(), r.index)).collect();
    assert_eq!(seen, vec![("a1".to_string(), 1), ("a1".to_string(), 2), ("a3".to_string(), 4)]);
    assert_eq!(recs[0].fields, vec![Value::Address(vec![4u8; 20]), Value::Address(vec![9u8; 20])]);
}

#[test]
fn event_with_wrong_payload_size_is_dropped() {
    let good_data = [uint(5), uint(6)].concat();
    let good = log_at(&TRACKED_CONTRACT, vec![FEE_CHARGED_TOPIC.to_vec(), addr_word(&[8u8; 20]).to_vec()], good_data, 0);
    let short = log_at(&TRACKED_CONTRACT, vec![FEE_CHARGED_TOPIC.to_vec(), addr_word(&[8u8; 20]).to_vec()], uint(5).to_vec(), 1);
    let missing_topic = log_at(&TRACKED_CONTRACT, vec![FEE_CHARGED_TOPIC.to_vec()], [uint(5), uint(6)].concat(), 2);
    let blk = block(vec![tx(vec![7], vec![good, short, missing_topic], vec![])]);
    let events = map_events(&blk);
    let recs = events.records(EventKind::FeeCharged);
    assert_eq!(recs.len(), 1);
    assert_eq!(
        recs[0].fields,
        vec![Value::Address(vec![8u8; 20]), Value::Uint("5".to_string()), Value::Uint("6".to_string())]
    );
}

#[test]
fn order_filled_event_fields() {
    let data = [uint(1), uint(2), uint(0), hex_word(&"ff".repeat(32)), uint(9)].concat();
    let log = log_at(
        &TRACKED_CONTRACT,
        vec![
            ORDER_FILLED_TOPIC.to_vec(),
            vec![0x33u8; 32],
            addr_word(&[0x44u8; 20]).to_vec(),
            addr_word(&[0x55u8; 20]).to_vec(),
        ],
        data,
        12,
    );
    let blk = block(vec![tx(vec![0], vec![log], vec![])]);
    let recs = map_events(&blk).records(EventKind::OrderFilled).clone();
    assert_eq!(recs.len(), 1);
    assert_eq!(recs[0].tx_hash, "00");
    assert_eq!(
        recs[0].fields,
        vec![
            Value::Bytes(vec![0x33u8; 32]),
            Value::Address(vec![0x44u8; 20]),
            Value::Address(vec![0x55u8; 20]),
            Value::Uint("1".to_string()),
            Value::Uint("2".to_string()),
            Value::Uint("0".to_string()),
            Value::Uint(UINT256_MAX.to_string()),
            Value::Uint("9".to_string()),
        ]
    );
}

#[test]
fn calls_keep_order_and_skip_bad_input() {
    let good1 = call_to(&TRACKED_CONTRACT, input(ADD_ADMIN_SELECTOR, &[Tok::Word(addr_word(&[1u8; 20]))]), vec![], false, 10);
    let short = call_to(&TRACKED_CONTRACT, ADD_ADMIN_SELECTOR.to_vec(), vec![], false, 11);
    let elsewhere = call_to(&[0x22u8; 20], input(ADD_ADMIN_SELECTOR, &[Tok::Word(addr_word(&[1u8; 20]))]), vec![], false, 12);
    let good2 = call_to(&TRACKED_CONTRACT, input(ADD_ADMIN_SELECTOR, &[Tok::Word(addr_word(&[2u8; 20]))]), vec![], true, 13);
    let blk = block(vec![tx(vec![0xb1], vec![], vec![good1, short]), tx(vec![0xb2], vec![], vec![elsewhere, good2])]);
    let calls = map_calls(&blk);
    let recs = calls.records(CallKind::AddAdmin);
    let seen: Vec<(String, u64, bool)> = recs.iter().map(|r| (r.tx_hash.clone(), r.ordinal, r.success)).collect();
    assert_eq!(seen, vec![("b1".to_string(), 10, true), ("b2".to_string(), 13, false)]);
    assert_eq!(recs[1].fields, vec![Value::Address(vec![2u8; 20])]);
}

#[test]
fn pipeline_is_idempotent() {
    let c = call_to(&TRACKED_CONTRACT, input(REGISTER_TOKEN_SELECTOR, &[Tok::Word(uint(5)), Tok::Word(uint(6)), Tok::Word([7u8; 32])]), vec![], false, 1);
    let blk = block(vec![tx(vec![0xc1], vec![admin_log(0, 1)], vec![c])]);
    let first = map_block(&blk);
    let second = map_block(&blk);
    assert_eq!(first, second);
    assert_eq!(first.calls.records(CallKind::RegisterToken).len(), 1);
    assert_eq!(first.events.records(EventKind::NewAdmin).len(), 1);
    assert_eq!(
        first.calls.records(CallKind::RegisterToken)[0].fields,
        vec![Value::Uint("5".to_string()), Value::Uint("6".to_string()), Value::Bytes(vec![7u8; 32])]
    );
}

fn received_input() -> Vec<u8> {
    input(
        ON_ERC1155_RECEIVED_SELECTOR,
        &[
            Tok::Word(addr_word(&[1u8; 20])),
            Tok::Word(addr_word(&[2u8; 20])),
            Tok::Word(uint(77)),
            Tok::Word(uint(88)),
            Tok::Bytes(vec![1, 2, 3]),
        ],
    )
}

#[test]
fn success_flag_does_not_depend_on_output() {
    let ok = call_to(&TRACKED_CONTRACT, received_input(), vec![0xf2, 0x3a, 0x6e, 0x61], false, 1);
    let no_output = call_to(&TRACKED_CONTRACT, received_input(), vec![], false, 2);
    let reverted = call_to(&TRACKED_CONTRACT, received_input(), vec![0xf2, 0x3a, 0x6e, 0x61], true, 3);
    let blk = block(vec![tx(vec![1], vec![], vec![ok, no_output, reverted])]);
    let calls = map_calls(&blk);
    let recs = calls.records(CallKind::OnErc1155Received);
    let flags: Vec<bool> = recs.iter().map(|r| r.success).collect();
    assert_eq!(flags, vec![true, true, false]);
}

#[test]
fn missing_output_gives_zero_bytes4() {
    let with_output = call_to(&TRACKED_CONTRACT, received_input(), [vec![0xf2, 0x3a, 0x6e, 0x61], vec![0u8; 28]].concat(), false, 1);
    let empty = call_to(&TRACKED_CONTRACT, received_input(), vec![], true, 2);
    let short = call_to(&TRACKED_CONTRACT, received_input(), vec![0xf2, 0x3a], false, 3);
    let blk = block(vec![tx(vec![1], vec![], vec![with_output, empty, short])]);
    let calls = map_calls(&blk);
    let recs = calls.records(CallKind::OnErc1155Received);
    assert_eq!(recs.len(), 3);
    assert_eq!(recs[0].outputs, vec![Value::Bytes(vec![0xf2, 0x3a, 0x6e, 0x61])]);
    assert_eq!(recs[1].outputs, vec![Value::Bytes(vec![0, 0, 0, 0])]);
    assert_eq!(recs[2].outputs, vec![Value::Bytes(vec![0, 0, 0, 0])]);
    assert_eq!(
        recs[0].fields,
        vec![
            Value::Address(vec![1u8; 20]),
            Value::Address(vec![2u8; 20]),
            Value::Uint("77".to_string()),
            Value::Uint("88".to_string()),
            Value::Bytes(vec![1, 2, 3]),
        ]
    );
}

#[test]
fn bytes4_result_is_first_four_bytes() {
    assert_eq!(decode_bytes4(&[9, 8, 7, 6, 5]), vec![9, 8, 7, 6]);
    assert_eq!(decode_bytes4(&[9, 8, 7]), vec![0, 0, 0, 0]);
}

#[test]
fn batch_received_arrays_and_bytes() {
    let args = [
        Tok::Word(addr_word(&[1u8; 20])),
        Tok::Word(addr_word(&[2u8; 20])),
        Tok::Array(vec![Tok::Word(uint(1)), Tok::Word(uint(2)), Tok::Word(uint(3))]),
        Tok::Array(vec![Tok::Word(uint(10)), Tok::Word([0xff; 32]), Tok::Word(uint(30))]),
        Tok::Bytes(vec![]),
    ];
    let c = call_to(&TRACKED_CONTRACT, input(ON_ERC1155_BATCH_RECEIVED_SELECTOR, &args), vec![0xbc, 0x19, 0x7c, 0x81], false, 5);
    let blk = block(vec![tx(vec![1], vec![], vec![c])]);
    let calls = map_calls(&blk);
    let recs = calls.records(CallKind::OnErc1155BatchReceived);
    assert_eq!(recs.len(), 1);
    assert_eq!(
        recs[0].fields,
        vec![
            Value::Address(vec![1u8; 20]),
            Value::Address(vec![2u8; 20]),
            Value::Uints(vec!["1".to_string(), "2".to_string(), "3".to_string()]),
            Value::Uints(vec!["10".to_string(), UINT256_MAX.to_string(), "30".to_string()]),
            Value::Bytes(vec![]),
        ]
    );
    assert_eq!(recs[0].outputs, vec![Value::Bytes(vec![0xbc, 0x19, 0x7c, 0x81])]);
}

#[test]
fn order_calls_keep_amounts() {
    let fill = call_to(&TRACKED_CONTRACT, input(FILL_ORDER_SELECTOR, &[order(1), Tok::Word(uint(500))]), vec![], false, 1);
    let fills = call_to(
        &TRACKED_CONTRACT,
        input(FILL_ORDERS_SELECTOR, &[Tok::Array(vec![order(2), order(3)]), Tok::Array(vec![Tok::Word(uint(4)), Tok::Word(uint(5))])]),
        vec![],
        false,
        2,
    );
    let matched = call_to(
        &TRACKED_CONTRACT,
        input(
            MATCH_ORDERS_SELECTOR,
            &[order(4), Tok::Array(vec![order(5)]), Tok::Word(uint(600)), Tok::Array(vec![Tok::Word(uint(6))])],
        ),
        vec![],
        false,
        3,
    );
    let blk = block(vec![tx(vec![1], vec![], vec![fill, fills, matched])]);
    let calls = map_calls(&blk);
    assert_eq!(calls.records(CallKind::FillOrder)[0].fields, vec![Value::Uint("500".to_string())]);
    assert_eq!(
        calls.records(CallKind::FillOrders)[0].fields,
        vec![Value::Uints(vec!["4".to_string(), "5".to_string()])]
    );
    assert_eq!(
        calls.records(CallKind::MatchOrders)[0].fields,
        vec![Value::Uint("600".to_string()), Value::Uints(vec!["6".to_string()])]
    );
}

#[test]
fn truncated_order_is_dropped() {
    let mut bytes = input(FILL_ORDER_SELECTOR, &[order(1), Tok::Word(uint(500))]);
    bytes.truncate(bytes.len() - 64);
    let c = call_to(&TRACKED_CONTRACT, bytes, vec![], false, 1);
    let blk = block(vec![tx(vec![1], vec![], vec![c])]);
    assert!(map_calls(&blk).records(CallKind::FillOrder).is_empty());
}

#[test]
fn offset_with_high_bytes_is_rejected() {
    let mut bytes = received_input();
    // the head word of the `bytes` parameter, after the selector
    bytes[4 + 4 * 32] = 1;
    let c = call_to(&TRACKED_CONTRACT, bytes, vec![], false, 1);
    let blk = block(vec![tx(vec![1], vec![], vec![c])]);
    assert!(map_calls(&blk).records(CallKind::OnErc1155Received).is_empty());
}
