//! Reading the contract ABI's encoding: 32-byte head words, offsets into the
//! tail, dynamic `bytes`, `uint256[]`, and the exchange's `Order` tuple.
//!
//! Each parameter of a list sits in the head at `32 * i`. A dynamic one holds
//! there the offset of its body. An offset or a length is a word whose first
//! 28 bytes are zero, read from its last four. Bytes past what the parameters
//! need are ignored.

use vstd::prelude::*;
use vstd::slice::{slice_subrange, slice_to_vec};
use crate::bytes::{be_value, decimal_of, decimal_string};

verus! {

/// The shape of one parameter.
#[derive(Clone, Copy, Debug, PartialEq, Eq, Structural)]
pub enum Param {
    /// `address`: the last 20 bytes of its word.
    Address,
    /// `uint256`, rendered in base 10.
    Uint,
    /// `bytes32`: its whole word.
    Bytes32,
    /// `bytes`: a dynamic byte string.
    Bytes,
    /// `uint256[]`, each rendered in base 10.
    UintArray,
    /// The exchange's `Order` tuple: checked, and not kept.
    Order,
    /// `Order[]`: checked, and not kept.
    OrderArray,
}

/// A decoded field.
#[derive(Clone, Debug, PartialEq, Eq)]
pub enum Value {
    Address(Vec<u8>),
    Uint(String),
    Bytes(Vec<u8>),
    Uints(Vec<String>),
}

pub enum ValueView {
    Address(Seq<u8>),
    Uint(Seq<char>),
    Bytes(Seq<u8>),
    Uints(Seq<Seq<char>>),
}

impl View for Value {
    type V = ValueView;

    open spec fn view(&self) -> ValueView {
        match self {
            Value::Address(a) => ValueView::Address(a@),
            Value::Uint(s) => ValueView::Uint(s@),
            Value::Bytes(b) => ValueView::Bytes(b@),
            Value::Uints(v) => ValueView::Uints(v@.map_values(|s: String| s@)),
        }
    }
}

pub open spec fn values_view(vs: Seq<Value>) -> Seq<ValueView> {
    vs.map_values(|v: Value| v@)
}

/// The word at `off`, if the data holds one there.
pub open spec fn word_at(d: Seq<u8>, off: int) -> Option<Seq<u8>> {
    if 0 <= off && off + 32 <= d.len() {
        Some(d.subrange(off, off + 32))
    } else {
        None
    }
}

/// The offset or length held by the word at `off`.
pub open spec fn small_at(d: Seq<u8>, off: int) -> Option<nat> {
    match word_at(d, off) {
        Some(w) => if forall|i: int| 0 <= i < 28 ==> w[i] == 0 {
            Some(w[28] as nat * 16777216 + w[29] as nat * 65536 + w[30] as nat * 256 + w[31] as nat)
        } else {
            None
        },
        None => None,
    }
}

/// The `bytes` whose head word is at `off`.
pub open spec fn bytes_at(d: Seq<u8>, off: int) -> Option<Seq<u8>> {
    match small_at(d, off) {
        Some(lo) => match small_at(d, lo as int) {
            Some(n) => if lo + 32 + n <= d.len() {
                Some(d.subrange(lo + 32 as int, lo + 32 + n as int))
            } else {
                None
            },
            None => None,
        },
        None => None,
    }
}

/// The `uint256[]` whose head word is at `off`, each element in base 10.
pub open spec fn uints_at(d: Seq<u8>, off: int) -> Option<Seq<Seq<char>>> {
    match small_at(d, off) {
        Some(lo) => match small_at(d, lo as int) {
            Some(n) => {
                let t = d.subrange(lo + 32 as int, d.len() as int);
                if 32 * n <= t.len() {
                    Some(Seq::new(n, |i: int| decimal_of(be_value(t.subrange(32 * i, 32 * i + 32)))))
                } else {
                    None
                }
            },
            None => None,
        },
        None => None,
    }
}

/// Whether an `Order` tuple can be read at the head word `off`: its body holds
/// twelve static words and then the head of its `bytes` signature.
pub open spec fn order_at(d: Seq<u8>, off: int) -> bool {
    match small_at(d, off) {
        Some(lo) => lo <= d.len() && bytes_at(d.subrange(lo as int, d.len() as int), 384).is_some(),
        None => false,
    }
}

/// Whether an `Order[]` can be read at the head word `off`.
pub open spec fn orders_at(d: Seq<u8>, off: int) -> bool {
    match small_at(d, off) {
        Some(lo) => match small_at(d, lo as int) {
            Some(n) => {
                let t = d.subrange(lo + 32 as int, d.len() as int);
                forall|i: int| 0 <= i < n ==> #[trigger] order_at(t, 32 * i)
            },
            None => false,
        },
        None => false,
    }
}

/// What a parameter of shape `p` with its head word at `off` decodes to:
/// `None` where the data does not hold it, `Some(None)` where it is read and
/// not kept, `Some(Some(v))` where it gives the field `v`.
pub open spec fn param_at(p: Param, d: Seq<u8>, off: int) -> Option<Option<ValueView>> {
    match p {
        Param::Address => match word_at(d, off) {
            Some(w) => Some(Some(ValueView::Address(w.subrange(12, 32)))),
            None => None,
        },
        Param::Uint => match word_at(d, off) {
            Some(w) => Some(Some(ValueView::Uint(decimal_of(be_value(w))))),
            None => None,
        },
        Param::Bytes32 => match word_at(d, off) {
            Some(w) => Some(Some(ValueView::Bytes(w))),
            None => None,
        },
        Param::Bytes => match bytes_at(d, off) {
            Some(b) => Some(Some(ValueView::Bytes(b))),
            None => None,
        },
        Param::UintArray => match uints_at(d, off) {
            Some(v) => Some(Some(ValueView::Uints(v))),
            None => None,
        },
        Param::Order => if order_at(d, off) { Some(None) } else { None },
        Param::OrderArray => if orders_at(d, off) { Some(None) } else { None },
    }
}

pub open spec fn kept(o: Option<ValueView>) -> Seq<ValueView> {
    match o {
        Some(v) => seq![v],
        None => seq![],
    }
}

/// The fields that the parameter list `ps` decodes to from `d`, or `None`
/// where one of them cannot be read.
pub open spec fn params_at(ps: Seq<Param>, d: Seq<u8>) -> Option<Seq<ValueView>>
    decreases ps.len(),
{
    if ps.len() == 0 {
        Some(seq![])
    } else {
        match params_at(ps.drop_last(), d) {
            Some(vs) => match param_at(ps.last(), d, 32 * (ps.len() - 1)) {
                Some(o) => Some(vs + kept(o)),
                None => None,
            },
            None => None,
        }
    }
}

fn word(d: &[u8], off: usize) -> (r: Option<&[u8]>)
    ensures
        r.is_some() == word_at(d@, off as int).is_some(),
        r.is_some() ==> r.unwrap()@ == word_at(d@, off as int).unwrap(),
{
    if off <= d.len() && d.len() - off >= 32 {
        Some(slice_subrange(d, off, off + 32))
    } else {
        None
    }
}

fn small(d: &[u8], off: usize) -> (r: Option<usize>)
    ensures
        r.is_some() == small_at(d@, off as int).is_some(),
        r.is_some() ==> r.unwrap() as nat == small_at(d@, off as int).unwrap(),
        r.is_some() ==> r.unwrap() < 0x1_0000_0000,
        r.is_some() ==> off + 32 <= d@.len(),
{
    match word(d, off) {
        Some(w) => {
            let mut i: usize = 0;
            while i < 28
                invariant
                    w@.len() == 32,
                    w@ == word_at(d@, off as int).unwrap(),
                    word_at(d@, off as int).is_some(),
                    0 <= i <= 28,
                    forall|j: int| 0 <= j < i ==> w@[j] == 0,
                decreases 28 - i,
            {
                if w[i] != 0 {
                    assert(w@[i as int] != 0);
                    return None;
                }
                i = i + 1;
            }
            let v: u64 = (w[28] as u64) * 16777216 + (w[29] as u64) * 65536 + (w[30] as u64) * 256
                + (w[31] as u64);
            Some(v as usize)
        },
        None => None,
    }
}

fn bytes_value(d: &[u8], off: usize) -> (r: Option<Vec<u8>>)
    ensures
        r.is_some() == bytes_at(d@, off as int).is_some(),
        r.is_some() ==> r.unwrap()@ == bytes_at(d@, off as int).unwrap(),
{
    let head = small(d, off);
    if head.is_none() {
        return None;
    }
    let lo = head.unwrap();
    let count = small(d, lo);
    if count.is_none() {
        return None;
    }
    let n = count.unwrap();
    // a word stands at `lo`, so `lo + 32` is within the data
    if d.len() - (lo + 32) >= n {
        Some(slice_to_vec(slice_subrange(d, lo + 32, lo + 32 + n)))
    } else {
        None
    }
}

fn uints_value(d: &[u8], off: usize) -> (r: Option<Vec<String>>)
    ensures
        r.is_some() == uints_at(d@, off as int).is_some(),
        r.is_some() ==> r.unwrap()@.map_values(|s: String| s@) == uints_at(d@, off as int).unwrap(),
{
    let head = small(d, off);
    if head.is_none() {
        return None;
    }
    let lo = head.unwrap();
    let count = small(d, lo);
    if count.is_none() {
        return None;
    }
    let n = count.unwrap();
    let dl = d.len();
    assert(lo + 32 <= dl);
    let t = slice_subrange(d, lo + 32, dl);
    let tl = t.len();
    if n > tl / 32 {
        return None;
    }
    let ghost spec_t = d@.subrange(lo + 32 as int, d@.len() as int);
    assert(t@ == spec_t);
    let mut out: Vec<String> = Vec::new();
    let mut i: usize = 0;
    while i < n
        invariant
            t@ == spec_t,
            tl == t@.len(),
            small_at(d@, off as int) == Some(lo as nat),
            small_at(d@, lo as int) == Some(n as nat),
            n <= tl / 32,
            0 <= i <= n,
            out@.len() == i,
            forall|j: int| 0 <= j < i ==> #[trigger] out@[j]@ == decimal_of(be_value(spec_t.subrange(32 * j, 32 * j + 32))),
        decreases n - i,
    {
        assert(32 * i + 32 <= tl) by (nonlinear_arith)
            requires
                i < n,
                n <= tl / 32,
        ;
        let w = slice_subrange(t, 32 * i, 32 * i + 32);
        let s = decimal_string(w);
        out.push(s);
        i = i + 1;
    }
    assert(out@.map_values(|s: String| s@) =~= uints_at(d@, off as int).unwrap());
    Some(out)
}

fn order_ok(d: &[u8], off: usize) -> (r: bool)
    ensures
        r == order_at(d@, off as int),
{
    match small(d, off) {
        Some(lo) => {
            if lo > d.len() {
                return false;
            }
            let t = slice_subrange(d, lo, d.len());
            bytes_value(t, 384).is_some()
        },
        None => false,
    }
}

fn orders_ok(d: &[u8], off: usize) -> (r: bool)
    ensures
        r == orders_at(d@, off as int),
{
    let head = small(d, off);
    if head.is_none() {
        return false;
    }
    let lo = head.unwrap();
    let count = small(d, lo);
    if count.is_none() {
        return false;
    }
    let n = count.unwrap();
    let dl = d.len();
    assert(lo + 32 <= dl);
    let t = slice_subrange(d, lo + 32, dl);
    let ghost spec_t = d@.subrange(small_at(d@, off as int).unwrap() + 32 as int, d@.len() as int);
    assert(t@ == spec_t);
    let mut i: usize = 0;
    while i < n
        invariant
            t@ == spec_t,
            spec_t == d@.subrange(small_at(d@, off as int).unwrap() + 32 as int, d@.len() as int),
            small_at(d@, off as int) == Some(lo as nat),
            small_at(d@, lo as int) == Some(n as nat),
            0 <= i <= n,
            forall|j: int| 0 <= j < i ==> #[trigger] order_at(spec_t, 32 * j),
        decreases n - i,
    {
        if i >= t.len() / 32 {
            assert(32 * i + 32 > t@.len()) by (nonlinear_arith)
                requires
                    i >= t@.len() / 32,
            ;
            assert(word_at(spec_t, 32 * i) is None);
            assert(!order_at(spec_t, 32 * i));
            proof { lemma_orders_fail(d@, off as int, i as int); }
            return false;
        }
        assert(32 * i + 32 <= t@.len()) by (nonlinear_arith)
            requires
                i < t@.len() / 32,
        ;
        if !order_ok(t, 32 * i) {
            proof { lemma_orders_fail(d@, off as int, i as int); }
            return false;
        }
        i = i + 1;
    }
    true
}

proof fn lemma_orders_fail(d: Seq<u8>, off: int, i: int)
    requires
        small_at(d, off) is Some,
        small_at(d, small_at(d, off).unwrap() as int) is Some,
        0 <= i < small_at(d, small_at(d, off).unwrap() as int).unwrap(),
        !order_at(d.subrange(small_at(d, off).unwrap() + 32 as int, d.len() as int), 32 * i),
    ensures
        !orders_at(d, off),
{
}

pub(crate) fn param_value(p: Param, d: &[u8], off: usize) -> (r: Option<Option<Value>>)
    ensures
        r.is_some() == param_at(p, d@, off as int).is_some(),
        r.is_some() ==> (r.unwrap().is_some() == param_at(p, d@, off as int).unwrap().is_some()),
        r.is_some() && r.unwrap().is_some() ==> r.unwrap().unwrap()@ == param_at(p, d@, off as int).unwrap().unwrap(),
{
    match p {
        Param::Address => match word(d, off) {
            Some(w) => Some(Some(Value::Address(slice_to_vec(slice_subrange(w, 12, 32))))),
            None => None,
        },
        Param::Uint => match word(d, off) {
            Some(w) => Some(Some(Value::Uint(decimal_string(w)))),
            None => None,
        },
        Param::Bytes32 => match word(d, off) {
            Some(w) => Some(Some(Value::Bytes(slice_to_vec(w)))),
            None => None,
        },
        Param::Bytes => match bytes_value(d, off) {
            Some(b) => Some(Some(Value::Bytes(b))),
            None => None,
        },
        Param::UintArray => match uints_value(d, off) {
            Some(v) => Some(Some(Value::Uints(v))),
            None => None,
        },
        Param::Order => if order_ok(d, off) { Some(None) } else { None },
        Param::OrderArray => if orders_ok(d, off) { Some(None) } else { None },
    }
}

/// Decodes the parameter list `ps` from `d`, keeping the fields in order.
pub fn decode_params(ps: &[Param], d: &[u8]) -> (r: Option<Vec<Value>>)
    ensures
        r.is_some() == params_at(ps@, d@).is_some(),
        r.is_some() ==> values_view(r.unwrap()@) == params_at(ps@, d@).unwrap(),
{
    let mut out: Vec<Value> = Vec::new();
    let mut i: usize = 0;
    while i < ps.len()
        invariant
            0 <= i <= ps@.len(),
            params_at(ps@.subrange(0, i as int), d@).is_some(),
            values_view(out@) == params_at(ps@.subrange(0, i as int), d@).unwrap(),
        decreases ps@.len() - i,
    {
        let ghost pre = ps@.subrange(0, i as int);
        let ghost cur = ps@.subrange(0, i + 1);
        assert(cur.drop_last() =~= pre);
        if i >= d.len() / 32 {
            // the data ends before this parameter's head word
            assert(32 * i + 32 > d@.len()) by (nonlinear_arith)
                requires
                    i >= d@.len() / 32,
            ;
            assert(word_at(d@, 32 * i) is None);
            assert(param_at(ps@[i as int], d@, 32 * i) is None);
            assert(params_at(cur, d@) is None);
            proof { lemma_params_fail_extends(ps@, d@, (i + 1) as nat); }
            return None;
        }
        assert(32 * i + 32 <= d@.len()) by (nonlinear_arith)
            requires
                i < d@.len() / 32,
        ;
        match param_value(ps[i], d, 32 * i) {
            Some(Some(v)) => {
                out.push(v);
                assert(values_view(out@) =~= params_at(cur, d@).unwrap());
            },
            Some(None) => {
                assert(values_view(out@) =~= params_at(cur, d@).unwrap());
            },
            None => {
                proof { lemma_params_fail_extends(ps@, d@, (i + 1) as nat); }
                return None;
            },
        }
        i = i + 1;
    }
    assert(ps@.subrange(0, ps@.len() as int) =~= ps@);
    Some(out)
}

proof fn lemma_params_fail_extends(ps: Seq<Param>, d: Seq<u8>, k: nat)
    requires
        k <= ps.len(),
        params_at(ps.subrange(0, k as int), d) is None,
    ensures
        params_at(ps, d) is None,
    decreases ps.len() - k,
{
    if k < ps.len() {
        assert(ps.subrange(0, k + 1 as int).drop_last() =~= ps.subrange(0, k as int));
        lemma_params_fail_extends(ps, d, k + 1);
    } else {
        assert(ps.subrange(0, k as int) =~= ps);
    }
}

} // verus!
