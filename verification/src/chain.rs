//! Chain-ordering validation and whole-chain codec.
//!
//! An inbound chain starts with exactly one source-category stage followed
//! by transform stages only.  An outbound chain ends with exactly one
//! terminal stage; earlier stages wrap toward it.  Both rules are enforced
//! here, before a chain ever reaches the assembler.

use vstd::prelude::*;

use crate::doc::{arr_view, val_view, SpecValue, Value};
use crate::fields::{mism, mism_at, DecodeErr, ErrV};
use crate::inbound::{
    dec_in_val, decode_in, enc_in, encode_in, is_source_stage, spec_is_source_stage,
    InMapConfig, InMapConfigV,
};
use crate::outbound::{
    dec_out_val, decode_out, enc_out, encode_out, is_terminal_stage, spec_is_terminal_stage,
    OutMapConfig, OutMapConfigV,
};

verus! {

broadcast use crate::doc::lemma_arr_view_len, crate::doc::lemma_arr_view_index;

/// Why a chain was rejected before reaching the assembler.
#[derive(Debug, Clone, Copy, PartialEq, Eq, Structural)]
pub enum ChainError {
    /// The chain holds no stage at all.
    EmptyChain,
    /// The first inbound stage is not a source-category stage.
    FirstNotSource,
    /// A source-category stage stands after the first position.
    SourceNotFirst { index: usize },
    /// The last outbound stage is not a terminal stage.
    LastNotTerminal,
    /// A terminal stage stands before the last position.
    TerminalNotLast { index: usize },
}

/// A well-ordered inbound chain: nonempty, a source first, transforms after.
pub open spec fn in_chain_ok(c: Seq<InMapConfigV>) -> bool {
    c.len() > 0 && spec_is_source_stage(c[0]) && (forall|i: int|
        1 <= i < c.len() ==> !spec_is_source_stage(c[i]))
}

/// A well-ordered outbound chain: nonempty, the terminal stage last and
/// nowhere else.
pub open spec fn out_chain_ok(c: Seq<OutMapConfigV>) -> bool {
    c.len() > 0 && spec_is_terminal_stage(c[c.len() - 1]) && (forall|i: int|
        0 <= i < c.len() - 1 ==> !spec_is_terminal_stage(c[i]))
}

/// Accepts exactly the well-ordered inbound chains, and names the first
/// offending position otherwise.
pub fn validate_in_chain(chain: &Vec<InMapConfig>) -> (r: Result<(), ChainError>)
    ensures
        r is Ok <==> in_chain_ok(chain.deep_view()),
        match r {
            Ok(()) => true,
            Err(ChainError::EmptyChain) => chain.deep_view().len() == 0,
            Err(ChainError::FirstNotSource) => chain.deep_view().len() > 0
                && !spec_is_source_stage(chain.deep_view()[0]),
            Err(ChainError::SourceNotFirst { index }) => 1 <= index < chain.deep_view().len()
                && spec_is_source_stage(chain.deep_view()[index as int]) && spec_is_source_stage(
                chain.deep_view()[0],
            ) && (forall|j: int|
                1 <= j < index ==> !spec_is_source_stage(chain.deep_view()[j])),
            Err(_) => false,
        },
{
    proof {
        assert(chain.deep_view().len() == chain@.len());
    }
    if chain.len() == 0 {
        return Err(ChainError::EmptyChain);
    }
    proof {
        assert(chain.deep_view()[0] == chain@[0].deep_view());
    }
    if !is_source_stage(&chain[0]) {
        return Err(ChainError::FirstNotSource);
    }
    let mut i: usize = 1;
    while i < chain.len()
        invariant
            1 <= i <= chain@.len(),
            chain.deep_view().len() == chain@.len(),
            spec_is_source_stage(chain.deep_view()[0]),
            forall|j: int| 1 <= j < i ==> !spec_is_source_stage(chain.deep_view()[j]),
        decreases chain.len() - i,
    {
        proof {
            assert(chain.deep_view()[i as int] == chain@[i as int].deep_view());
        }
        if is_source_stage(&chain[i]) {
            return Err(ChainError::SourceNotFirst { index: i });
        }
        i = i + 1;
    }
    Ok(())
}

/// Accepts exactly the well-ordered outbound chains, and names the first
/// offending position otherwise.
pub fn validate_out_chain(chain: &Vec<OutMapConfig>) -> (r: Result<(), ChainError>)
    ensures
        r is Ok <==> out_chain_ok(chain.deep_view()),
        match r {
            Ok(()) => true,
            Err(ChainError::EmptyChain) => chain.deep_view().len() == 0,
            Err(ChainError::LastNotTerminal) => chain.deep_view().len() > 0
                && !spec_is_terminal_stage(chain.deep_view()[chain.deep_view().len() - 1]),
            Err(ChainError::TerminalNotLast { index }) => index < chain.deep_view().len() - 1
                && spec_is_terminal_stage(chain.deep_view()[index as int])
                && spec_is_terminal_stage(chain.deep_view()[chain.deep_view().len() - 1]) && (
            forall|j: int| 0 <= j < index ==> !spec_is_terminal_stage(chain.deep_view()[j])),
            Err(_) => false,
        },
{
    proof {
        assert(chain.deep_view().len() == chain@.len());
    }
    if chain.len() == 0 {
        return Err(ChainError::EmptyChain);
    }
    proof {
        assert(chain.deep_view()[chain@.len() - 1] == chain@[chain@.len() - 1].deep_view());
    }
    if !is_terminal_stage(&chain[chain.len() - 1]) {
        return Err(ChainError::LastNotTerminal);
    }
    let mut i: usize = 0;
    while i < chain.len() - 1
        invariant
            chain@.len() > 0,
            i <= chain@.len() - 1,
            chain.deep_view().len() == chain@.len(),
            spec_is_terminal_stage(chain.deep_view()[chain.deep_view().len() - 1]),
            forall|j: int| 0 <= j < i ==> !spec_is_terminal_stage(chain.deep_view()[j]),
        decreases chain.len() - i,
    {
        proof {
            assert(chain.deep_view()[i as int] == chain@[i as int].deep_view());
        }
        if is_terminal_stage(&chain[i]) {
            return Err(ChainError::TerminalNotLast { index: i });
        }
        i = i + 1;
    }
    Ok(())
}

/// A decode error with the position of the offending stage in the list.
#[derive(Debug, Clone, PartialEq)]
pub struct ChainDecodeErr {
    pub index: usize,
    pub err: DecodeErr,
}

/// Encodes an inbound chain as an array of tagged objects, in chain order.
pub fn encode_in_chain(chain: &Vec<InMapConfig>) -> (v: Value)
    ensures
        val_view(v) is Arr,
        val_view(v)->Arr_0.len() == chain.deep_view().len(),
        forall|i: int|
            0 <= i < chain.deep_view().len() ==> val_view(v)->Arr_0[i] == SpecValue::Obj(
                enc_in(chain.deep_view()[i]),
            ),
{
    let mut items: Vec<Value> = Vec::new();
    let mut i: usize = 0;
    while i < chain.len()
        invariant
            i <= chain.len(),
            chain.deep_view().len() == chain@.len(),
            arr_view(items@).len() == i,
            forall|j: int|
                0 <= j < i ==> arr_view(items@)[j] == SpecValue::Obj(
                    enc_in(chain.deep_view()[j]),
                ),
        decreases chain.len() - i,
    {
        proof {
            assert(chain.deep_view()[i as int] == chain@[i as int].deep_view());
        }
        let ghost before: Seq<Value> = items@;
        let val = encode_in(&chain[i]);
        let ghost gv: Value = val;
        items.push(val);
        proof {
            assert(items@.subrange(0, items@.len() - 1) =~= before);
            assert(arr_view(items@) == arr_view(before).push(val_view(gv)));
        }
        i = i + 1;
    }
    Value::Arr(items)
}

/// Encodes an outbound chain as an array of tagged objects, in chain order.
pub fn encode_out_chain(chain: &Vec<OutMapConfig>) -> (v: Value)
    ensures
        val_view(v) is Arr,
        val_view(v)->Arr_0.len() == chain.deep_view().len(),
        forall|i: int|
            0 <= i < chain.deep_view().len() ==> val_view(v)->Arr_0[i] == SpecValue::Obj(
                enc_out(chain.deep_view()[i]),
            ),
{
    let mut items: Vec<Value> = Vec::new();
    let mut i: usize = 0;
    while i < chain.len()
        invariant
            i <= chain.len(),
            chain.deep_view().len() == chain@.len(),
            arr_view(items@).len() == i,
            forall|j: int|
                0 <= j < i ==> arr_view(items@)[j] == SpecValue::Obj(
                    enc_out(chain.deep_view()[j]),
                ),
        decreases chain.len() - i,
    {
        proof {
            assert(chain.deep_view()[i as int] == chain@[i as int].deep_view());
        }
        let ghost before: Seq<Value> = items@;
        let val = encode_out(&chain[i]);
        let ghost gv: Value = val;
        items.push(val);
        proof {
            assert(items@.subrange(0, items@.len() - 1) =~= before);
            assert(arr_view(items@) == arr_view(before).push(val_view(gv)));
        }
        i = i + 1;
    }
    Value::Arr(items)
}

/// Decodes an inbound chain from an array value.  Every stage must decode;
/// the first one that does not is named with its list index.
pub fn decode_in_chain(v: &Value) -> (r: Result<Vec<InMapConfig>, ChainDecodeErr>)
    ensures
        match r {
            Ok(cs) => val_view(*v) is Arr && cs.deep_view().len() == val_view(*v)->Arr_0.len()
                && (forall|i: int|
                0 <= i < cs.deep_view().len() ==> dec_in_val(val_view(*v)->Arr_0[i])
                    == Ok::<_, ErrV>(cs.deep_view()[i])),
            Err(e) => match val_view(*v) {
                SpecValue::Arr(items) => e.index < items.len() && dec_in_val(
                    items[e.index as int],
                ) == Err::<InMapConfigV, _>(e.err@) && (forall|j: int|
                    0 <= j < e.index ==> dec_in_val(items[j]) is Ok),
                _ => e.index == 0 && e.err@ == mism("chain"@),
            },
        },
{
    match v {
        Value::Arr(items) => {
            let ghost iv: Seq<SpecValue> = arr_view(items@);
            let mut out: Vec<InMapConfig> = Vec::new();
            let mut i: usize = 0;
            while i < items.len()
                invariant
                    i <= items.len(),
                    iv == arr_view(items@),
                    iv.len() == items@.len(),
                    val_view(*v) == SpecValue::Arr(iv),
                    out.deep_view().len() == i,
                    forall|j: int|
                        0 <= j < i ==> dec_in_val(iv[j]) == Ok::<_, ErrV>(out.deep_view()[j]),
                decreases items.len() - i,
            {
                proof {
                    assert(arr_view(items@)[i as int] == val_view(items@[i as int]));
                }
                match decode_in(&items[i]) {
                    Ok(c) => {
                        let ghost outb: Seq<InMapConfigV> = out.deep_view();
                        let ghost gc: InMapConfigV = c.deep_view();
                        out.push(c);
                        proof {
                            assert(out.deep_view() =~= outb.push(gc));
                        }
                    },
                    Err(e) => {
                        return Err(ChainDecodeErr { index: i, err: e });
                    },
                }
                i = i + 1;
            }
            Ok(out)
        },
        _ => Err(ChainDecodeErr { index: 0, err: mism_at("chain") }),
    }
}

/// Decodes an outbound chain from an array value.  Every stage must decode;
/// the first one that does not is named with its list index.
pub fn decode_out_chain(v: &Value) -> (r: Result<Vec<OutMapConfig>, ChainDecodeErr>)
    ensures
        match r {
            Ok(cs) => val_view(*v) is Arr && cs.deep_view().len() == val_view(*v)->Arr_0.len()
                && (forall|i: int|
                0 <= i < cs.deep_view().len() ==> dec_out_val(val_view(*v)->Arr_0[i])
                    == Ok::<_, ErrV>(cs.deep_view()[i])),
            Err(e) => match val_view(*v) {
                SpecValue::Arr(items) => e.index < items.len() && dec_out_val(
                    items[e.index as int],
                ) == Err::<OutMapConfigV, _>(e.err@) && (forall|j: int|
                    0 <= j < e.index ==> dec_out_val(items[j]) is Ok),
                _ => e.index == 0 && e.err@ == mism("chain"@),
            },
        },
{
    match v {
        Value::Arr(items) => {
            let ghost iv: Seq<SpecValue> = arr_view(items@);
            let mut out: Vec<OutMapConfig> = Vec::new();
            let mut i: usize = 0;
            while i < items.len()
                invariant
                    i <= items.len(),
                    iv == arr_view(items@),
                    iv.len() == items@.len(),
                    val_view(*v) == SpecValue::Arr(iv),
                    out.deep_view().len() == i,
                    forall|j: int|
                        0 <= j < i ==> dec_out_val(iv[j]) == Ok::<_, ErrV>(out.deep_view()[j]),
                decreases items.len() - i,
            {
                proof {
                    assert(arr_view(items@)[i as int] == val_view(items@[i as int]));
                }
                match decode_out(&items[i]) {
                    Ok(c) => {
                        let ghost outb: Seq<OutMapConfigV> = out.deep_view();
                        let ghost gc: OutMapConfigV = c.deep_view();
                        out.push(c);
                        proof {
                            assert(out.deep_view() =~= outb.push(gc));
                        }
                    },
                    Err(e) => {
                        return Err(ChainDecodeErr { index: i, err: e });
                    },
                }
                i = i + 1;
            }
            Ok(out)
        },
        _ => Err(ChainDecodeErr { index: 0, err: mism_at("chain") }),
    }
}

} // verus!
