//! The top-level configuration document: the inbound and the outbound
//! descriptor list, each in chain order, under the fields `"inbound"` and
//! `"outbound"`.  An absent list reads as empty; validation then decides
//! whether an empty chain is acceptable for the chosen use.

use vstd::prelude::*;

use crate::chain::{
    decode_in_chain, decode_out_chain, encode_in_chain, encode_out_chain, validate_in_chain,
    validate_out_chain, in_chain_ok, out_chain_ok, ChainDecodeErr, ChainError,
};
use crate::doc::{get_of, obj_view, val_view, SpecValue, Value};
use crate::fields::{mism, put_val, ErrV};
use crate::inbound::{dec_in_val, enc_in, InMapConfig};
use crate::outbound::{dec_out_val, enc_out, OutMapConfig};

verus! {

/// A whole configuration: both chains, fully resolved.
#[derive(Debug, Clone, PartialEq)]
pub struct ConfigDocument {
    pub inbound: Vec<InMapConfig>,
    pub outbound: Vec<OutMapConfig>,
}

/// Why a document was rejected as a whole.
#[derive(Debug, Clone, PartialEq)]
pub enum DocumentError {
    /// The document is not an object.
    NotAnObject,
    /// A stage in the inbound list failed to decode.
    BadInbound(ChainDecodeErr),
    /// A stage in the outbound list failed to decode.
    BadOutbound(ChainDecodeErr),
}

/// What it means for one chain list inside the document's meaning to decode
/// to a given sequence of stage meanings.
pub open spec fn list_decodes_in(
    m: Map<Seq<char>, SpecValue>,
    n: Seq<char>,
    cs: Seq<crate::inbound::InMapConfigV>,
) -> bool {
    match get_of(m, n) {
        None => cs.len() == 0,
        Some(SpecValue::Arr(items)) => cs.len() == items.len() && (forall|i: int|
            0 <= i < cs.len() ==> dec_in_val(items[i]) == Ok::<_, ErrV>(cs[i])),
        Some(_) => false,
    }
}

/// The same for the outbound list.
pub open spec fn list_decodes_out(
    m: Map<Seq<char>, SpecValue>,
    n: Seq<char>,
    cs: Seq<crate::outbound::OutMapConfigV>,
) -> bool {
    match get_of(m, n) {
        None => cs.len() == 0,
        Some(SpecValue::Arr(items)) => cs.len() == items.len() && (forall|i: int|
            0 <= i < cs.len() ==> dec_out_val(items[i]) == Ok::<_, ErrV>(cs[i])),
        Some(_) => false,
    }
}

/// Encodes a whole configuration as one tagged document.
pub fn encode_document(d: &ConfigDocument) -> (v: Value)
    ensures
        val_view(v) is Obj,
        ({
            let m = val_view(v)->Obj_0;
            get_of(m, "inbound"@) matches Some(iv) && iv is Arr && iv->Arr_0.len()
                == d.inbound.deep_view().len() && (forall|i: int|
                0 <= i < d.inbound.deep_view().len() ==> iv->Arr_0[i] == SpecValue::Obj(
                    enc_in(d.inbound.deep_view()[i]),
                ))
        }),
        ({
            let m = val_view(v)->Obj_0;
            get_of(m, "outbound"@) matches Some(ov) && ov is Arr && ov->Arr_0.len()
                == d.outbound.deep_view().len() && (forall|i: int|
                0 <= i < d.outbound.deep_view().len() ==> ov->Arr_0[i] == SpecValue::Obj(
                    enc_out(d.outbound.deep_view()[i]),
                ))
        }),
{
    proof {
        reveal_strlit("inbound");
        reveal_strlit("outbound");
        assert(("inbound"@).len() == 7);
        assert(("outbound"@).len() == 8);
    }
    let mut fields: Vec<(String, Value)> = Vec::new();
    proof {
        assert(obj_view(fields@) == Map::<Seq<char>, SpecValue>::empty());
    }
    let in_list = encode_in_chain(&d.inbound);
    put_val(&mut fields, "inbound", in_list);
    let out_list = encode_out_chain(&d.outbound);
    put_val(&mut fields, "outbound", out_list);
    Value::Obj(fields)
}

/// Decodes a whole configuration from a document value.  A decode failure
/// names the list and the position of the offending stage.
pub fn decode_document(v: &Value) -> (r: Result<ConfigDocument, DocumentError>)
    ensures
        match r {
            Ok(d) => val_view(*v) is Obj && list_decodes_in(
                val_view(*v)->Obj_0,
                "inbound"@,
                d.inbound.deep_view(),
            ) && list_decodes_out(val_view(*v)->Obj_0, "outbound"@, d.outbound.deep_view()),
            Err(DocumentError::NotAnObject) => !(val_view(*v) is Obj),
            Err(DocumentError::BadInbound(e)) => val_view(*v) is Obj && (match get_of(
                val_view(*v)->Obj_0,
                "inbound"@,
            ) {
                Some(SpecValue::Arr(items)) => e.index < items.len() && dec_in_val(
                    items[e.index as int],
                ) == Err::<crate::inbound::InMapConfigV, _>(e.err@) && (forall|j: int|
                    0 <= j < e.index ==> dec_in_val(items[j]) is Ok),
                Some(_) => e.index == 0 && e.err@ == mism("chain"@),
                None => false,
            }),
            Err(DocumentError::BadOutbound(e)) => val_view(*v) is Obj && (match get_of(
                val_view(*v)->Obj_0,
                "outbound"@,
            ) {
                Some(SpecValue::Arr(items)) => e.index < items.len() && dec_out_val(
                    items[e.index as int],
                ) == Err::<crate::outbound::OutMapConfigV, _>(e.err@) && (forall|j: int|
                    0 <= j < e.index ==> dec_out_val(items[j]) is Ok),
                Some(_) => e.index == 0 && e.err@ == mism("chain"@),
                None => false,
            }),
        },
{
    match v {
        Value::Obj(fields) => {
            let inbound: Vec<InMapConfig> = match crate::doc::get_field(fields, "inbound") {
                None => Vec::new(),
                Some(lv) => match decode_in_chain(lv) {
                    Ok(cs) => cs,
                    Err(e) => {
                        return Err(DocumentError::BadInbound(e));
                    },
                },
            };
            let outbound: Vec<OutMapConfig> = match crate::doc::get_field(fields, "outbound") {
                None => Vec::new(),
                Some(lv) => match decode_out_chain(lv) {
                    Ok(cs) => cs,
                    Err(e) => {
                        return Err(DocumentError::BadOutbound(e));
                    },
                },
            };
            Ok(ConfigDocument { inbound, outbound })
        },
        _ => Err(DocumentError::NotAnObject),
    }
}

/// Validates both chains of a configuration: the inbound chain must start
/// with its one source stage, the outbound chain must end with its one
/// terminal stage.
pub fn validate_document(d: &ConfigDocument) -> (r: Result<(), ChainError>)
    ensures
        r is Ok <==> in_chain_ok(d.inbound.deep_view()) && out_chain_ok(d.outbound.deep_view()),
{
    match validate_in_chain(&d.inbound) {
        Ok(()) => validate_out_chain(&d.outbound),
        Err(e) => Err(e),
    }
}

} // verus!
