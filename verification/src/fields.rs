//! Field-level pieces of the codec.
//!
//! Encoding writes a sparse document: a field whose value equals its
//! documented default is omitted.  Decoding reads a sparse document: an
//! absent field resolves to that default, and a present field must have the
//! right shape, or a typed error names it.

use vstd::prelude::*;

use crate::doc::{arr_view, obj_view, get_of, get_field, val_view, SpecValue, Value};

verus! {

/// What went wrong while decoding a document.
#[derive(Debug, Clone, Copy, PartialEq, Eq, Structural)]
pub enum ErrKind {
    /// A discriminant or enum spelling that is not part of the schema.
    UnknownVariant,
    /// A field with no default was absent.
    MissingField,
    /// A field was present with the wrong shape.
    TypeMismatch,
    /// A numeric field was present but out of its range.
    ValueRange,
}

/// A typed decode error: the kind, and the field name or discriminant that
/// caused it.
#[derive(Debug, Clone, PartialEq)]
pub struct DecodeErr {
    pub kind: ErrKind,
    pub path: String,
}

/// The mathematical meaning of a decode error.
pub struct ErrV {
    pub kind: ErrKind,
    pub path: Seq<char>,
}

impl View for DecodeErr {
    type V = ErrV;

    open spec fn view(&self) -> ErrV {
        ErrV { kind: self.kind, path: self.path@ }
    }
}

impl DeepView for DecodeErr {
    type V = ErrV;

    open spec fn deep_view(&self) -> ErrV {
        self.view()
    }
}

/// Meaning of a decode result, with both sides taken to their models.
pub open spec fn dres<T: DeepView>(r: Result<T, DecodeErr>) -> Result<T::V, ErrV> {
    match r {
        Ok(t) => Ok(t.deep_view()),
        Err(e) => Err(e@),
    }
}

pub open spec fn mism(n: Seq<char>) -> ErrV {
    ErrV { kind: ErrKind::TypeMismatch, path: n }
}

pub open spec fn missing(n: Seq<char>) -> ErrV {
    ErrV { kind: ErrKind::MissingField, path: n }
}

pub open spec fn range_err(n: Seq<char>) -> ErrV {
    ErrV { kind: ErrKind::ValueRange, path: n }
}

pub open spec fn unknown(n: Seq<char>) -> ErrV {
    ErrV { kind: ErrKind::UnknownVariant, path: n }
}

pub fn mism_at(n: &str) -> (e: DecodeErr)
    ensures
        e@ == mism(n@),
{
    DecodeErr { kind: ErrKind::TypeMismatch, path: String::from_str(n) }
}

pub fn missing_at(n: &str) -> (e: DecodeErr)
    ensures
        e@ == missing(n@),
{
    DecodeErr { kind: ErrKind::MissingField, path: String::from_str(n) }
}

pub fn range_at(n: &str) -> (e: DecodeErr)
    ensures
        e@ == range_err(n@),
{
    DecodeErr { kind: ErrKind::ValueRange, path: String::from_str(n) }
}

pub fn unknown_at(n: &String) -> (e: DecodeErr)
    ensures
        e@ == unknown(n@),
{
    DecodeErr { kind: ErrKind::UnknownVariant, path: n.clone() }
}

// ---------------------------------------------------------------------------
// Spec-level decoding of one field from an object's meaning.
// ---------------------------------------------------------------------------

/// An optional string field: absent means `None`.
pub open spec fn d_opt_str(m: Map<Seq<char>, SpecValue>, n: Seq<char>) -> Result<
    Option<Seq<char>>,
    ErrV,
> {
    match get_of(m, n) {
        None => Ok(None),
        Some(SpecValue::Str(s)) => Ok(Some(s)),
        Some(_) => Err(mism(n)),
    }
}

/// A required string field: absent is an error.
pub open spec fn d_req_str(m: Map<Seq<char>, SpecValue>, n: Seq<char>) -> Result<
    Seq<char>,
    ErrV,
> {
    match get_of(m, n) {
        None => Err(missing(n)),
        Some(SpecValue::Str(s)) => Ok(s),
        Some(_) => Err(mism(n)),
    }
}

/// A flag field whose default is `false`.
pub open spec fn d_bool(m: Map<Seq<char>, SpecValue>, n: Seq<char>) -> Result<bool, ErrV> {
    match get_of(m, n) {
        None => Ok(false),
        Some(SpecValue::Bool(b)) => Ok(b),
        Some(_) => Err(mism(n)),
    }
}

/// An optional integer field within `[lo, hi]`; no default.
pub open spec fn d_opt_int(m: Map<Seq<char>, SpecValue>, n: Seq<char>, lo: i128, hi: i128)
    -> Result<Option<i128>, ErrV> {
    match get_of(m, n) {
        None => Ok(None),
        Some(SpecValue::Int(i)) => if lo <= i && i <= hi {
            Ok(Some(i))
        } else {
            Err(range_err(n))
        },
        Some(_) => Err(mism(n)),
    }
}

/// A required integer field within `[lo, hi]`.
pub open spec fn d_req_int(m: Map<Seq<char>, SpecValue>, n: Seq<char>, lo: i128, hi: i128)
    -> Result<i128, ErrV> {
    match get_of(m, n) {
        None => Err(missing(n)),
        Some(SpecValue::Int(i)) => if lo <= i && i <= hi {
            Ok(i)
        } else {
            Err(range_err(n))
        },
        Some(_) => Err(mism(n)),
    }
}

pub open spec fn all_str(s: Seq<SpecValue>) -> bool {
    forall|i: int| 0 <= i < s.len() ==> s[i] is Str
}

pub open spec fn strs_of(s: Seq<SpecValue>) -> Seq<Seq<char>> {
    Seq::new(s.len(), |i: int| s[i]->Str_0)
}

/// A string-list field: absent means the empty list.
pub open spec fn d_str_list(m: Map<Seq<char>, SpecValue>, n: Seq<char>) -> Result<
    Seq<Seq<char>>,
    ErrV,
> {
    match get_of(m, n) {
        None => Ok(Seq::empty()),
        Some(SpecValue::Arr(items)) => if all_str(items) {
            Ok(strs_of(items))
        } else {
            Err(mism(n))
        },
        Some(_) => Err(mism(n)),
    }
}

pub open spec fn is_str_pair(v: SpecValue) -> bool {
    v is Arr && v->Arr_0.len() == 2 && v->Arr_0[0] is Str && v->Arr_0[1] is Str
}

pub open spec fn all_str_pairs(s: Seq<SpecValue>) -> bool {
    forall|i: int| 0 <= i < s.len() ==> is_str_pair(#[trigger] s[i])
}

pub open spec fn pairs_of(s: Seq<SpecValue>) -> Seq<(Seq<char>, Seq<char>)> {
    Seq::new(s.len(), |i: int| (s[i]->Arr_0[0]->Str_0, s[i]->Arr_0[1]->Str_0))
}

/// A list of string pairs, written as an array of two-element arrays;
/// absent means the empty list.
pub open spec fn d_pair_list(m: Map<Seq<char>, SpecValue>, n: Seq<char>) -> Result<
    Seq<(Seq<char>, Seq<char>)>,
    ErrV,
> {
    match get_of(m, n) {
        None => Ok(Seq::empty()),
        Some(SpecValue::Arr(items)) => if all_str_pairs(items) {
            Ok(pairs_of(items))
        } else {
            Err(mism(n))
        },
        Some(_) => Err(mism(n)),
    }
}

// ---------------------------------------------------------------------------
// Spec-level encoding of one field into an object's meaning.
// ---------------------------------------------------------------------------

pub open spec fn pf_opt_str(m: Map<Seq<char>, SpecValue>, n: Seq<char>, v: Option<Seq<char>>)
    -> Map<Seq<char>, SpecValue> {
    match v {
        None => m,
        Some(s) => m.insert(n, SpecValue::Str(s)),
    }
}

pub open spec fn pf_req_str(m: Map<Seq<char>, SpecValue>, n: Seq<char>, v: Seq<char>) -> Map<
    Seq<char>,
    SpecValue,
> {
    m.insert(n, SpecValue::Str(v))
}

pub open spec fn pf_bool(m: Map<Seq<char>, SpecValue>, n: Seq<char>, v: bool) -> Map<
    Seq<char>,
    SpecValue,
> {
    if v {
        m.insert(n, SpecValue::Bool(true))
    } else {
        m
    }
}

pub open spec fn pf_opt_int(m: Map<Seq<char>, SpecValue>, n: Seq<char>, v: Option<i128>) -> Map<
    Seq<char>,
    SpecValue,
> {
    match v {
        None => m,
        Some(i) => m.insert(n, SpecValue::Int(i)),
    }
}

pub open spec fn pf_int(m: Map<Seq<char>, SpecValue>, n: Seq<char>, v: i128) -> Map<
    Seq<char>,
    SpecValue,
> {
    m.insert(n, SpecValue::Int(v))
}

pub open spec fn str_vals(s: Seq<Seq<char>>) -> Seq<SpecValue> {
    Seq::new(s.len(), |i: int| SpecValue::Str(s[i]))
}

pub open spec fn pf_str_list(m: Map<Seq<char>, SpecValue>, n: Seq<char>, v: Seq<Seq<char>>)
    -> Map<Seq<char>, SpecValue> {
    if v.len() == 0 {
        m
    } else {
        m.insert(n, SpecValue::Arr(str_vals(v)))
    }
}

pub open spec fn pair_vals(s: Seq<(Seq<char>, Seq<char>)>) -> Seq<SpecValue> {
    Seq::new(s.len(), |i: int| SpecValue::Arr(seq![SpecValue::Str(s[i].0), SpecValue::Str(s[i].1)]))
}

pub open spec fn pf_pair_list(
    m: Map<Seq<char>, SpecValue>,
    n: Seq<char>,
    v: Seq<(Seq<char>, Seq<char>)>,
) -> Map<Seq<char>, SpecValue> {
    if v.len() == 0 {
        m
    } else {
        m.insert(n, SpecValue::Arr(pair_vals(v)))
    }
}

pub open spec fn pf_val(m: Map<Seq<char>, SpecValue>, n: Seq<char>, v: SpecValue) -> Map<
    Seq<char>,
    SpecValue,
> {
    m.insert(n, v)
}

// ---------------------------------------------------------------------------
// Executable encoding helpers.  Each pushes at most one field and relates
// the new object meaning to the old through its `pf_` counterpart.
// ---------------------------------------------------------------------------

pub proof fn lemma_obj_push(s: Seq<(String, Value)>, e: (String, Value))
    ensures
        obj_view(s.push(e)) == obj_view(s).insert(e.0@, val_view(e.1)),
{
    let t = s.push(e);
    assert(t.subrange(0, t.len() - 1) =~= s);
}

pub fn put_opt_str(out: &mut Vec<(String, Value)>, name: &str, v: &Option<String>)
    ensures
        obj_view(final(out)@) == pf_opt_str(obj_view(old(out)@), name@, v.deep_view()),
{
    match v {
        None => (),
        Some(s) => {
            let entry = (String::from_str(name), Value::Str(s.clone()));
            proof {
                lemma_obj_push(out@, entry);
            }
            out.push(entry);
        },
    }
}

pub fn put_req_str(out: &mut Vec<(String, Value)>, name: &str, v: &String)
    ensures
        obj_view(final(out)@) == pf_req_str(obj_view(old(out)@), name@, v@),
{
    let entry = (String::from_str(name), Value::Str(v.clone()));
    proof {
        lemma_obj_push(out@, entry);
    }
    out.push(entry);
}

pub fn put_bool(out: &mut Vec<(String, Value)>, name: &str, v: bool)
    ensures
        obj_view(final(out)@) == pf_bool(obj_view(old(out)@), name@, v),
{
    if v {
        let entry = (String::from_str(name), Value::Bool(true));
        proof {
            lemma_obj_push(out@, entry);
        }
        out.push(entry);
    }
}

pub fn put_int(out: &mut Vec<(String, Value)>, name: &str, v: i128)
    ensures
        obj_view(final(out)@) == pf_int(obj_view(old(out)@), name@, v),
{
    let entry = (String::from_str(name), Value::Int(v));
    proof {
        lemma_obj_push(out@, entry);
    }
    out.push(entry);
}

/// Writes a field holding a fixed spelling.
pub fn put_lit_str(out: &mut Vec<(String, Value)>, name: &str, v: &str)
    ensures
        obj_view(final(out)@) == pf_req_str(obj_view(old(out)@), name@, v@),
{
    let entry = (String::from_str(name), Value::Str(String::from_str(v)));
    proof {
        lemma_obj_push(out@, entry);
    }
    out.push(entry);
}

/// Whether a string holds a given spelling.
pub fn str_is(s: &String, lit: &str) -> (r: bool)
    ensures
        r == (s@ == lit@),
{
    crate::doc::string_eq(s, &String::from_str(lit))
}

pub fn put_val(out: &mut Vec<(String, Value)>, name: &str, v: Value)
    ensures
        obj_view(final(out)@) == pf_val(obj_view(old(out)@), name@, val_view(v)),
{
    let entry = (String::from_str(name), v);
    proof {
        lemma_obj_push(out@, entry);
    }
    out.push(entry);
}

pub fn put_str_list(out: &mut Vec<(String, Value)>, name: &str, v: &Vec<String>)
    ensures
        obj_view(final(out)@) == pf_str_list(obj_view(old(out)@), name@, v.deep_view()),
{
    if v.len() > 0 {
        let mut items: Vec<Value> = Vec::new();
        let mut i: usize = 0;
        while i < v.len()
            invariant
                i <= v.len(),
                arr_view(items@) =~= str_vals(v.deep_view().take(i as int)),
            decreases v.len() - i,
        {
            let ghost before: Seq<Value> = items@;
            let val = Value::Str(v[i].clone());
            let ghost gval: Value = val;
            proof {
                assert(val_view(gval) == SpecValue::Str(v.deep_view()[i as int]));
            }
            items.push(val);
            proof {
                assert(items@.subrange(0, items@.len() - 1) =~= before);
                assert(items@[items@.len() - 1] == gval);
                assert(arr_view(items@) == arr_view(before).push(val_view(gval)));
                assert(arr_view(items@) =~= str_vals(v.deep_view().take(i as int + 1)));
            }
            i = i + 1;
        }
        let entry = (String::from_str(name), Value::Arr(items));
        proof {
            assert(v.deep_view().take(v.len() as int) =~= v.deep_view());
            lemma_obj_push(out@, entry);
        }
        out.push(entry);
    }
}

pub fn put_pair_list(out: &mut Vec<(String, Value)>, name: &str, v: &Vec<(String, String)>)
    ensures
        obj_view(final(out)@) == pf_pair_list(obj_view(old(out)@), name@, v.deep_view()),
{
    if v.len() > 0 {
        let mut items: Vec<Value> = Vec::new();
        let mut i: usize = 0;
        while i < v.len()
            invariant
                i <= v.len(),
                arr_view(items@) =~= pair_vals(v.deep_view().take(i as int)),
            decreases v.len() - i,
        {
            let ghost before: Seq<Value> = items@;
            let mut pair: Vec<Value> = Vec::new();
            pair.push(Value::Str(v[i].0.clone()));
            pair.push(Value::Str(v[i].1.clone()));
            let val = Value::Arr(pair);
            let ghost gval: Value = val;
            proof {
                reveal_with_fuel(arr_view, 3);
                let pv = gval->Arr_0@;
                assert(pv.subrange(0, 0) =~= Seq::<Value>::empty());
                assert(pv.subrange(0, 1)[0] == pv[0]);
                assert(pv.subrange(0, 1).subrange(0, 0) =~= Seq::<Value>::empty());
                assert(arr_view(pv) == Seq::<SpecValue>::empty().push(val_view(pv[0])).push(
                    val_view(pv[1]),
                ));
                assert(val_view(pv[0]) == SpecValue::Str(v.deep_view()[i as int].0));
                assert(val_view(pv[1]) == SpecValue::Str(v.deep_view()[i as int].1));
                assert(arr_view(pv) =~= seq![
                    SpecValue::Str(v.deep_view()[i as int].0),
                    SpecValue::Str(v.deep_view()[i as int].1),
                ]);
                assert(val_view(gval) == SpecValue::Arr(seq![
                    SpecValue::Str(v.deep_view()[i as int].0),
                    SpecValue::Str(v.deep_view()[i as int].1),
                ]));
            }
            items.push(val);
            proof {
                assert(items@.subrange(0, items@.len() - 1) =~= before);
                assert(items@[items@.len() - 1] == gval);
                assert(arr_view(items@) == arr_view(before).push(val_view(gval)));
                assert(pair_vals(v.deep_view().take(i as int + 1))[i as int] == SpecValue::Arr(seq![
                    SpecValue::Str(v.deep_view()[i as int].0),
                    SpecValue::Str(v.deep_view()[i as int].1),
                ]));
                assert(arr_view(items@) =~= pair_vals(v.deep_view().take(i as int + 1)));
            }
            i = i + 1;
        }
        let entry = (String::from_str(name), Value::Arr(items));
        proof {
            assert(v.deep_view().take(v.len() as int) =~= v.deep_view());
            lemma_obj_push(out@, entry);
        }
        out.push(entry);
    }
}

// ---------------------------------------------------------------------------
// Executable decoding helpers, each proved against its `d_` counterpart.
// ---------------------------------------------------------------------------

pub fn d_opt_str_x(f: &Vec<(String, Value)>, name: &str) -> (r: Result<Option<String>, DecodeErr>)
    ensures
        dres(r) == d_opt_str(obj_view(f@), name@),
{
    match get_field(f, name) {
        None => Ok(None),
        Some(Value::Str(s)) => Ok(Some(s.clone())),
        Some(_) => Err(mism_at(name)),
    }
}

pub fn d_req_str_x(f: &Vec<(String, Value)>, name: &str) -> (r: Result<String, DecodeErr>)
    ensures
        dres(r) == d_req_str(obj_view(f@), name@),
{
    match get_field(f, name) {
        None => Err(missing_at(name)),
        Some(Value::Str(s)) => Ok(s.clone()),
        Some(_) => Err(mism_at(name)),
    }
}

pub fn d_bool_x(f: &Vec<(String, Value)>, name: &str) -> (r: Result<bool, DecodeErr>)
    ensures
        dres(r) == d_bool(obj_view(f@), name@),
{
    match get_field(f, name) {
        None => Ok(false),
        Some(Value::Bool(b)) => Ok(*b),
        Some(_) => Err(mism_at(name)),
    }
}

pub fn d_opt_u64_x(f: &Vec<(String, Value)>, name: &str) -> (r: Result<Option<u64>, DecodeErr>)
    ensures
        dres(r) == d_opt_u64(obj_view(f@), name@),
{
    match get_field(f, name) {
        None => Ok(None),
        Some(Value::Int(i)) => {
            if 0 <= *i && *i <= u64::MAX as i128 {
                Ok(Some(*i as u64))
            } else {
                Err(range_at(name))
            }
        },
        Some(_) => Err(mism_at(name)),
    }
}

pub fn d_opt_u16_x(f: &Vec<(String, Value)>, name: &str) -> (r: Result<Option<u16>, DecodeErr>)
    ensures
        dres(r) == d_opt_u16(obj_view(f@), name@),
{
    match get_field(f, name) {
        None => Ok(None),
        Some(Value::Int(i)) => {
            if 0 <= *i && *i <= u16::MAX as i128 {
                Ok(Some(*i as u16))
            } else {
                Err(range_at(name))
            }
        },
        Some(_) => Err(mism_at(name)),
    }
}

pub fn d_opt_u8_x(f: &Vec<(String, Value)>, name: &str) -> (r: Result<Option<u8>, DecodeErr>)
    ensures
        dres(r) == d_opt_u8(obj_view(f@), name@),
{
    match get_field(f, name) {
        None => Ok(None),
        Some(Value::Int(i)) => {
            if 0 <= *i && *i <= u8::MAX as i128 {
                Ok(Some(*i as u8))
            } else {
                Err(range_at(name))
            }
        },
        Some(_) => Err(mism_at(name)),
    }
}

pub fn d_opt_usize_x(f: &Vec<(String, Value)>, name: &str) -> (r: Result<Option<usize>, DecodeErr>)
    ensures
        dres(r) == d_opt_usize(obj_view(f@), name@),
{
    match get_field(f, name) {
        None => Ok(None),
        Some(Value::Int(i)) => {
            if 0 <= *i && *i <= usize::MAX as i128 {
                Ok(Some(*i as usize))
            } else {
                Err(range_at(name))
            }
        },
        Some(_) => Err(mism_at(name)),
    }
}

pub fn d_i8_x(f: &Vec<(String, Value)>, name: &str) -> (r: Result<i8, DecodeErr>)
    ensures
        dres(r) == d_req_i8(obj_view(f@), name@),
{
    match get_field(f, name) {
        None => Err(missing_at(name)),
        Some(Value::Int(i)) => {
            if i8::MIN as i128 <= *i && *i <= i8::MAX as i128 {
                Ok(*i as i8)
            } else {
                Err(range_at(name))
            }
        },
        Some(_) => Err(mism_at(name)),
    }
}

pub fn d_str_list_x(f: &Vec<(String, Value)>, name: &str) -> (r: Result<Vec<String>, DecodeErr>)
    ensures
        dres(r) == d_str_list(obj_view(f@), name@),
{
    match get_field(f, name) {
        None => {
            let out: Vec<String> = Vec::new();
            proof {
                assert(out.deep_view() =~= Seq::<Seq<char>>::empty());
            }
            Ok(out)
        },
        Some(Value::Arr(items)) => {
            let ghost iv: Seq<SpecValue> = arr_view(items@);
            proof {
                crate::doc::lemma_arr_view_len(items@);
            }
            let mut out: Vec<String> = Vec::new();
            let mut i: usize = 0;
            while i < items.len()
                invariant
                    i <= items.len(),
                    iv == arr_view(items@),
                    iv.len() == items@.len(),
                    get_of(obj_view(f@), name@) == Some(SpecValue::Arr(iv)),
                    forall|j: int| 0 <= j < i ==> iv[j] is Str,
                    out.deep_view() =~= strs_of(iv).take(i as int),
                decreases items.len() - i,
            {
                proof {
                    crate::doc::lemma_arr_view_index(items@, i as int);
                }
                match &items[i] {
                    Value::Str(s) => {
                        proof {
                            assert(iv[i as int] == SpecValue::Str(s@));
                        }
                        let ghost outb: Seq<Seq<char>> = out.deep_view();
                        out.push(s.clone());
                        proof {
                            assert(out@.subrange(0, out@.len() - 1) =~= out@.take(out@.len() - 1));
                            assert(out.deep_view() =~= outb.push(s@));
                            assert(out.deep_view() =~= strs_of(iv).take(i as int + 1));
                        }
                    },
                    _ => {
                        proof {
                            assert(!(iv[i as int] is Str));
                        }
                        return Err(mism_at(name));
                    },
                }
                i = i + 1;
            }
            proof {
                assert(all_str(iv));
                assert(strs_of(iv).take(items@.len() as int) =~= strs_of(iv));
            }
            Ok(out)
        },
        Some(_) => Err(mism_at(name)),
    }
}

pub fn d_pair_list_x(f: &Vec<(String, Value)>, name: &str) -> (r: Result<
    Vec<(String, String)>,
    DecodeErr,
>)
    ensures
        dres(r) == d_pair_list(obj_view(f@), name@),
{
    match get_field(f, name) {
        None => {
            let out: Vec<(String, String)> = Vec::new();
            proof {
                assert(out.deep_view() =~= Seq::<(Seq<char>, Seq<char>)>::empty());
            }
            Ok(out)
        },
        Some(Value::Arr(items)) => {
            let ghost iv: Seq<SpecValue> = arr_view(items@);
            proof {
                crate::doc::lemma_arr_view_len(items@);
            }
            let mut out: Vec<(String, String)> = Vec::new();
            let mut i: usize = 0;
            while i < items.len()
                invariant
                    i <= items.len(),
                    iv == arr_view(items@),
                    iv.len() == items@.len(),
                    get_of(obj_view(f@), name@) == Some(SpecValue::Arr(iv)),
                    forall|j: int| 0 <= j < i ==> is_str_pair(#[trigger] iv[j]),
                    out.deep_view() =~= pairs_of(iv).take(i as int),
                decreases items.len() - i,
            {
                proof {
                    crate::doc::lemma_arr_view_index(items@, i as int);
                }
                match &items[i] {
                    Value::Arr(pair) => {
                        proof {
                            crate::doc::lemma_arr_view_len(pair@);
                        }
                        if pair.len() != 2 {
                            proof {
                                assert(!is_str_pair(iv[i as int]));
                            }
                            return Err(mism_at(name));
                        }
                        proof {
                            crate::doc::lemma_arr_view_index(pair@, 0);
                            crate::doc::lemma_arr_view_index(pair@, 1);
                        }
                        match (&pair[0], &pair[1]) {
                            (Value::Str(a), Value::Str(b)) => {
                                proof {
                                    assert(iv[i as int]->Arr_0[0] == SpecValue::Str(a@));
                                    assert(iv[i as int]->Arr_0[1] == SpecValue::Str(b@));
                                    assert(pairs_of(iv)[i as int] == (a@, b@));
                                }
                                let ghost outb: Seq<(Seq<char>, Seq<char>)> = out.deep_view();
                                out.push((a.clone(), b.clone()));
                                proof {
                                    assert(out.deep_view() =~= outb.push((a@, b@)));
                                    assert(out.deep_view() =~= pairs_of(iv).take(i as int + 1));
                                }
                            },
                            _ => {
                                proof {
                                    assert(!is_str_pair(iv[i as int]));
                                }
                                return Err(mism_at(name));
                            },
                        }
                    },
                    _ => {
                        proof {
                            assert(!is_str_pair(iv[i as int]));
                        }
                        return Err(mism_at(name));
                    },
                }
                i = i + 1;
            }
            proof {
                assert(all_str_pairs(iv));
                assert(pairs_of(iv).take(items@.len() as int) =~= pairs_of(iv));
            }
            Ok(out)
        },
        Some(_) => Err(mism_at(name)),
    }
}

// ---------------------------------------------------------------------------
// Width-specific integer fields.
// ---------------------------------------------------------------------------

pub open spec fn d_opt_u64(m: Map<Seq<char>, SpecValue>, n: Seq<char>) -> Result<
    Option<u64>,
    ErrV,
> {
    match d_opt_int(m, n, 0, u64::MAX as i128) {
        Ok(None) => Ok(None),
        Ok(Some(i)) => Ok(Some(i as u64)),
        Err(e) => Err(e),
    }
}

pub open spec fn d_opt_u16(m: Map<Seq<char>, SpecValue>, n: Seq<char>) -> Result<
    Option<u16>,
    ErrV,
> {
    match d_opt_int(m, n, 0, u16::MAX as i128) {
        Ok(None) => Ok(None),
        Ok(Some(i)) => Ok(Some(i as u16)),
        Err(e) => Err(e),
    }
}

pub open spec fn d_opt_u8(m: Map<Seq<char>, SpecValue>, n: Seq<char>) -> Result<
    Option<u8>,
    ErrV,
> {
    match d_opt_int(m, n, 0, u8::MAX as i128) {
        Ok(None) => Ok(None),
        Ok(Some(i)) => Ok(Some(i as u8)),
        Err(e) => Err(e),
    }
}

pub open spec fn d_opt_usize(m: Map<Seq<char>, SpecValue>, n: Seq<char>) -> Result<
    Option<usize>,
    ErrV,
> {
    match d_opt_int(m, n, 0, usize::MAX as i128) {
        Ok(None) => Ok(None),
        Ok(Some(i)) => Ok(Some(i as usize)),
        Err(e) => Err(e),
    }
}

pub open spec fn d_req_i8(m: Map<Seq<char>, SpecValue>, n: Seq<char>) -> Result<i8, ErrV> {
    match d_req_int(m, n, i8::MIN as i128, i8::MAX as i128) {
        Ok(i) => Ok(i as i8),
        Err(e) => Err(e),
    }
}

pub open spec fn pf_opt_u64(m: Map<Seq<char>, SpecValue>, n: Seq<char>, v: Option<u64>) -> Map<
    Seq<char>,
    SpecValue,
> {
    match v {
        None => m,
        Some(x) => m.insert(n, SpecValue::Int(x as i128)),
    }
}

pub open spec fn pf_opt_u16(m: Map<Seq<char>, SpecValue>, n: Seq<char>, v: Option<u16>) -> Map<
    Seq<char>,
    SpecValue,
> {
    match v {
        None => m,
        Some(x) => m.insert(n, SpecValue::Int(x as i128)),
    }
}

pub open spec fn pf_opt_u8(m: Map<Seq<char>, SpecValue>, n: Seq<char>, v: Option<u8>) -> Map<
    Seq<char>,
    SpecValue,
> {
    match v {
        None => m,
        Some(x) => m.insert(n, SpecValue::Int(x as i128)),
    }
}

pub open spec fn pf_opt_usize(m: Map<Seq<char>, SpecValue>, n: Seq<char>, v: Option<usize>)
    -> Map<Seq<char>, SpecValue> {
    match v {
        None => m,
        Some(x) => m.insert(n, SpecValue::Int(x as i128)),
    }
}

pub fn put_opt_u64(out: &mut Vec<(String, Value)>, name: &str, v: &Option<u64>)
    ensures
        obj_view(final(out)@) == pf_opt_u64(obj_view(old(out)@), name@, *v),
{
    match v {
        None => (),
        Some(x) => put_int(out, name, *x as i128),
    }
}

pub fn put_opt_u16(out: &mut Vec<(String, Value)>, name: &str, v: &Option<u16>)
    ensures
        obj_view(final(out)@) == pf_opt_u16(obj_view(old(out)@), name@, *v),
{
    match v {
        None => (),
        Some(x) => put_int(out, name, *x as i128),
    }
}

pub fn put_opt_u8(out: &mut Vec<(String, Value)>, name: &str, v: &Option<u8>)
    ensures
        obj_view(final(out)@) == pf_opt_u8(obj_view(old(out)@), name@, *v),
{
    match v {
        None => (),
        Some(x) => put_int(out, name, *x as i128),
    }
}

pub fn put_opt_usize(out: &mut Vec<(String, Value)>, name: &str, v: &Option<usize>)
    ensures
        obj_view(final(out)@) == pf_opt_usize(obj_view(old(out)@), name@, *v),
{
    match v {
        None => (),
        Some(x) => put_int(out, name, *x as i128),
    }
}

} // verus!
