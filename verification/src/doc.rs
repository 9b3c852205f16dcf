//! The structured, JSON-compatible document model.
//!
//! A configuration document is a tree of [`Value`]s.  An object denotes a
//! finite map from field names to values; when a name occurs twice, the last
//! occurrence wins.  The mathematical meaning of a document is a
//! [`SpecValue`], reached through [`Value::view`].

use vstd::prelude::*;

verus! {

/// An executable document value: booleans, integers, strings, arrays and
/// objects.  Objects keep their fields in writing order.
#[derive(Debug)]
pub enum Value {
    Bool(bool),
    Int(i128),
    Str(String),
    Arr(Vec<Value>),
    Obj(Vec<(String, Value)>),
}

/// The mathematical meaning of a document value.  An object is a map from
/// field names to meanings; its writing order is not part of the meaning.
pub enum SpecValue {
    Bool(bool),
    Int(i128),
    Str(Seq<char>),
    Arr(Seq<SpecValue>),
    Obj(Map<Seq<char>, SpecValue>),
}

/// Meaning of one executable value.
pub open spec fn val_view(v: Value) -> SpecValue
    decreases v,
{
    match v {
        Value::Bool(b) => SpecValue::Bool(b),
        Value::Int(i) => SpecValue::Int(i),
        Value::Str(s) => SpecValue::Str(s@),
        Value::Arr(items) => SpecValue::Arr(arr_view(items@)),
        Value::Obj(fields) => SpecValue::Obj(obj_view(fields@)),
    }
}

/// Meaning of an array body, element by element.
pub open spec fn arr_view(s: Seq<Value>) -> Seq<SpecValue>
    decreases s,
{
    if s.len() == 0 {
        Seq::empty()
    } else {
        arr_view(s.subrange(0, s.len() - 1)).push(val_view(s[s.len() - 1]))
    }
}

/// Meaning of an object body: later occurrences of a name override earlier
/// ones.
pub open spec fn obj_view(s: Seq<(String, Value)>) -> Map<Seq<char>, SpecValue>
    decreases s,
{
    if s.len() == 0 {
        Map::empty()
    } else {
        obj_view(s.subrange(0, s.len() - 1)).insert(
            s[s.len() - 1].0@,
            val_view(s[s.len() - 1].1),
        )
    }
}

impl View for Value {
    type V = SpecValue;

    open spec fn view(&self) -> SpecValue {
        val_view(*self)
    }
}

pub broadcast proof fn lemma_arr_view_len(s: Seq<Value>)
    ensures
        #[trigger] arr_view(s).len() == s.len(),
    decreases s,
{
    if s.len() > 0 {
        lemma_arr_view_len(s.subrange(0, s.len() - 1));
    }
}

pub broadcast proof fn lemma_arr_view_index(s: Seq<Value>, i: int)
    requires
        0 <= i < s.len(),
    ensures
        #[trigger] arr_view(s)[i] == val_view(s[i]),
    decreases s,
{
    lemma_arr_view_len(s);
    if i < s.len() - 1 {
        lemma_arr_view_index(s.subrange(0, s.len() - 1), i);
    } else {
        lemma_arr_view_len(s.subrange(0, s.len() - 1));
    }
}

/// Looking a key up in a map, as an `Option`.
pub open spec fn get_opt<K, V>(m: Map<K, V>, k: K) -> Option<V> {
    if m.contains_key(k) {
        Some(m[k])
    } else {
        None
    }
}

/// Looking a name up in the meaning of an object, as an `Option`.
pub open spec fn get_of(m: Map<Seq<char>, SpecValue>, n: Seq<char>) -> Option<SpecValue> {
    get_opt(m, n)
}

/// String equality decided on the character sequences.
pub fn string_eq(a: &String, b: &String) -> (r: bool)
    ensures
        r == (a@ == b@),
{
    a.eq(b)
}

/// Finds the value of a field by name; the last occurrence of the name wins,
/// matching the meaning given by [`obj_view`].
pub fn get_field<'a>(fields: &'a Vec<(String, Value)>, name: &str) -> (r: Option<&'a Value>)
    ensures
        match r {
            Some(v) => get_of(obj_view(fields@), name@) == Some(val_view(*v)),
            None => get_of(obj_view(fields@), name@) is None,
        },
{
    let key = String::from_str(name);
    let ghost all: Seq<(String, Value)> = fields@;
    let mut i: usize = fields.len();
    proof {
        assert(all.subrange(0, all.len() as int) =~= all);
    }
    while i > 0
        invariant
            i <= fields.len(),
            all == fields@,
            key@ == name@,
            get_of(obj_view(all), name@) == get_of(obj_view(all.subrange(0, i as int)), name@),
        decreases i,
    {
        i = i - 1;
        let ghost pre: Seq<(String, Value)> = all.subrange(0, i as int + 1);
        proof {
            assert(pre.subrange(0, pre.len() - 1) =~= all.subrange(0, i as int));
            assert(pre[pre.len() - 1] == all[i as int]);
            assert(obj_view(pre) == obj_view(all.subrange(0, i as int)).insert(
                all[i as int].0@,
                val_view(all[i as int].1),
            ));
            assert(get_of(obj_view(all), name@) == get_of(obj_view(pre), name@));
        }
        if string_eq(&fields[i].0, &key) {
            return Some(&fields[i].1);
        }
    }
    proof {
        assert(all.subrange(0, 0) =~= Seq::<(String, Value)>::empty());
    }
    None
}

} // verus!
