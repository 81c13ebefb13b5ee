//! A JSON document tree.
//!
//! The provider's payload is parsed into this tree first; the schema
//! layer then reads the tree into the typed forecast model.  Numbers are
//! kept as exact decimals ([`Dec`]), so a value echoes back exactly as it
//! arrived.

use crate::dec::Dec;
use crate::strutil::str_eq;
use vstd::prelude::*;

verus! {

broadcast use vstd::std_specs::vec::group_vec_axioms;

/// A JSON value.  An object keeps its bindings in wire order; when a key
/// is bound twice, lookups read the first binding.
pub enum Json {
    Null,
    Bool(bool),
    Num(Dec),
    Str(String),
    Arr(Vec<Json>),
    Obj(Vec<(String, Json)>),
}

/// The mathematical model of a JSON value.
pub enum JsonV {
    Null,
    Bool(bool),
    Num(Dec),
    Str(Seq<char>),
    Arr(Seq<JsonV>),
    Obj(Seq<(Seq<char>, JsonV)>),
}

pub open spec fn json_view(j: Json) -> JsonV
    decreases j via json_view_dec
{
    match j {
        Json::Null => JsonV::Null,
        Json::Bool(b) => JsonV::Bool(b),
        Json::Num(d) => JsonV::Num(d),
        Json::Str(s) => JsonV::Str(s@),
        Json::Arr(v) => JsonV::Arr(
            Seq::new(
                v@.len(),
                |i: int|
                    if 0 <= i < v@.len() {
                        json_view(v@[i])
                    } else {
                        JsonV::Null
                    },
            ),
        ),
        Json::Obj(v) => JsonV::Obj(
            Seq::new(
                v@.len(),
                |i: int|
                    (
                        v@[i].0@,
                        if 0 <= i < v@.len() {
                            json_view(v@[i].1)
                        } else {
                            JsonV::Null
                        },
                    ),
            ),
        ),
    }
}

#[via_fn]
proof fn json_view_dec(j: Json) {
    match j {
        Json::Arr(v) => {
            assert forall|i: int| 0 <= i < v@.len() implies decreases_to!(j => v@[i]) by {
                assert(decreases_to!(j => v));
                assert(decreases_to!(v => v@));
                assert(decreases_to!(v@ => v@[i]));
            }
        },
        Json::Obj(v) => {
            assert forall|i: int| 0 <= i < v@.len() implies decreases_to!(j => v@[i].1) by {
                assert(decreases_to!(j => v));
                assert(decreases_to!(v => v@));
                assert(decreases_to!(v@ => v@[i]));
                assert(decreases_to!(v@[i] => v@[i].1));
            }
        },
        _ => {},
    }
}

impl View for Json {
    type V = JsonV;

    open spec fn view(&self) -> JsonV {
        json_view(*self)
    }
}

/// The value bound to `key`: the first binding wins.
pub open spec fn obj_get(fields: Seq<(Seq<char>, JsonV)>, key: Seq<char>) -> Option<JsonV>
    decreases fields.len(),
{
    if fields.len() == 0 {
        None
    } else if fields[0].0 == key {
        Some(fields[0].1)
    } else {
        obj_get(fields.drop_first(), key)
    }
}

/// Looking a key up in the concatenation of two field lists reads the
/// left list first.
pub proof fn lemma_obj_get_app(
    a: Seq<(Seq<char>, JsonV)>,
    b: Seq<(Seq<char>, JsonV)>,
    key: Seq<char>,
)
    ensures
        obj_get(a + b, key) == (match obj_get(a, key) {
            Some(v) => Some(v),
            None => obj_get(b, key),
        }),
    decreases a.len(),
{
    if a.len() == 0 {
        assert(a + b =~= b);
    } else {
        lemma_obj_get_app(a.drop_first(), b, key);
        assert((a + b).drop_first() =~= a.drop_first() + b);
    }
}

/// A lookup may skip over any prefix that does not bind the key.
pub proof fn lemma_obj_get_skip(fields: Seq<(Seq<char>, JsonV)>, key: Seq<char>, i: int)
    requires
        0 <= i <= fields.len(),
        forall|j: int| 0 <= j < i ==> fields[j].0 != key,
    ensures
        obj_get(fields.skip(i), key) == obj_get(fields, key),
    decreases i,
{
    if i > 0 {
        assert(fields[0].0 != key);
        lemma_obj_get_skip(fields.drop_first(), key, i - 1);
        assert(fields.drop_first().skip(i - 1) =~= fields.skip(i));
    } else {
        assert(fields.skip(0) =~= fields);
    }
}

/// A lookup finds the first index whose key matches.
pub proof fn lemma_obj_get_at(fields: Seq<(Seq<char>, JsonV)>, key: Seq<char>, i: int)
    requires
        0 <= i < fields.len(),
        fields[i].0 == key,
        forall|j: int| 0 <= j < i ==> fields[j].0 != key,
    ensures
        obj_get(fields, key) == Some(fields[i].1),
    decreases i,
{
    if i > 0 {
        lemma_obj_get_at(fields.drop_first(), key, i - 1);
    }
}

/// A lookup over bindings none of which carries the key finds nothing.
pub proof fn lemma_obj_get_none(fields: Seq<(Seq<char>, JsonV)>, key: Seq<char>)
    requires
        forall|j: int| 0 <= j < fields.len() ==> fields[j].0 != key,
    ensures
        obj_get(fields, key) is None,
    decreases fields.len(),
{
    if fields.len() > 0 {
        lemma_obj_get_none(fields.drop_first(), key);
    }
}

/// The view of an object's field vector.
pub open spec fn fields_view(fields: Seq<(String, Json)>) -> Seq<(Seq<char>, JsonV)> {
    Seq::new(fields.len(), |i: int| (fields[i].0@, fields[i].1@))
}

/// The view of an array's element vector.
pub open spec fn arr_view(elems: Seq<Json>) -> Seq<JsonV> {
    Seq::new(elems.len(), |i: int| elems[i]@)
}

pub proof fn lemma_obj_view(v: Vec<(String, Json)>)
    ensures
        Json::Obj(v)@ == JsonV::Obj(fields_view(v@)),
{
    assert(Json::Obj(v)@->Obj_0 =~= fields_view(v@));
}

pub proof fn lemma_arr_view(v: Vec<Json>)
    ensures
        Json::Arr(v)@ == JsonV::Arr(arr_view(v@)),
{
    assert(Json::Arr(v)@->Arr_0 =~= arr_view(v@));
}

/// Finds the first binding of `key` among `fields`.
pub fn obj_find<'a>(fields: &'a Vec<(String, Json)>, key: &str) -> (r: Option<&'a Json>)
    ensures
        match r {
            Some(j) => obj_get(fields_view(fields@), key@) == Some(j@),
            None => obj_get(fields_view(fields@), key@) is None,
        },
{
    let ghost fv = fields_view(fields@);
    let mut i: usize = 0;
    while i < fields.len()
        invariant
            fv == fields_view(fields@),
            i <= fields.len(),
            forall|j: int| 0 <= j < i ==> fv[j].0 != key@,
        decreases fields.len() - i,
    {
        if str_eq(fields[i].0.as_str(), key) {
            proof {
                lemma_obj_get_skip(fv, key@, i as int);
                assert(fv.skip(i as int)[0] == fv[i as int]);
            }
            return Some(&fields[i].1);
        }
        i = i + 1;
    }
    proof {
        lemma_obj_get_skip(fv, key@, i as int);
        assert(fv.skip(i as int) =~= Seq::<(Seq<char>, JsonV)>::empty());
    }
    None
}

} // verus!
