//! A JSON value held as plain data, and the object operations that the
//! configuration logic is built from.
//!
//! An object is a sequence of `(key, value)` members. Its meaning is the map
//! `obj_view`, in which a later member for a key shadows an earlier one, the
//! same rule a JSON object built member by member follows.
use crate::text::str_eq;
use vstd::prelude::*;

verus! {

/// A JSON document. Numbers keep their textual form, which the logic never reads.
#[derive(Debug)]
pub enum JsonValue {
    Null,
    Bool(bool),
    Number(String),
    Str(String),
    Array(Vec<JsonValue>),
    Object(Vec<(String, JsonValue)>),
}

/// The map that a sequence of object members stands for: the last member for a key wins.
pub open spec fn obj_view(fields: Seq<(String, JsonValue)>) -> Map<Seq<char>, JsonValue>
    decreases fields.len(),
{
    if fields.len() == 0 {
        Map::empty()
    } else {
        obj_view(fields.drop_last()).insert(fields.last().0@, fields.last().1)
    }
}

/// The members of an object as a map, or `None` where the value is no object.
pub open spec fn as_object_view(v: JsonValue) -> Option<Map<Seq<char>, JsonValue>> {
    match v {
        JsonValue::Object(fields) => Some(obj_view(fields@)),
        _ => None,
    }
}

/// The text of a string value.
pub open spec fn as_str_view(v: JsonValue) -> Option<Seq<char>> {
    match v {
        JsonValue::Str(s) => Some(s@),
        _ => None,
    }
}

/// The member `key` of `v`, where `v` is an object that has it.
pub open spec fn member(v: JsonValue, key: Seq<char>) -> Option<JsonValue> {
    match as_object_view(v) {
        Some(m) => if m.contains_key(key) {
            Some(m[key])
        } else {
            None
        },
        None => None,
    }
}

/// A value is an array of strings whose texts are `items`.
pub open spec fn is_str_array(v: JsonValue, items: Seq<Seq<char>>) -> bool {
    match v {
        JsonValue::Array(vs) => vs@.len() == items.len() && forall|i: int|
            0 <= i < items.len() ==> #[trigger] as_str_view(vs@[i]) == Some(items[i]),
        _ => false,
    }
}

pub open spec fn key_is_not(k: Seq<char>) -> spec_fn((String, JsonValue)) -> bool {
    |e: (String, JsonValue)| e.0@ != k
}

/// Members that come after position `i` do not carry `k`: the map up to `i`
/// already decides `k`.
pub proof fn lemma_view_unshadowed(fields: Seq<(String, JsonValue)>, i: int, k: Seq<char>)
    requires
        0 <= i <= fields.len(),
        forall|j: int| i <= j < fields.len() ==> #[trigger] fields[j].0@ != k,
    ensures
        obj_view(fields).contains_key(k) == obj_view(fields.take(i)).contains_key(k),
        obj_view(fields).contains_key(k) ==> obj_view(fields)[k] == obj_view(fields.take(i))[k],
    decreases fields.len(),
{
    if i < fields.len() {
        let prefix = fields.drop_last();
        assert forall|j: int| i <= j < prefix.len() implies #[trigger] prefix[j].0@ != k by {
            assert(prefix[j] == fields[j]);
        }
        lemma_view_unshadowed(prefix, i, k);
        assert(prefix.take(i) =~= fields.take(i));
        assert(fields[fields.len() - 1].0@ != k);
    } else {
        assert(fields.take(i) =~= fields);
    }
}

/// Dropping every member with key `k` removes `k` from the map and nothing else.
pub proof fn lemma_view_filter(fields: Seq<(String, JsonValue)>, k: Seq<char>)
    ensures
        obj_view(fields.filter(key_is_not(k))) == obj_view(fields).remove(k),
    decreases fields.len(),
{
    reveal(Seq::filter);
    if fields.len() == 0 {
        assert(obj_view(fields).remove(k) =~= Map::empty());
    } else {
        lemma_view_filter(fields.drop_last(), k);
        let last = fields.last();
        let sub = fields.drop_last().filter(key_is_not(k));
        if last.0@ == k {
            assert(fields.filter(key_is_not(k)) == sub);
            assert(obj_view(fields).remove(k) =~= obj_view(fields.drop_last()).remove(k));
        } else {
            assert(fields.filter(key_is_not(k)) == sub.push(last));
            assert(sub.push(last).drop_last() =~= sub);
            assert(obj_view(fields).remove(k) =~= obj_view(fields.drop_last()).remove(k).insert(
                last.0@,
                last.1,
            ));
        }
    }
}

/// The position of the member that decides `key`, if any.
pub fn obj_find(fields: &Vec<(String, JsonValue)>, key: &str) -> (r: Option<usize>)
    ensures
        match r {
            Some(i) => i < fields@.len() && fields@[i as int].0@ == key@ && obj_view(
                fields@,
            ).contains_key(key@) && obj_view(fields@)[key@] == fields@[i as int].1,
            None => !obj_view(fields@).contains_key(key@),
        },
{
    let mut i = fields.len();
    while i > 0
        invariant
            i <= fields@.len(),
            forall|j: int| i <= j < fields@.len() ==> #[trigger] fields@[j].0@ != key@,
        decreases i,
    {
        if str_eq(fields[i - 1].0.as_str(), key) {
            proof {
                lemma_view_unshadowed(fields@, i as int, key@);
                assert(fields@.take(i as int).drop_last() =~= fields@.take(i - 1));
            }
            return Some(i - 1);
        }
        i = i - 1;
    }
    proof {
        lemma_view_unshadowed(fields@, 0, key@);
    }
    None
}

/// The value that decides `key`, if any.
pub fn obj_get<'a>(fields: &'a Vec<(String, JsonValue)>, key: &str) -> (r: Option<&'a JsonValue>)
    ensures
        r is Some <==> obj_view(fields@).contains_key(key@),
        r is Some ==> *r->0 == obj_view(fields@)[key@],
{
    match obj_find(fields, key) {
        Some(i) => Some(&fields[i].1),
        None => None,
    }
}

/// Take `key` out of an object: every member with that key is dropped, and the
/// value that decided it is returned.
pub fn obj_take(fields: &mut Vec<(String, JsonValue)>, key: &str) -> (r: Option<JsonValue>)
    ensures
        obj_view(final(fields)@) == obj_view(old(fields)@).remove(key@),
        r is Some <==> obj_view(old(fields)@).contains_key(key@),
        r is Some ==> r->0 == obj_view(old(fields)@)[key@],
{
    let ghost orig = fields@;
    let mut rest: Vec<(String, JsonValue)> = Vec::new();
    std::mem::swap(fields, &mut rest);
    let mut kept: Vec<(String, JsonValue)> = Vec::new();
    let mut found: Option<JsonValue> = None;
    let ghost mut n: int = 0;
    while rest.len() > 0
        invariant
            0 <= n <= orig.len(),
            rest@ == orig.skip(n),
            kept@ == orig.take(n).filter(key_is_not(key@)),
            found is Some <==> obj_view(orig.take(n)).contains_key(key@),
            found is Some ==> found->0 == obj_view(orig.take(n))[key@],
        decreases rest@.len(),
    {
        let e = rest.remove(0);
        proof {
            reveal(Seq::filter);
            assert(orig.take(n + 1).drop_last() =~= orig.take(n));
            assert(orig.take(n + 1).last() == orig[n]);
            assert(orig.skip(n + 1) =~= orig.skip(n).remove(0));
            n = n + 1;
        }
        if str_eq(e.0.as_str(), key) {
            found = Some(e.1);
        } else {
            kept.push(e);
        }
    }
    proof {
        assert(orig.take(n) =~= orig);
        lemma_view_filter(orig, key@);
    }
    *fields = kept;
    found
}

/// Set `key` to `value`, dropping any member that held it before.
pub fn obj_insert(fields: &mut Vec<(String, JsonValue)>, key: String, value: JsonValue)
    ensures
        obj_view(final(fields)@) == obj_view(old(fields)@).insert(key@, value),
{
    let _ = obj_take(fields, key.as_str());
    let ghost k = key@;
    let ghost v = value;
    let ghost before = fields@;
    fields.push((key, value));
    proof {
        assert(fields@.drop_last() =~= before);
        assert(obj_view(old(fields)@).remove(k).insert(k, v) =~= obj_view(old(fields)@).insert(
            k,
            v,
        ));
    }
}

/// Whether `key` is a member of the object.
pub fn obj_contains(fields: &Vec<(String, JsonValue)>, key: &str) -> (r: bool)
    ensures
        r == obj_view(fields@).contains_key(key@),
{
    obj_find(fields, key).is_some()
}

} // verus!
