//! A JSON document as plain values, for the logic that reads decoded
//! request and response bodies.
use vstd::prelude::*;
use crate::text::{chars_of, eq_chars, trim, trim_chars};

verus! {

/// A JSON value. Numbers keep their text; object members keep their order,
/// and a key occurs once in an object.
#[derive(Debug)]
pub enum JsonValue {
    Null,
    Bool(bool),
    Number(String),
    Str(String),
    Array(Vec<JsonValue>),
    Object(Vec<(String, JsonValue)>),
}

/// The value of the first member of `members` named `key`.
pub open spec fn member_value(members: Seq<(String, JsonValue)>, key: Seq<char>) -> Option<JsonValue>
    decreases members.len(),
{
    if members.len() == 0 {
        None
    } else if members[0].0@ == key {
        Some(members[0].1)
    } else {
        member_value(members.drop_first(), key)
    }
}

/// The member `key` of an object; nothing for other values (what
/// `serde_json::Value::get` with a string key gives).
pub open spec fn json_get(v: JsonValue, key: Seq<char>) -> Option<JsonValue> {
    match v {
        JsonValue::Object(members) => member_value(members@, key),
        _ => None,
    }
}

/// The member `key` of `v`, when `v` is present.
pub open spec fn json_get_opt(v: Option<JsonValue>, key: Seq<char>) -> Option<JsonValue> {
    match v {
        Some(x) => json_get(x, key),
        None => None,
    }
}

/// The text of a string value.
pub open spec fn json_str(v: Option<JsonValue>) -> Option<Seq<char>> {
    match v {
        Some(JsonValue::Str(s)) => Some(s@),
        _ => None,
    }
}

/// The member `key` of `v`, when `v` is an object that has it.
pub fn get<'a>(v: &'a JsonValue, key: &str) -> (r: Option<&'a JsonValue>)
    ensures
        match r {
            Some(x) => json_get(*v, key@) == Some(*x),
            None => json_get(*v, key@) is None,
        },
{
    match v {
        JsonValue::Object(members) => {
            let k = chars_of(key);
            let mut i: usize = 0;
            assert(members@.skip(0) =~= members@);
            while i < members.len()
                invariant
                    i <= members.len(),
                    k@ == key@,
                    *v == JsonValue::Object(*members),
                    member_value(members@, key@) == member_value(members@.skip(i as int), key@),
                decreases members.len() - i,
            {
                assert(members@.skip(i as int).drop_first() =~= members@.skip(i + 1));
                assert(members@.skip(i as int)[0] == members@[i as int]);
                let name = chars_of(members[i].0.as_str());
                if eq_chars(name.as_slice(), k.as_slice()) {
                    assert(members@.skip(i as int)[0].0@ == key@);
                    assert(member_value(members@.skip(i as int), key@) == Some(members@[i as int].1));
                    assert(json_get(*v, key@) == Some(members@[i as int].1));
                    return Some(&members[i].1);
                }
                i = i + 1;
            }
            None
        },
        _ => None,
    }
}

/// The text of `v` when it is a string value.
pub fn as_str(v: Option<&JsonValue>) -> (r: Option<&str>)
    ensures
        match r {
            Some(s) => v is Some && json_str(Some(*v.unwrap())) == Some(s@),
            None => v is None || json_str(Some(*v.unwrap())) is None,
        },
{
    match v {
        Some(JsonValue::Str(s)) => Some(s.as_str()),
        _ => None,
    }
}

/// A value that counts as given: not null, not a blank string or the
/// string `auto` (after trimming), not an empty array or object.
pub open spec fn json_present(v: Option<JsonValue>) -> bool {
    match v {
        None => false,
        Some(JsonValue::Null) => false,
        Some(JsonValue::Str(s)) => trim(s@).len() > 0 && trim(s@) != "auto"@,
        Some(JsonValue::Array(a)) => a.len() > 0,
        Some(JsonValue::Object(o)) => o.len() > 0,
        Some(JsonValue::Bool(_)) => true,
        Some(JsonValue::Number(_)) => true,
    }
}

/// Whether a field value counts as given (see `json_present`).
pub fn is_field_present_in_json(value: Option<&JsonValue>) -> (r: bool)
    ensures
        r == json_present(
            match value {
                Some(x) => Some(*x),
                None => None,
            },
        ),
{
    match value {
        None => false,
        Some(JsonValue::Null) => false,
        Some(JsonValue::Str(s)) => {
            let c = chars_of(s.as_str());
            let t = trim_chars(c.as_slice());
            let auto = chars_of("auto");
            t.len() > 0 && !eq_chars(t.as_slice(), auto.as_slice())
        },
        Some(JsonValue::Array(a)) => a.len() > 0,
        Some(JsonValue::Object(o)) => o.len() > 0,
        Some(JsonValue::Bool(_)) => true,
        Some(JsonValue::Number(_)) => true,
    }
}


/// `b` is the same JSON value as `a`: the same kind and text, and items and
/// members (with the same names) that are the same, in the same order.
pub open spec fn json_same(a: JsonValue, b: JsonValue) -> bool
    decreases a,
{
    match a {
        JsonValue::Array(xs) => match b {
            JsonValue::Array(ys) => xs@.len() == ys@.len() && forall|i: int|
                0 <= i < xs@.len() ==> json_same(#[trigger] xs@[i], ys@[i]),
            _ => false,
        },
        JsonValue::Object(xs) => match b {
            JsonValue::Object(ys) => xs@.len() == ys@.len() && forall|i: int|
                0 <= i < xs@.len() ==> (#[trigger] xs@[i]).0 == ys@[i].0 && json_same(xs@[i].1, ys@[i].1),
            _ => false,
        },
        _ => a == b,
    }
}

/// A copy of a JSON value.
pub fn copy_json(v: &JsonValue) -> (r: JsonValue)
    ensures
        json_same(*v, r),
    decreases v,
{
    match v {
        JsonValue::Null => JsonValue::Null,
        JsonValue::Bool(b) => JsonValue::Bool(*b),
        JsonValue::Number(s) => JsonValue::Number(s.clone()),
        JsonValue::Str(s) => JsonValue::Str(s.clone()),
        JsonValue::Array(items) => {
            let mut out: Vec<JsonValue> = Vec::new();
            let mut i: usize = 0;
            while i < items.len()
                invariant
                    i <= items.len(),
                    *v == JsonValue::Array(*items),
                    out@.len() == i,
                    forall|k: int| 0 <= k < i ==> json_same(#[trigger] items@[k], out@[k]),
                decreases items.len() - i,
            {
                proof {
                    assert(decreases_to!(*items => items[i as int])) by {
                        broadcast use vstd::std_specs::vec::axiom_vec_index_decreases;
                    }
                    assert(decreases_to!(*v => v->Array_0));
                    assert(decreases_to!(*v => items[i as int]));
                }
                let c = copy_json(&items[i]);
                out.push(c);
                i += 1;
            }
            JsonValue::Array(out)
        },
        JsonValue::Object(members) => {
            let mut out: Vec<(String, JsonValue)> = Vec::new();
            let mut i: usize = 0;
            while i < members.len()
                invariant
                    i <= members.len(),
                    *v == JsonValue::Object(*members),
                    out@.len() == i,
                    forall|k: int| 0 <= k < i ==> (#[trigger] members@[k]).0 == out@[k].0
                        && json_same(members@[k].1, out@[k].1),
                decreases members.len() - i,
            {
                proof {
                    assert(decreases_to!(*members => members[i as int])) by {
                        broadcast use vstd::std_specs::vec::axiom_vec_index_decreases;
                    }
                    assert(decreases_to!(members[i as int] => members[i as int].1));
                    assert(decreases_to!(*v => v->Object_0));
                    assert(decreases_to!(*v => members[i as int].1));
                }
                let c = copy_json(&members[i].1);
                out.push((members[i].0.clone(), c));
                i += 1;
            }
            JsonValue::Object(out)
        },
    }
}


/// The value, or null when there is none.
pub open spec fn or_null(o: Option<JsonValue>) -> JsonValue {
    match o {
        Some(x) => x,
        None => JsonValue::Null,
    }
}

/// The value behind an optional reference.
pub open spec fn deref_opt(o: Option<&JsonValue>) -> Option<JsonValue> {
    match o {
        Some(x) => Some(*x),
        None => None,
    }
}

/// The member `key` of `v`, when `v` is given and is an object that has it.
pub fn get_opt<'a>(v: Option<&'a JsonValue>, key: &str) -> (r: Option<&'a JsonValue>)
    ensures
        deref_opt(r) == json_get_opt(deref_opt(v), key@),
{
    match v {
        Some(x) => get(x, key),
        None => None,
    }
}

/// A copy of the member `key` of `v`, or null when it has none.
pub fn copy_member(v: Option<&JsonValue>, key: &str) -> (r: JsonValue)
    ensures
        json_same(or_null(json_get_opt(deref_opt(v), key@)), r),
{
    match get_opt(v, key) {
        Some(x) => copy_json(x),
        None => JsonValue::Null,
    }
}


/// Looking a name up past a member with another name.
pub proof fn lemma_member_pass(members: Seq<(String, JsonValue)>, n: int, key: Seq<char>)
    requires
        0 <= n < members.len(),
        members[n].0@ != key,
    ensures
        member_value(members.skip(n), key) == member_value(members.skip(n + 1), key),
{
    assert(members.skip(n)[0] == members[n]);
    assert(members.skip(n).drop_first() =~= members.skip(n + 1));
}

/// Looking a name up at a member with that name.
pub proof fn lemma_member_hit(members: Seq<(String, JsonValue)>, n: int)
    requires
        0 <= n < members.len(),
    ensures
        member_value(members.skip(n), members[n].0@) == Some(members[n].1),
        members.skip(0) == members,
{
    assert(members.skip(n)[0] == members[n]);
    assert(members.skip(0) =~= members);
}

} // verus!
