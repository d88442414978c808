//! A plain model of JSON values, as the protocol messages carry them.
//!
//! Objects keep their entries in order; a key occurs at most once in an
//! object built from parsed JSON.

use vstd::prelude::*;

verus! {

/// A JSON value.
#[derive(Debug, PartialEq)]
pub enum JsonValue {
    Null,
    Bool(bool),
    /// A number that fits an `i64`.
    Number(i64),
    /// Any other number, as written.
    OtherNumber(String),
    Str(String),
    Array(Vec<JsonValue>),
    Object(Vec<(String, JsonValue)>),
}

/// The value stored under `key` in the entries, the first such entry.
pub open spec fn entry_of(entries: Seq<(String, JsonValue)>, key: Seq<char>) -> Option<JsonValue>
    decreases entries.len(),
{
    if entries.len() == 0 {
        None
    } else if entries[0].0@ == key {
        Some(entries[0].1)
    } else {
        entry_of(entries.drop_first(), key)
    }
}

/// The value of member `key` when `v` is an object that has it.
pub open spec fn member(v: JsonValue, key: Seq<char>) -> Option<JsonValue> {
    match v {
        JsonValue::Object(entries) => entry_of(entries@, key),
        _ => None,
    }
}


/// The index of the first entry whose key is `key`.
pub fn find_entry(entries: &Vec<(String, JsonValue)>, key: &str) -> (r: Option<usize>)
    ensures
        match r {
            Some(i) => i < entries@.len() && entries@[i as int].0@ == key@ && entry_of(entries@, key@)
                == Some(entries@[i as int].1),
            None => entry_of(entries@, key@) is None,
        },
{
    let mut i: usize = 0;
    proof {
        assert(entries@.skip(0) =~= entries@);
    }
    while i < entries.len()
        invariant
            i <= entries@.len(),
            entry_of(entries@, key@) == entry_of(entries@.skip(i as int), key@),
        decreases entries@.len() - i,
    {
        let k = entries[i].0.as_str();
        let kc = crate::text::chars_of(k);
        if crate::text::eq_str(kc.as_slice(), key) {
            proof {
                assert(entries@.skip(i as int)[0] == entries@[i as int]);
            }
            return Some(i);
        }
        proof {
            assert(entries@.skip(i as int).drop_first() =~= entries@.skip(i + 1));
        }
        i = i + 1;
    }
    None
}

/// The string member `key` of an object.
pub fn get_str(v: &JsonValue, key: &str) -> (r: Option<String>)
    ensures
        match member(*v, key@) {
            Some(JsonValue::Str(s)) => r == Some(s),
            _ => r is None,
        },
{
    match v {
        JsonValue::Object(entries) => match find_entry(entries, key) {
            Some(i) => match &entries[i].1 {
                JsonValue::Str(s) => Some(s.clone()),
                _ => None,
            },
            None => None,
        },
        _ => None,
    }
}

/// The integer member `key` of an object.
pub fn get_i64(v: &JsonValue, key: &str) -> (r: Option<i64>)
    ensures
        match member(*v, key@) {
            Some(JsonValue::Number(n)) => r == Some(n),
            _ => r is None,
        },
{
    match v {
        JsonValue::Object(entries) => match find_entry(entries, key) {
            Some(i) => match &entries[i].1 {
                JsonValue::Number(n) => Some(*n),
                _ => None,
            },
            None => None,
        },
        _ => None,
    }
}

/// The boolean member `key` of an object.
pub fn get_bool(v: &JsonValue, key: &str) -> (r: Option<bool>)
    ensures
        match member(*v, key@) {
            Some(JsonValue::Bool(b)) => r == Some(b),
            _ => r is None,
        },
{
    match v {
        JsonValue::Object(entries) => match find_entry(entries, key) {
            Some(i) => match &entries[i].1 {
                JsonValue::Bool(b) => Some(*b),
                _ => None,
            },
            None => None,
        },
        _ => None,
    }
}

/// Whether an object has member `key`, of any kind.
pub fn has_member(v: &JsonValue, key: &str) -> (r: bool)
    ensures
        r == member(*v, key@) is Some,
{
    match v {
        JsonValue::Object(entries) => find_entry(entries, key).is_some(),
        _ => false,
    }
}

/// Takes member `key` out of an object value.
pub fn take_member(v: JsonValue, key: &str) -> (r: Option<JsonValue>)
    ensures
        r == member(v, key@),
{
    match v {
        JsonValue::Object(mut entries) => match find_entry(&entries, key) {
            Some(i) => {
                let (_, value) = entries.remove(i);
                Some(value)
            },
            None => None,
        },
        _ => None,
    }
}

/// An object entry.
pub fn entry(key: &str, value: JsonValue) -> (r: (String, JsonValue))
    ensures
        r.0@ == key@,
        r.1 == value,
{
    (String::from_str(key), value)
}

/// A string value.
pub fn jstr(s: &str) -> (r: JsonValue)
    ensures
        r matches JsonValue::Str(t) && t@ == s@,
{
    JsonValue::Str(String::from_str(s))
}

/// The member `key` of an object, by reference.
pub fn member_ref<'a>(v: &'a JsonValue, key: &str) -> (r: Option<&'a JsonValue>)
    ensures
        match r {
            Some(x) => member(*v, key@) == Some(*x),
            None => member(*v, key@) is None,
        },
{
    match v {
        JsonValue::Object(entries) => match find_entry(entries, key) {
            Some(i) => Some(&entries[i].1),
            None => None,
        },
        _ => None,
    }
}

/// A JSON value as plain values.
pub enum JsonView {
    Null,
    Bool(bool),
    Number(int),
    OtherNumber(Seq<char>),
    Str(Seq<char>),
    Array(Seq<JsonView>),
    Object(Seq<(Seq<char>, JsonView)>),
}

/// The plain form of a JSON value.
pub open spec fn json_view(v: JsonValue) -> JsonView
    decreases v,
{
    match v {
        JsonValue::Null => JsonView::Null,
        JsonValue::Bool(b) => JsonView::Bool(b),
        JsonValue::Number(n) => JsonView::Number(n as int),
        JsonValue::OtherNumber(s) => JsonView::OtherNumber(s@),
        JsonValue::Str(s) => JsonView::Str(s@),
        JsonValue::Array(items) => JsonView::Array(
            Seq::new(
                items@.len(),
                |i: int|
                    {
                        if 0 <= i < items@.len() {
                            json_view(items@[i])
                        } else {
                            JsonView::Null
                        }
                    },
            ),
        ),
        JsonValue::Object(es) => JsonView::Object(
            Seq::new(
                es@.len(),
                |i: int|
                    {
                        if 0 <= i < es@.len() {
                            (es@[i].0@, json_view(es@[i].1))
                        } else {
                            (seq![], JsonView::Null)
                        }
                    },
            ),
        ),
    }
}

/// The plain forms of a sequence of values.
pub open spec fn items_view(xs: Seq<JsonValue>) -> Seq<JsonView> {
    Seq::new(xs.len(), |i: int| json_view(xs[i]))
}

/// The plain forms of object entries.
pub open spec fn entries_view(es: Seq<(String, JsonValue)>) -> Seq<(Seq<char>, JsonView)> {
    Seq::new(es.len(), |i: int| (es[i].0@, json_view(es[i].1)))
}

/// An object value made of the entries.
pub fn object(es: Vec<(String, JsonValue)>) -> (r: JsonValue)
    ensures
        r == JsonValue::Object(es),
        json_view(r) == JsonView::Object(entries_view(es@)),
{
    let r = JsonValue::Object(es);
    proof {
        assert(json_view(r) matches JsonView::Object(v) && v =~= entries_view(es@));
    }
    r
}

/// An array value made of the items.
pub fn array(xs: Vec<JsonValue>) -> (r: JsonValue)
    ensures
        r == JsonValue::Array(xs),
        json_view(r) == JsonView::Array(items_view(xs@)),
{
    let r = JsonValue::Array(xs);
    proof {
        assert(json_view(r) matches JsonView::Array(v) && v =~= items_view(xs@));
    }
    r
}

/// Appends the entry `key: value` to object entries.
pub fn put(es: &mut Vec<(String, JsonValue)>, key: &str, value: JsonValue)
    ensures
        final(es)@.len() == old(es)@.len() + 1,
        final(es)@.drop_last() == old(es)@,
        final(es)@.last().0@ == key@,
        final(es)@.last().1 == value,
        entries_view(final(es)@) == entries_view(old(es)@).push((key@, json_view(value))),
{
    es.push((String::from_str(key), value));
    proof {
        assert(final(es)@.drop_last() =~= old(es)@);
        assert(entries_view(final(es)@) =~= entries_view(old(es)@).push((key@, json_view(value))));
    }
}

/// Appends an item to array items.
pub fn push_item(xs: &mut Vec<JsonValue>, value: JsonValue)
    ensures
        final(xs)@ == old(xs)@.push(value),
        items_view(final(xs)@) == items_view(old(xs)@).push(json_view(value)),
{
    xs.push(value);
    proof {
        assert(items_view(final(xs)@) =~= items_view(old(xs)@).push(json_view(value)));
    }
}

} // verus!
