//! JSON values as the library reasons about them, and the calls into
//! `serde_json` that parse, build and print them.
//!
//! Every item marked `external_body` here is trusted: its body is one call
//! into `serde_json` and its contract is taken from that crate's source and
//! documentation, not proved.
use vstd::prelude::*;

use crate::text::decimal;

verus! {

/// `serde_json::Value`, carried through verified code as an opaque value.
#[verifier::external_type_specification]
#[verifier::external_body]
pub struct ExJsonValue(serde_json::Value);

/// The mathematical shape of a JSON value.
///
/// A number is held as the text that `serde_json` writes for it; an object is
/// a map from keys to values (without `preserve_order`, `serde_json` keeps
/// object keys sorted, so the map determines the printed text).
pub enum JsonView {
    Null,
    Bool(bool),
    Number(Seq<char>),
    Str(Seq<char>),
    Array(Seq<JsonView>),
    Object(Map<Seq<char>, JsonView>),
}

/// What a `serde_json::Value` holds: the whole JSON tree of its members
/// (the contents of the value seen as a collection of arrays and objects).
pub uninterp spec fn json_view(v: serde_json::Value) -> JsonView;

/// What `serde_json::from_slice::<serde_json::Value>` gives for `bytes`:
/// `None` where the bytes are not one JSON document.
pub uninterp spec fn json_parse_bytes(bytes: Seq<u8>) -> Option<JsonView>;

/// The compact text that `serde_json` prints for a value (its `Display`).
pub uninterp spec fn json_text(v: JsonView) -> Seq<char>;

/// The string held under `key` when `v` is an object with a string there.
pub open spec fn str_field(v: JsonView, key: Seq<char>) -> Option<Seq<char>> {
    match v {
        JsonView::Object(m) => if m.contains_key(key) {
            match m[key] {
                JsonView::Str(s) => Some(s),
                _ => None,
            }
        } else {
            None
        },
        _ => None,
    }
}

/// JSON `null` for `None`, a JSON string otherwise.
pub open spec fn opt_str_view(o: Option<Seq<char>>) -> JsonView {
    match o {
        Some(s) => JsonView::Str(s),
        None => JsonView::Null,
    }
}

/// The view of an optional string.
pub open spec fn opt_string_view(o: Option<String>) -> Option<Seq<char>> {
    match o {
        Some(s) => Some(s@),
        None => None,
    }
}

/// One object member, `"key":value`, as `serde_json` writes it for a key
/// that needs no escaping.
pub open spec fn member_text(key: Seq<char>, value: JsonView) -> Seq<char> {
    seq!['"'] + key + seq!['"', ':'] + json_text(value)
}

/// Members separated by commas, in order.
pub open spec fn join_members(members: Seq<Seq<char>>) -> Seq<char>
    decreases members.len(),
{
    if members.len() == 0 {
        Seq::empty()
    } else if members.len() == 1 {
        members[0]
    } else {
        join_members(members.drop_last()) + seq![','] + members.last()
    }
}

/// A compact JSON object written member by member in the given order:
/// `{m1,m2,..}`.
pub open spec fn object_text(members: Seq<Seq<char>>) -> Seq<char> {
    seq!['{'] + join_members(members) + seq!['}']
}

/// `m` occurs in `s` as a contiguous run of characters.
pub open spec fn contains_segment(s: Seq<char>, m: Seq<char>) -> bool {
    exists|i: int| 0 <= i && i + m.len() <= s.len() && #[trigger] s.subrange(i, i + m.len()) == m
}

/// A text made of `a`, then `m`, then `b` contains `m`.
pub proof fn lemma_segment_between(a: Seq<char>, m: Seq<char>, b: Seq<char>)
    ensures
        contains_segment(a + m + b, m),
{
    let s = a + m + b;
    assert(s.subrange(a.len() as int, (a.len() + m.len()) as int) =~= m);
}

/// The `i`-th member sits somewhere in the joined members.
proof fn lemma_join_splits_at(ms: Seq<Seq<char>>, i: int) -> (r: (Seq<char>, Seq<char>))
    requires
        0 <= i < ms.len(),
    ensures
        join_members(ms) == r.0 + ms[i] + r.1,
    decreases ms.len(),
{
    if ms.len() == 1 {
        assert(join_members(ms) =~= Seq::<char>::empty() + ms[i] + Seq::<char>::empty());
        (Seq::empty(), Seq::empty())
    } else if i == ms.len() - 1 {
        let a = join_members(ms.drop_last()) + seq![','];
        assert(join_members(ms) =~= a + ms[i] + Seq::<char>::empty());
        (a, Seq::empty())
    } else {
        let (a, b) = lemma_join_splits_at(ms.drop_last(), i);
        let b2 = b + seq![','] + ms.last();
        assert(join_members(ms) =~= a + ms[i] + b2);
        (a, b2)
    }
}

/// Every member of an object written member by member occurs in its text.
pub proof fn lemma_object_text_has_member(ms: Seq<Seq<char>>, i: int)
    requires
        0 <= i < ms.len(),
    ensures
        contains_segment(object_text(ms), ms[i]),
        object_text(ms).len() > 0,
        object_text(ms)[0] == '{',
        object_text(ms).last() == '}',
{
    let (a, b) = lemma_join_splits_at(ms, i);
    let pre = seq!['{'] + a;
    let post = b + seq!['}'];
    assert(object_text(ms) =~= pre + ms[i] + post);
    lemma_segment_between(pre, ms[i], post);
}

/// No key occurs twice among `pairs`.
pub open spec fn distinct_keys(pairs: Seq<(Seq<char>, JsonView)>) -> bool {
    forall|i: int, j: int| 0 <= i < j < pairs.len() ==> pairs[i].0 != pairs[j].0
}

/// The object whose entries are `pairs`, later pairs overriding earlier ones.
pub open spec fn pairs_to_map(pairs: Seq<(Seq<char>, JsonView)>) -> Map<Seq<char>, JsonView>
    decreases pairs.len(),
{
    if pairs.len() == 0 {
        Map::empty()
    } else {
        pairs_to_map(pairs.drop_last()).insert(pairs.last().0, pairs.last().1)
    }
}

/// The view of a list of object entries as the executable code builds it.
pub open spec fn entries_view(fields: Seq<(String, serde_json::Value)>) -> Seq<(Seq<char>, JsonView)> {
    fields.map_values(|p: (String, serde_json::Value)| (p.0@, json_view(p.1)))
}

/// Calls `serde_json::from_slice::<serde_json::Value>`; a parse error
/// becomes `None`. The result is what `json_parse_bytes` names.
#[verifier::external_body]
pub(crate) fn parse_json(bytes: &[u8]) -> (r: Option<serde_json::Value>)
    ensures
        match json_parse_bytes(bytes@) {
            Some(j) => r is Some && json_view(r->0) == j,
            None => r is None,
        },
{
    serde_json::from_slice::<serde_json::Value>(bytes).ok()
}

/// Calls `serde_json::Value::get` with a string key: the member under `key`
/// when `v` is an object that has one, `None` otherwise (also for every
/// value that is not an object).
#[verifier::external_body]
pub(crate) fn json_get<'a>(v: &'a serde_json::Value, key: &str) -> (r: Option<&'a serde_json::Value>)
    ensures
        match json_view(*v) {
            JsonView::Object(m) => if m.contains_key(key@) {
                r is Some && json_view(*r->0) == m[key@]
            } else {
                r is None
            },
            _ => r is None,
        },
{
    v.get(key)
}

/// Calls `serde_json::Value::as_str`: the string when `v` is a JSON string,
/// `None` otherwise.
#[verifier::external_body]
pub(crate) fn json_as_str(v: &serde_json::Value) -> (r: Option<&str>)
    ensures
        match json_view(*v) {
            JsonView::Str(s) => r is Some && r->0@ == s,
            _ => r is None,
        },
{
    v.as_str()
}

/// Builds `serde_json::Value::String(s)`.
#[verifier::external_body]
pub(crate) fn json_string(s: String) -> (r: serde_json::Value)
    ensures
        json_view(r) == JsonView::Str(s@),
{
    serde_json::Value::String(s)
}

/// Builds `serde_json::Value::Null`.
#[verifier::external_body]
pub(crate) fn json_null() -> (r: serde_json::Value)
    ensures
        json_view(r) == JsonView::Null,
{
    serde_json::Value::Null
}

/// Calls `<serde_json::Value as From<u16>>::from`: a JSON number, printed in
/// decimal.
#[verifier::external_body]
pub(crate) fn json_from_u16(n: u16) -> (r: serde_json::Value)
    ensures
        json_view(r) == JsonView::Number(decimal(n as nat)),
{
    serde_json::Value::from(n)
}

/// Calls `<serde_json::Value as FromIterator<(String, Value)>>::from_iter`:
/// the JSON object with these entries.
#[verifier::external_body]
pub(crate) fn json_object(fields: Vec<(String, serde_json::Value)>) -> (r: serde_json::Value)
    requires
        distinct_keys(entries_view(fields@)),
    ensures
        json_view(r) == JsonView::Object(pairs_to_map(entries_view(fields@))),
{
    fields.into_iter().collect()
}

/// Calls `ToString::to_string` on a `serde_json::Value`, which prints it
/// through its `Display` impl in compact form.
#[verifier::external_body]
pub(crate) fn json_to_string(v: &serde_json::Value) -> (r: String)
    ensures
        r@ == json_text(json_view(*v)),
{
    v.to_string()
}

} // verus!
