//! JSON documents, held in `serde_json::Value` and read through a mathematical model.
use vstd::prelude::*;

verus! {

#[verifier::external_type_specification]
#[verifier::external_body]
pub struct ExJsonValue(serde_json::Value);

#[verifier::external_type_specification]
#[verifier::external_body]
pub struct ExJsonError(serde_json::Error);

/// The mathematical content of a JSON document.
pub enum JsonTree {
    Null,
    Bool(bool),
    /// A number held exactly as an integer (`u64` or `i64`).
    Integer(int),
    /// A number held as a floating-point value; its value is not modelled.
    Float,
    Text(Seq<char>),
    Array(Seq<JsonTree>),
    Object(Map<Seq<char>, JsonTree>),
}

/// The document that a `serde_json::Value` holds.
pub uninterp spec fn json_tree(v: serde_json::Value) -> JsonTree;

/// The document that `serde_json` reads from `text`, or `None` where it rejects the text.
pub uninterp spec fn parsed_json(text: Seq<char>) -> Option<JsonTree>;

/// A document without floating-point numbers at any depth.
pub open spec fn float_free(t: JsonTree) -> bool
    decreases t,
{
    match t {
        JsonTree::Float => false,
        JsonTree::Array(items) => forall|i: int| 0 <= i < items.len() ==> float_free(#[trigger] items[i]),
        JsonTree::Object(m) => forall|k: Seq<char>| #[trigger] m.contains_key(k) ==> float_free(m[k]),
        _ => true,
    }
}

/// A document nests arrays and objects at most `depth` deep.
pub open spec fn nested_at_most(t: JsonTree, depth: nat) -> bool
    decreases t,
{
    match t {
        JsonTree::Array(items) => depth > 0 && forall|i: int| 0 <= i < items.len() ==> nested_at_most(#[trigger] items[i], (depth - 1) as nat),
        JsonTree::Object(m) => depth > 0 && forall|k: Seq<char>| #[trigger] m.contains_key(k) ==> nested_at_most(m[k], (depth - 1) as nat),
        _ => true,
    }
}

/// The documents of a sequence of values.
pub open spec fn trees(vs: Seq<serde_json::Value>) -> Seq<JsonTree> {
    vs.map_values(|v: serde_json::Value| json_tree(v))
}

/// The (key, document) pairs of a sequence of object entries.
pub open spec fn entry_trees(es: Seq<(String, serde_json::Value)>) -> Seq<(Seq<char>, JsonTree)> {
    es.map_values(|e: (String, serde_json::Value)| (e.0@, json_tree(e.1)))
}

/// No key occurs twice among the entries.
pub open spec fn keys_distinct(es: Seq<(Seq<char>, JsonTree)>) -> bool {
    forall|i: int, j: int| 0 <= i < es.len() && 0 <= j < es.len() && i != j ==> es[i].0 != es[j].0
}

/// The object that holds the given entries.
pub open spec fn entries_map(es: Seq<(Seq<char>, JsonTree)>) -> Map<Seq<char>, JsonTree>
    decreases es.len(),
{
    if es.len() == 0 {
        Map::empty()
    } else {
        entries_map(es.drop_last()).insert(es.last().0, es.last().1)
    }
}

/// JSON whitespace.
pub open spec fn is_json_space(c: char) -> bool {
    c == ' ' || c == '\t' || c == '\n' || c == '\r'
}

/// Text without its leading JSON whitespace.
pub open spec fn skip_json_space(t: Seq<char>) -> Seq<char>
    decreases t.len(),
{
    if t.len() > 0 && is_json_space(t[0]) {
        skip_json_space(t.drop_first())
    } else {
        t
    }
}

/// Skipping whitespace never lengthens a text.
pub proof fn lemma_skip_json_space_shorter(t: Seq<char>)
    ensures
        skip_json_space(t).len() <= t.len(),
    decreases t.len(),
{
    if t.len() > 0 && is_json_space(t[0]) {
        lemma_skip_json_space_shorter(t.drop_first());
    }
}

/// The members of an object, in order, read from the text after its `{` (or after a `,`
/// between members), and the text after the closing `}`: a string key, `:`, a document,
/// then `,` and further members or `}`. The document of a member whose key `keep` picks
/// is read (as `json_prefix` reads it) and listed; any other document is skipped (as
/// `json_skipped` skips it).
pub open spec fn members_from(t: Seq<char>, keep: spec_fn(Seq<char>) -> bool) -> Option<(Seq<(Seq<char>, JsonTree)>, Seq<char>)>
    decreases t.len(),
{
    match json_prefix(t) {
        Some((JsonTree::Text(key), after_key)) => {
            let at_colon = skip_json_space(after_key);
            if after_key.len() < t.len() && at_colon.len() > 0 && at_colon[0] == ':' {
                let value_text = at_colon.drop_first();
                let read: Option<(Seq<(Seq<char>, JsonTree)>, Seq<char>)> = if keep(key) {
                    match json_prefix(value_text) {
                        Some((v, rest)) => Some((seq![(key, v)], rest)),
                        None => None,
                    }
                } else {
                    match json_skipped(value_text) {
                        Some(rest) => Some((Seq::empty(), rest)),
                        None => None,
                    }
                };
                match read {
                    Some((listed, after_value)) => {
                        let next = skip_json_space(after_value);
                        if after_value.len() < t.len() && next.len() > 0 && next[0] == ',' {
                            proof {
                                lemma_skip_json_space_shorter(after_value);
                            }
                            match members_from(next.drop_first(), keep) {
                                Some((more, end)) => Some((listed + more, end)),
                                None => None,
                            }
                        } else if after_value.len() < t.len() && next.len() > 0 && next[0] == '}' {
                            Some((listed, next.drop_first()))
                        } else {
                            None
                        }
                    },
                    None => None,
                }
            } else {
                None
            }
        },
        _ => None,
    }
}

/// The members of the object that JSON text holds, in order and with any repeats, as
/// `members_from` reads them; `None` where the text is not an object followed only by
/// whitespace.
pub open spec fn object_members(text: Seq<char>, keep: spec_fn(Seq<char>) -> bool) -> Option<Seq<(Seq<char>, JsonTree)>> {
    let t = skip_json_space(text);
    if t.len() > 0 && t[0] == '{' {
        let inner = skip_json_space(t.drop_first());
        if inner.len() > 0 && inner[0] == '}' {
            if skip_json_space(inner.drop_first()).len() == 0 { Some(Seq::empty()) } else { None }
        } else {
            match members_from(t.drop_first(), keep) {
                Some((ms, end)) => if skip_json_space(end).len() == 0 { Some(ms) } else { None },
                None => None,
            }
        }
    } else {
        None
    }
}

/// Every key: all members are read.
pub open spec fn every_key() -> spec_fn(Seq<char>) -> bool {
    |k: Seq<char>| true
}

/// Reads a JSON document (`serde_json::from_str::<Value>`).
#[verifier::external_body]
pub(crate) fn json_parse(text: &str) -> (r: Result<serde_json::Value, serde_json::Error>)
    ensures
        r is Ok <==> parsed_json(text@) is Some,
        r matches Ok(v) ==> parsed_json(text@) == Some(json_tree(v)),
{
    serde_json::from_str::<serde_json::Value>(text)
}

/// The first document at the start of `text`, after any whitespace, as `serde_json`'s
/// stream reader reads it, and the text after that document; `None` where no document can
/// be read there.
pub uninterp spec fn json_prefix(text: Seq<char>) -> Option<(JsonTree, Seq<char>)>;

/// The text after the first document at the start of `text`, after any whitespace, as
/// `serde_json`'s stream reader skips it without building it (`IgnoredAny`); `None` where
/// no document can be skipped there.
pub uninterp spec fn json_skipped(text: Seq<char>) -> Option<Seq<char>>;

/// Reads the first document at the start of `text` and returns it with the text after it
/// (`StreamDeserializer::next`, then `byte_offset`). A document takes up at least one
/// character, so what is left is shorter than `text`.
#[verifier::external_body]
pub(crate) fn json_parse_prefix(text: &str) -> (r: Option<(serde_json::Value, String)>)
    ensures
        json_prefix(text@) == match r {
            Some(p) => Some((json_tree(p.0), p.1@)),
            None => None::<(JsonTree, Seq<char>)>,
        },
        r matches Some(p) ==> p.1@.len() < text@.len(),
{
    let mut stream = serde_json::Deserializer::from_str(text).into_iter::<serde_json::Value>();
    match stream.next() {
        Some(Ok(v)) => Some((v, text[stream.byte_offset()..].to_string())),
        _ => None,
    }
}

/// Skips the first document at the start of `text` and returns the text after it
/// (`StreamDeserializer::<IgnoredAny>::next`, then `byte_offset`). A document takes up at
/// least one character, so what is left is shorter than `text`.
#[verifier::external_body]
pub(crate) fn json_skip_prefix(text: &str) -> (r: Option<String>)
    ensures
        json_skipped(text@) == match r {
            Some(rest) => Some(rest@),
            None => None::<Seq<char>>,
        },
        r matches Some(rest) ==> rest@.len() < text@.len(),
{
    let mut stream = serde_json::Deserializer::from_str(text).into_iter::<serde::de::IgnoredAny>();
    match stream.next() {
        Some(Ok(_)) => Some(text[stream.byte_offset()..].to_string()),
        _ => None,
    }
}

/// Writes a document as compact JSON text (`serde_json::to_string`). Writing a `Value`
/// does not fail: its object keys are strings and the text goes to a `Vec`, whose writes
/// do not fail. Text written for a document without floating-point numbers, nested less
/// deeply than the reader's limit of 128 levels, reads back as the same document. Such an
/// object is written as `{`, its members `"key":value` separated by `,`, and `}`: read
/// member by member, each key once (the map it prints holds each key once) with its
/// document.
#[verifier::external_body]
pub(crate) fn json_print(v: &serde_json::Value) -> (r: Result<String, serde_json::Error>)
    ensures
        r is Ok,
        float_free(json_tree(*v)) && nested_at_most(json_tree(*v), 100) ==> (r matches Ok(text) ==> parsed_json(text@) == Some(json_tree(*v))),
        float_free(json_tree(*v)) && nested_at_most(json_tree(*v), 100) && json_tree(*v) is Object ==> (r matches Ok(text) ==> (
            object_members(text@, every_key()) matches Some(members) && keys_distinct(members)
                && entries_map(members) == json_tree(*v)->Object_0)),
{
    serde_json::to_string(v)
}

/// The value under `key` of an object (`Value::get` with a `&str` index); `None` for a
/// missing key or a document that is not an object.
#[verifier::external_body]
pub(crate) fn json_get<'a>(v: &'a serde_json::Value, key: &str) -> (r: Option<&'a serde_json::Value>)
    ensures
        match json_tree(*v) {
            JsonTree::Object(m) => {
                &&& (r is Some <==> m.contains_key(key@))
                &&& (r matches Some(x) ==> json_tree(*x) == m[key@])
            },
            _ => r is None,
        },
{
    v.get(key)
}

/// The text of a string document (`Value::as_str`).
#[verifier::external_body]
pub(crate) fn json_as_str(v: &serde_json::Value) -> (r: Option<&str>)
    ensures
        match json_tree(*v) {
            JsonTree::Text(s) => r matches Some(x) && x@ == s,
            _ => r is None,
        },
{
    v.as_str()
}

/// The items of an array document (`Value::as_array`).
#[verifier::external_body]
pub(crate) fn json_as_array(v: &serde_json::Value) -> (r: Option<&Vec<serde_json::Value>>)
    ensures
        match json_tree(*v) {
            JsonTree::Array(items) => r matches Some(x) && trees(x@) == items,
            _ => r is None,
        },
{
    v.as_array()
}

/// Whether the document is `null` (`Value::is_null`).
#[verifier::external_body]
pub(crate) fn json_is_null(v: &serde_json::Value) -> (r: bool)
    ensures
        r == (json_tree(*v) is Null),
{
    v.is_null()
}

/// Whether the document is an object (`Value::is_object`).
#[verifier::external_body]
pub(crate) fn json_is_object(v: &serde_json::Value) -> (r: bool)
    ensures
        r == (json_tree(*v) is Object),
{
    v.is_object()
}

/// The `null` document (`Value::Null`).
#[verifier::external_body]
pub(crate) fn json_null() -> (r: serde_json::Value)
    ensures
        json_tree(r) == JsonTree::Null,
{
    serde_json::Value::Null
}

/// A string document (`Value::String`).
#[verifier::external_body]
pub(crate) fn json_text(s: String) -> (r: serde_json::Value)
    ensures
        json_tree(r) == JsonTree::Text(s@),
{
    serde_json::Value::String(s)
}

/// An integer document (`Value::from(u64)`).
#[verifier::external_body]
pub(crate) fn json_u64(n: u64) -> (r: serde_json::Value)
    ensures
        json_tree(r) == JsonTree::Integer(n as int),
{
    serde_json::Value::from(n)
}

/// An array document (`Value::Array`).
#[verifier::external_body]
pub(crate) fn json_array(items: Vec<serde_json::Value>) -> (r: serde_json::Value)
    ensures
        json_tree(r) == JsonTree::Array(trees(items@)),
{
    serde_json::Value::Array(items)
}

/// An object document built from entries with distinct keys (`Value::Object` of the
/// collected `Map`, which keeps the entries in the order given).
#[verifier::external_body]
pub(crate) fn json_object(entries: Vec<(String, serde_json::Value)>) -> (r: serde_json::Value)
    requires
        keys_distinct(entry_trees(entries@)),
    ensures
        json_tree(r) == JsonTree::Object(entries_map(entry_trees(entries@))),
{
    serde_json::Value::Object(entries.into_iter().collect())
}

/// Sets `key` of an object document to `val` (`Map::insert`), replacing any value the
/// key had.
#[verifier::external_body]
pub(crate) fn json_object_insert(v: &mut serde_json::Value, key: String, val: serde_json::Value)
    requires
        json_tree(*old(v)) is Object,
    ensures
        json_tree(*final(v)) == JsonTree::Object(json_tree(*old(v))->Object_0.insert(key@, json_tree(val))),
{
    if let serde_json::Value::Object(m) = v {
        m.insert(key, val);
    }
}

} // verus!
