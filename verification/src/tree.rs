//! JSON documents as trees of plain values.
//!
//! `serde_json` parses, holds and renders the documents; everything that is
//! decided about them is decided over [`Tree`].

use vstd::prelude::*;

verus! {

/// The mathematical content of a document.
pub enum Tree {
    Null,
    Bool(bool),
    Int(int),
    Real(Seq<char>),
    Text(Seq<char>),
    List(Seq<Tree>),
    Object(Map<Seq<char>, Tree>),
}

impl Tree {
    /// The member `key` of an object.
    pub open spec fn member(self, key: Seq<char>) -> Option<Tree> {
        match self {
            Tree::Object(m) => if m.contains_key(key) {
                Some(m[key])
            } else {
                None
            },
            _ => None,
        }
    }

    /// The text that this document is, if it is one.
    pub open spec fn text(self) -> Option<Seq<char>> {
        match self {
            Tree::Text(s) => Some(s),
            _ => None,
        }
    }

    /// The text under `key`.
    pub open spec fn text_at(self, key: Seq<char>) -> Option<Seq<char>> {
        match self.member(key) {
            Some(t) => t.text(),
            None => None,
        }
    }

    /// The truth value under `key`.
    pub open spec fn bool_at(self, key: Seq<char>) -> Option<bool> {
        match self.member(key) {
            Some(Tree::Bool(b)) => Some(b),
            _ => None,
        }
    }

    /// The unsigned number under `key`.
    pub open spec fn u64_at(self, key: Seq<char>) -> Option<u64> {
        match self.member(key) {
            Some(Tree::Int(n)) => if 0 <= n <= u64::MAX {
                Some(n as u64)
            } else {
                None
            },
            _ => None,
        }
    }
}

/// A document held by `serde_json`.
#[verifier::external_type_specification]
#[verifier::external_body]
pub struct ExValue(serde_json::Value);

/// What a `serde_json::Value` holds.
pub uninterp spec fn json_tree(value: serde_json::Value) -> Tree;

/// The document that `serde_json::from_str` reads from a text, if it reads one.
pub uninterp spec fn json_read(text: Seq<char>) -> Option<Tree>;

/// The text that `serde_json::Value` renders itself to.
pub uninterp spec fn json_text(tree: Tree) -> Seq<char>;

/// `serde_json::from_str` decides from the text alone whether it is a document,
/// and which one.
#[verifier::external_body]
pub(crate) fn json_parse(text: &str) -> (res: Option<serde_json::Value>)
    ensures
        match res {
            Some(v) => json_read(text@) == Some(json_tree(v)),
            None => json_read(text@) is None,
        },
{
    serde_json::from_str(text).ok()
}

/// The document that `serde_json::from_slice` reads from bytes, if it reads one.
pub uninterp spec fn json_read_bytes(bytes: Seq<u8>) -> Option<Tree>;

/// `serde_json::from_slice` decides from the bytes alone whether they are a
/// document, and which one.
#[verifier::external_body]
pub(crate) fn json_parse_bytes(bytes: &[u8]) -> (res: Option<serde_json::Value>)
    ensures
        match res {
            Some(v) => json_read_bytes(bytes@) == Some(json_tree(v)),
            None => json_read_bytes(bytes@) is None,
        },
{
    serde_json::from_slice(bytes).ok()
}

/// How many bytes `serde_json::StreamDeserializer` takes to pass over the first
/// value, if the bytes begin with one.
pub uninterp spec fn json_value_len(bytes: Seq<u8>) -> Option<nat>;

/// `serde_json::StreamDeserializer` over `serde::de::IgnoredAny` passes over the
/// first value and the white space before it without building it, and its
/// `byte_offset` then tells how far it came. It decides from the bytes alone, and
/// stays within them.
#[verifier::external_body]
pub(crate) fn json_value_end(bytes: &[u8]) -> (res: Option<usize>)
    ensures
        match res {
            Some(n) => json_value_len(bytes@) == Some(n as nat) && 0 < n <= bytes@.len(),
            None => json_value_len(bytes@) is None,
        },
{
    let mut values = serde_json::Deserializer::from_slice(bytes).into_iter::<serde::de::IgnoredAny>();
    match values.next() {
        Some(Ok(_)) => Some(values.byte_offset()),
        _ => None,
    }
}

/// `serde_json::Value::to_string` renders a document to a text that depends on
/// what the document holds.
#[verifier::external_body]
pub(crate) fn json_render(value: &serde_json::Value) -> (res: String)
    ensures
        res@ == json_text(json_tree(*value)),
{
    value.to_string()
}

/// `serde_json::Value::get` hands out the member of an object, and nothing for
/// any other document or a missing key.
#[verifier::external_body]
pub(crate) fn json_get<'a>(value: &'a serde_json::Value, key: &str) -> (res: Option<&'a serde_json::Value>)
    ensures
        match res {
            Some(v) => json_tree(*value).member(key@) == Some(json_tree(*v)),
            None => json_tree(*value).member(key@) is None,
        },
{
    value.get(key)
}

/// `serde_json::Value::as_str` hands out the text of a text.
#[verifier::external_body]
pub(crate) fn json_as_str(value: &serde_json::Value) -> (res: Option<&str>)
    ensures
        match res {
            Some(s) => json_tree(*value) == Tree::Text(s@),
            None => json_tree(*value).text() is None,
        },
{
    value.as_str()
}

/// `serde_json::Value::as_bool` hands out the truth value of a boolean.
#[verifier::external_body]
pub(crate) fn json_as_bool(value: &serde_json::Value) -> (res: Option<bool>)
    ensures
        match res {
            Some(b) => json_tree(*value) == Tree::Bool(b),
            None => !(json_tree(*value) is Bool),
        },
{
    value.as_bool()
}

/// `serde_json::Value::as_u64` hands out an integer that fits in 64 unsigned bits.
#[verifier::external_body]
pub(crate) fn json_as_u64(value: &serde_json::Value) -> (res: Option<u64>)
    ensures
        match res {
            Some(n) => json_tree(*value) == Tree::Int(n as int),
            None => !(json_tree(*value) matches Tree::Int(n) && 0 <= n <= u64::MAX),
        },
{
    value.as_u64()
}

/// `serde_json::Value::is_object` tells objects from every other document.
#[verifier::external_body]
pub(crate) fn json_is_object(value: &serde_json::Value) -> (res: bool)
    ensures
        res == (json_tree(*value) is Object),
{
    value.is_object()
}

/// `serde_json::Value::clone` copies a document.
#[verifier::external_body]
pub(crate) fn json_copy(value: &serde_json::Value) -> (res: serde_json::Value)
    ensures
        json_tree(res) == json_tree(*value),
{
    value.clone()
}

/// `serde_json::Value::Null` is the empty document.
#[verifier::external_body]
pub(crate) fn json_null() -> (res: serde_json::Value)
    ensures
        json_tree(res) == Tree::Null,
{
    serde_json::Value::Null
}

/// `serde_json::Value::Bool` holds a truth value.
#[verifier::external_body]
pub(crate) fn json_bool(b: bool) -> (res: serde_json::Value)
    ensures
        json_tree(res) == Tree::Bool(b),
{
    serde_json::Value::Bool(b)
}

/// `serde_json::Value::from` holds an unsigned integer.
#[verifier::external_body]
pub(crate) fn json_u64(n: u64) -> (res: serde_json::Value)
    ensures
        json_tree(res) == Tree::Int(n as int),
{
    serde_json::Value::from(n)
}

/// `serde_json::Value::String` holds a text.
#[verifier::external_body]
pub(crate) fn json_string(text: &str) -> (res: serde_json::Value)
    ensures
        json_tree(res) == Tree::Text(text@),
{
    serde_json::Value::String(text.to_string())
}

/// `serde_json::Value::Array` holds documents in order.
#[verifier::external_body]
pub(crate) fn json_list(items: Vec<serde_json::Value>) -> (res: serde_json::Value)
    ensures
        json_tree(res) == Tree::List(Seq::new(items@.len(), |i: int| json_tree(items@[i]))),
{
    serde_json::Value::Array(items)
}

/// `serde_json::Value::as_array` hands out the documents of a list in order.
#[verifier::external_body]
pub(crate) fn json_items(value: &serde_json::Value) -> (res: Option<Vec<serde_json::Value>>)
    ensures
        match res {
            Some(items) => json_tree(*value) == Tree::List(
                Seq::new(items@.len(), |i: int| json_tree(items@[i])),
            ),
            None => !(json_tree(*value) is List),
        },
{
    value.as_array().cloned()
}

/// `serde_json::Value::is_null` tells the empty document from every other one.
#[verifier::external_body]
pub(crate) fn json_is_null(value: &serde_json::Value) -> (res: bool)
    ensures
        res == (json_tree(*value) is Null),
{
    value.is_null()
}

/// `serde_json::Map::new` makes an object without members.
#[verifier::external_body]
pub(crate) fn json_object() -> (res: serde_json::Value)
    ensures
        json_tree(res) == Tree::Object(Map::empty()),
{
    serde_json::Value::Object(serde_json::Map::new())
}

/// `serde_json::Map::insert` puts a member into an object, replacing an earlier
/// member of that key.
#[verifier::external_body]
pub(crate) fn json_put(object: &mut serde_json::Value, key: &str, member: serde_json::Value)
    requires
        json_tree(*old(object)) is Object,
    ensures
        json_tree(*final(object)) == Tree::Object(
            json_tree(*old(object))->Object_0.insert(key@, json_tree(member)),
        ),
{
    if let Some(map) = object.as_object_mut() {
        map.insert(key.to_string(), member);
    }
}

/// `serde_json::Map::iter` hands out every member of an object once, and
/// `serde_json::Value::as_object` nothing for any other document.
#[verifier::external_body]
pub(crate) fn json_members(value: &serde_json::Value) -> (res: Vec<(String, serde_json::Value)>)
    ensures
        forall|i: int|
            0 <= i < res@.len() ==> json_tree(*value).member((#[trigger] res@[i]).0@) == Some(
                json_tree(res@[i].1),
            ),
        forall|i: int, j: int| 0 <= i < j < res@.len() ==> res@[i].0@ != res@[j].0@,
        forall|key: Seq<char>|
            (#[trigger] json_tree(*value).member(key)) is Some ==> exists|i: int|
                0 <= i < res@.len() && (#[trigger] res@[i]).0@ == key,
{
    match value.as_object() {
        Some(map) => map.iter().map(|(key, member)| (key.clone(), member.clone())).collect(),
        None => Vec::new(),
    }
}

/// The members that are texts.
pub open spec fn text_members(tree: Tree) -> Map<Seq<char>, Seq<char>> {
    Map::new(|k: Seq<char>| tree.text_at(k) is Some, |k: Seq<char>| tree.text_at(k)->0)
}

/// The members that are texts.
pub(crate) fn texts_in(value: &serde_json::Value) -> (res: crate::values::Values)
    ensures
        res.wf(),
        res@ == text_members(json_tree(*value)),
{
    let members = json_members(value);
    let ghost tree = json_tree(*value);
    let mut out = crate::values::Values::new();
    let mut i: usize = 0;
    while i < members.len()
        invariant
            i <= members@.len(),
            tree == json_tree(*value),
            out.wf(),
            forall|j: int|
                0 <= j < members@.len() ==> tree.member((#[trigger] members@[j]).0@) == Some(
                    json_tree(members@[j].1),
                ),
            forall|k: Seq<char>| #[trigger]
                out@.contains_key(k) ==> tree.text_at(k) == Some(out@[k]),
            forall|j: int|
                0 <= j < i && tree.text_at((#[trigger] members@[j]).0@) is Some ==> out@.contains_key(
                    members@[j].0@,
                ),
        decreases members@.len() - i,
    {
        if let Some(text) = json_as_str(&members[i].1) {
            out.insert(members[i].0.as_str(), text);
        }
        i = i + 1;
    }
    proof {
        assert forall|k: Seq<char>| tree.text_at(k) is Some implies out@.contains_key(k) by {
            assert(tree.member(k) is Some);
            let j = choose|j: int| 0 <= j < members@.len() && (#[trigger] members@[j]).0@ == k;
            assert(out@.contains_key(members@[j].0@));
        }
        assert(out@ =~= text_members(tree));
    }
    out
}

/// The text under `key`.
pub fn text_at(value: &serde_json::Value, key: &str) -> (res: Option<String>)
    ensures
        crate::text::opt_view(res) == json_tree(*value).text_at(key@),
{
    match json_get(value, key) {
        Some(v) => match json_as_str(v) {
            Some(s) => Some(s.to_owned()),
            None => None,
        },
        None => None,
    }
}

/// Whether the text `expected` stands under `key`.
pub fn has_text(value: &serde_json::Value, key: &str, expected: &str) -> (res: bool)
    ensures
        res == (json_tree(*value).text_at(key@) == Some(expected@)),
{
    match text_at(value, key) {
        Some(s) => crate::text::same(s.as_str(), expected),
        None => false,
    }
}

/// The truth value under `key`.
pub fn bool_at(value: &serde_json::Value, key: &str) -> (res: Option<bool>)
    ensures
        res == json_tree(*value).bool_at(key@),
{
    match json_get(value, key) {
        Some(v) => json_as_bool(v),
        None => None,
    }
}

/// The unsigned number under `key`.
pub fn u64_at(value: &serde_json::Value, key: &str) -> (res: Option<u64>)
    ensures
        res == json_tree(*value).u64_at(key@),
{
    match json_get(value, key) {
        Some(v) => json_as_u64(v),
        None => None,
    }
}

/// An optional text as a document.
pub open spec fn opt_tree(text: Option<Seq<char>>) -> Tree {
    match text {
        Some(s) => Tree::Text(s),
        None => Tree::Null,
    }
}

/// An optional text as a document.
pub(crate) fn json_opt(text: &Option<String>) -> (res: serde_json::Value)
    ensures
        json_tree(res) == opt_tree(crate::text::opt_view(*text)),
{
    match text {
        Some(s) => json_string(s.as_str()),
        None => json_null(),
    }
}

/// Puts a text member into an object.
pub(crate) fn put_text(object: &mut serde_json::Value, key: &str, text: &str)
    requires
        json_tree(*old(object)) is Object,
    ensures
        json_tree(*final(object)) == Tree::Object(
            json_tree(*old(object))->Object_0.insert(key@, Tree::Text(text@)),
        ),
{
    json_put(object, key, json_string(text));
}

} // verus!
