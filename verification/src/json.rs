//! JSON documents as the library sees them, and the calls into `serde_json`
//! that read and quote them.

use serde_json::Value;
use vstd::prelude::*;
use crate::text::str_eq;

verus! {

/// `serde_json::Value`, whose inside the library reads through
/// `tree_from_value` alone.
#[verifier::external_type_specification]
#[verifier::external_body]
pub struct ExValue(Value);

/// `serde_json::Error`, of which the library takes the message alone.
#[verifier::external_type_specification]
#[verifier::external_body]
pub struct ExJsonError(serde_json::Error);

/// A JSON number, as its three readings: as a whole number from 0 on, where
/// it is one that fits 64 bits; as a whole number, where it is one that fits
/// 64 bits with a sign; and as a double, given by its 64 bits.
#[derive(Debug, Clone, Copy, PartialEq, Eq)]
pub struct JsonNumber {
    pub unsigned: Option<u64>,
    pub signed: Option<i64>,
    pub bits: Option<u64>,
}

/// A JSON document: what the library reads from a parsed line.
#[derive(Debug, PartialEq)]
pub enum Json {
    Null,
    Bool(bool),
    Number(JsonNumber),
    Text(String),
    Array(Vec<Json>),
    Object(Vec<Member>),
}

/// One member of a JSON object.
#[derive(Debug, PartialEq)]
pub struct Member {
    pub key: String,
    pub value: Json,
}

/// The mathematical model of a `Json` value.
pub enum JsonView {
    Null,
    Bool(bool),
    Number(JsonNumber),
    Text(Seq<char>),
    Array(Seq<JsonView>),
    Object(Seq<MemberView>),
}

/// The mathematical model of a `Member`.
pub struct MemberView {
    pub key: Seq<char>,
    pub value: JsonView,
}

impl View for Json {
    type V = JsonView;

    open spec fn view(&self) -> JsonView {
        json_view(*self)
    }
}

/// The model of a document.
pub open spec fn json_view(json: Json) -> JsonView
    decreases json,
{
    match json {
        Json::Null => JsonView::Null,
        Json::Bool(flag) => JsonView::Bool(flag),
        Json::Number(number) => JsonView::Number(number),
        Json::Text(text) => JsonView::Text(text@),
        Json::Array(items) => JsonView::Array(items_view(items@)),
        Json::Object(members) => JsonView::Object(members_view(members@)),
    }
}

/// The models of the items of an array, in their order.
pub open spec fn items_view(items: Seq<Json>) -> Seq<JsonView>
    decreases items,
{
    if items.len() == 0 {
        Seq::empty()
    } else {
        items_view(items.drop_last()).push(json_view(items.last()))
    }
}

/// The models of the members of an object, in their order.
pub open spec fn members_view(members: Seq<Member>) -> Seq<MemberView>
    decreases members,
{
    if members.len() == 0 {
        Seq::empty()
    } else {
        members_view(members.drop_last()).push(
            MemberView { key: members.last().key@, value: json_view(members.last().value) },
        )
    }
}

/// The models of the items of an array, one by one.
pub proof fn lemma_items_view(items: Seq<Json>)
    ensures
        items_view(items).len() == items.len(),
        forall|k: int| 0 <= k < items.len() ==> items_view(items)[k] == (#[trigger] items[k])@,
    decreases items.len(),
{
    if items.len() > 0 {
        lemma_items_view(items.drop_last());
        assert forall|k: int| 0 <= k < items.len() implies items_view(items)[k] == (
        #[trigger] items[k])@ by {
            if k < items.len() - 1 {
                assert(items.drop_last()[k] == items[k]);
            }
        }
    }
}

/// The models of the members of an object, one by one.
pub proof fn lemma_members_view(members: Seq<Member>)
    ensures
        members_view(members).len() == members.len(),
        forall|k: int|
            0 <= k < members.len() ==> members_view(members)[k] == (MemberView {
                key: (#[trigger] members[k]).key@,
                value: members[k].value@,
            }),
    decreases members.len(),
{
    if members.len() > 0 {
        lemma_members_view(members.drop_last());
        assert forall|k: int| 0 <= k < members.len() implies members_view(members)[k] == (
        MemberView { key: (#[trigger] members[k]).key@, value: members[k].value@ }) by {
            if k < members.len() - 1 {
                assert(members.drop_last()[k] == members[k]);
            }
        }
    }
}

/// The value under `key` in the members of an object: that of the first
/// member with this key.
pub open spec fn member_of(members: Seq<MemberView>, key: Seq<char>) -> Option<JsonView>
    decreases members.len(),
{
    if members.len() == 0 {
        None
    } else if members[0].key == key {
        Some(members[0].value)
    } else {
        member_of(members.skip(1), key)
    }
}

impl JsonView {
    /// The value under `key`, where this is an object that has such a member.
    pub open spec fn get(self, key: Seq<char>) -> Option<JsonView> {
        match self {
            JsonView::Object(members) => member_of(members, key),
            _ => None,
        }
    }

    /// The characters of a JSON string.
    pub open spec fn as_text(self) -> Option<Seq<char>> {
        match self {
            JsonView::Text(text) => Some(text),
            _ => None,
        }
    }
}

/// The view of an array, item by item.
pub proof fn lemma_view_of_array(json: Json)
    requires
        json is Array,
    ensures
        json@ is Array,
        json@->Array_0.len() == json->Array_0.len(),
        forall|k: int|
            0 <= k < json->Array_0.len() ==> json@->Array_0[k] == (#[trigger] json->Array_0[k])@,
{
    lemma_items_view(json->Array_0@);
}

/// The view of an object, member by member.
pub proof fn lemma_view_of_object(json: Json)
    requires
        json is Object,
    ensures
        json@ is Object,
        json@->Object_0.len() == json->Object_0.len(),
        forall|k: int|
            0 <= k < json->Object_0.len() ==> json@->Object_0[k] == (MemberView {
                key: (#[trigger] json->Object_0[k]).key@,
                value: json->Object_0[k].value@,
            }),
{
    lemma_members_view(json->Object_0@);
}

/// What `serde_json::from_str` makes of a text: the document it holds, or
/// nothing where the text is no JSON document.
pub uninterp spec fn json_document(text: Seq<char>) -> Option<JsonView>;

/// The document that a `serde_json::Value` holds, node for node: the items of
/// an array and the members of an object in the order in which the value
/// hands them out, a number as what `as_u64`, `as_i64` and `as_f64` give for
/// it.
pub uninterp spec fn value_tree(value: Value) -> JsonView;

/// What `serde_json::to_string` makes of a string: its JSON string literal,
/// quotes included.
pub uninterp spec fn quoted(text: Seq<char>) -> Seq<char>;

/// A text that is written into a JSON string literal as it is: it holds no
/// quote, no backslash and no character below U+0020.
pub open spec fn is_plain(text: Seq<char>) -> bool {
    forall|i: int| 0 <= i < text.len() ==> text[i] != '"' && text[i] != '\\' && text[i] >= ' '
}

/// A text between two quotes.
pub open spec fn plain_literal(text: Seq<char>) -> Seq<char> {
    seq!['"'] + text + seq!['"']
}

/// `serde_json::from_str` at the type `serde_json::Value`. The contract names
/// the outcome: an `Ok` exactly where the text is a JSON document, holding
/// that document.
#[verifier::external_body]
fn parse_value(text: &str) -> (r: Result<Value, serde_json::Error>)
    ensures
        r is Ok <==> json_document(text@) is Some,
        r matches Ok(value) ==> json_document(text@) == Some(value_tree(value)),
{
    serde_json::from_str::<Value>(text)
}

/// Rebuilds a `serde_json::Value` as a `Json`, variant by variant: the fields
/// move over unchanged, the items of an array and the members of an object in
/// the order of `iter()`, a number as its three readings (`Number::as_u64`,
/// `Number::as_i64`, and `Number::as_f64` handed on as the bits of the
/// double).
#[verifier::external_body]
fn tree_from_value(value: &Value) -> (r: Json)
    ensures
        r@ == value_tree(*value),
{
    match value {
        Value::Null => Json::Null,
        Value::Bool(flag) => Json::Bool(*flag),
        Value::Number(number) => Json::Number(JsonNumber {
            unsigned: number.as_u64(),
            signed: number.as_i64(),
            bits: number.as_f64().map(|double| double.to_bits()),
        }),
        Value::String(text) => Json::Text(text.clone()),
        Value::Array(items) => Json::Array(items.iter().map(tree_from_value).collect()),
        Value::Object(members) => Json::Object(
            members.iter().map(|(key, item)| Member { key: key.clone(), value: tree_from_value(item) }).collect(),
        ),
    }
}

/// The message of a `serde_json::Error` (its `Display`).
#[verifier::external_body]
fn error_text(error: &serde_json::Error) -> (r: String) {
    error.to_string()
}

/// `serde_json::to_string` at the type `str`: the JSON string literal of a
/// text. The contract names the outcome and adds what the source of
/// `serde_json` shows. The call does not fail: a string is written into a
/// byte vector, which takes every write. Every character below U+0020 is
/// written as an escape, so the literal holds no line break. And a text that
/// needs no escape stands unchanged between two quotes.
#[verifier::external_body]
fn quote_value(text: &str) -> (r: Result<String, serde_json::Error>)
    ensures
        r is Ok,
        r matches Ok(literal) ==> literal@ == quoted(text@),
        r matches Ok(literal) ==> !literal@.contains('\n'),
        r matches Ok(literal) ==> (is_plain(text@) ==> literal@ == plain_literal(text@)),
{
    serde_json::to_string(text)
}

/// Why a text could not be read as a JSON document: the parser's message.
#[derive(Debug, PartialEq)]
pub struct SyntaxError {
    pub message: String,
}

impl Json {
    /// Reads a text as one JSON document.
    pub fn parse(text: &str) -> (r: Result<Json, SyntaxError>)
        ensures
            r is Ok <==> json_document(text@) is Some,
            r matches Ok(json) ==> json_document(text@) == Some(json@),
    {
        match parse_value(text) {
            Ok(value) => Ok(tree_from_value(&value)),
            Err(error) => Err(SyntaxError { message: error_text(&error) }),
        }
    }

    /// The JSON string literal of a text: the text between two quotes where
    /// it needs no escape, and never with a line break in it.
    pub fn quote(text: &str) -> (r: String)
        ensures
            r@ == quoted(text@),
            !r@.contains('\n'),
            is_plain(text@) ==> r@ == plain_literal(text@),
    {
        match quote_value(text) {
            Ok(literal) => literal,
            Err(_) => unreached(),
        }
    }

    /// The value under `key`, where this is an object that has such a member.
    pub fn get(&self, key: &str) -> (r: Option<&Json>)
        ensures
            r is Some <==> self@.get(key@) is Some,
            r matches Some(found) ==> self@.get(key@) == Some(found@),
    {
        match self {
            Json::Object(members) => {
                proof {
                    lemma_view_of_object(*self);
                }
                assert(self@->Object_0.skip(0) =~= self@->Object_0);
                let mut i: usize = 0;
                while i < members.len()
                    invariant
                        i <= members.len(),
                        self@ is Object,
                        self@->Object_0.len() == members.len(),
                        forall|k: int|
                            0 <= k < members.len() ==> self@->Object_0[k] == (MemberView {
                                key: members[k].key@,
                                value: members[k].value@,
                            }),
                        member_of(self@->Object_0, key@) == member_of(
                            self@->Object_0.skip(i as int),
                            key@,
                        ),
                    decreases members.len() - i,
                {
                    let ghost rest = self@->Object_0.skip(i as int);
                    assert(rest[0] == self@->Object_0[i as int]);
                    assert(rest.skip(1) =~= self@->Object_0.skip(i as int + 1));
                    if str_eq(members[i].key.as_str(), key) {
                        return Some(&members[i].value);
                    }
                    i = i + 1;
                }
                None
            },
            _ => None,
        }
    }

    /// The characters of a JSON string.
    pub fn as_text(&self) -> (r: Option<&str>)
        ensures
            r is Some <==> self@.as_text() is Some,
            r matches Some(text) ==> self@.as_text() == Some(text@),
    {
        match self {
            Json::Text(text) => Some(text.as_str()),
            _ => None,
        }
    }
}

/// A copy of a document.
pub fn clone_json(json: &Json) -> (r: Json)
    ensures
        r@ == json@,
    decreases json, 1nat,
{
    match json {
        Json::Null => Json::Null,
        Json::Bool(flag) => Json::Bool(*flag),
        Json::Number(number) => Json::Number(*number),
        Json::Text(text) => Json::Text(text.clone()),
        Json::Array(items) => {
            let copies = clone_items(items);
            let r = Json::Array(copies);
            proof {
                lemma_view_of_array(r);
                lemma_view_of_array(*json);
                assert forall|k: int| 0 <= k < items.len() implies r@->Array_0[k]
                    == json@->Array_0[k] by {
                    assert(r->Array_0[k]@ == json->Array_0[k]@);
                }
                assert(r@->Array_0 =~= json@->Array_0);
            }
            r
        },
        Json::Object(members) => {
            let copies = clone_members(members);
            let r = Json::Object(copies);
            proof {
                lemma_view_of_object(r);
                lemma_view_of_object(*json);
                assert forall|k: int| 0 <= k < members.len() implies r@->Object_0[k]
                    == json@->Object_0[k] by {
                    assert(r->Object_0[k].key@ == json->Object_0[k].key@);
                    assert(r->Object_0[k].value@ == json->Object_0[k].value@);
                }
                assert(r@->Object_0 =~= json@->Object_0);
            }
            r
        },
    }
}

fn clone_items(items: &Vec<Json>) -> (r: Vec<Json>)
    ensures
        r.len() == items.len(),
        forall|k: int| 0 <= k < items.len() ==> r[k]@ == items[k]@,
    decreases items, 0nat,
{
    let mut out: Vec<Json> = Vec::new();
    let mut i: usize = 0;
    while i < items.len()
        invariant
            i <= items.len(),
            out.len() == i,
            forall|k: int| 0 <= k < i ==> out[k]@ == items[k]@,
        decreases items.len() - i,
    {
        let item = clone_json(&items[i]);
        out.push(item);
        i = i + 1;
    }
    out
}

fn clone_members(members: &Vec<Member>) -> (r: Vec<Member>)
    ensures
        r.len() == members.len(),
        forall|k: int|
            0 <= k < members.len() ==> r[k].key@ == members[k].key@ && r[k].value@
                == members[k].value@,
    decreases members, 0nat,
{
    let mut out: Vec<Member> = Vec::new();
    let mut i: usize = 0;
    while i < members.len()
        invariant
            i <= members.len(),
            out.len() == i,
            forall|k: int|
                0 <= k < i ==> out[k].key@ == members[k].key@ && out[k].value@ == members[k].value@,
        decreases members.len() - i,
    {
        let key = members[i].key.clone();
        let value = clone_json(&members[i].value);
        out.push(Member { key, value });
        i = i + 1;
    }
    out
}

impl Clone for Json {
    fn clone(&self) -> (r: Self)
        ensures
            r@ == self@,
    {
        clone_json(self)
    }
}

} // verus!
