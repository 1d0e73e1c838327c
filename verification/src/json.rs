//! A JSON document as plain data, and its passage to and from text.
//!
//! The grammar of JSON is `serde_json`'s: it parses and prints. What a document
//! holds is this module's [`Json`], which the rest of the library reads and
//! builds.

use vstd::prelude::*;
use vstd::string::StringExecFns;
use serde_json::Value;
use crate::error::DeserializationError;

verus! {

/// `serde_json::Value`, which crosses this module on its way to and from text.
#[verifier::external_type_specification]
#[verifier::external_body]
pub struct ExValue(serde_json::Value);

/// `serde_json::Number`, carried unread inside [`Json::Inexact`].
#[verifier::external_type_specification]
#[verifier::external_body]
pub struct ExNumber(serde_json::Number);

/// `serde_json::Error`, the parser's complaint.
#[verifier::external_type_specification]
#[verifier::external_body]
pub struct ExError(serde_json::Error);

/// A JSON document.
#[derive(Debug, PartialEq)]
pub enum Json {
    /// `null`
    Null,
    /// `true` or `false`
    Bool(bool),
    /// A whole number from 0 to 2<sup>64</sup> - 1.
    Number(u64),
    /// Any other number (negative, fractional or larger), kept as the parser
    /// gave it. No key of the wire format takes such a number.
    Inexact(serde_json::Number),
    /// A string.
    Text(String),
    /// An array.
    Array(Vec<Json>),
    /// An object: its members in the order of the text.
    Object(Vec<(String, Json)>),
}

/// What a [`Json`] holds, as a mathematical value.
pub enum JsonView {
    /// `null`
    Null,
    /// `true` or `false`
    Bool(bool),
    /// A whole number from 0 to 2<sup>64</sup> - 1.
    Number(u64),
    /// Any other number.
    Inexact(serde_json::Number),
    /// A string, as its characters.
    Text(Seq<char>),
    /// An array, as its items.
    Array(Seq<JsonView>),
    /// An object, as its members: key and value, in their order.
    Object(Seq<(Seq<char>, JsonView)>),
}

impl Json {
    /// What the document holds.
    pub open spec fn value(self) -> JsonView
        decreases self,
    {
        match self {
            Json::Null => JsonView::Null,
            Json::Bool(b) => JsonView::Bool(b),
            Json::Number(n) => JsonView::Number(n),
            Json::Inexact(n) => JsonView::Inexact(n),
            Json::Text(s) => JsonView::Text(s@),
            Json::Array(items) => JsonView::Array(
                Seq::new(
                    items@.len(),
                    |i: int|
                        if 0 <= i < items@.len() {
                            items@[i].value()
                        } else {
                            JsonView::Null
                        },
                ),
            ),
            Json::Object(members) => JsonView::Object(
                Seq::new(
                    members@.len(),
                    |i: int|
                        if 0 <= i < members@.len() {
                            (members@[i].0@, members@[i].1.value())
                        } else {
                            (Seq::empty(), JsonView::Null)
                        },
                ),
            ),
        }
    }
}

impl View for Json {
    type V = JsonView;

    open spec fn view(&self) -> JsonView {
        self.value()
    }
}

/// The views of an array's items, item by item.
pub open spec fn items_view(items: Seq<Json>) -> Seq<JsonView> {
    Seq::new(items.len(), |i: int| items[i]@)
}

/// The views of an object's members, member by member.
pub open spec fn members_view(members: Seq<(String, Json)>) -> Seq<(Seq<char>, JsonView)> {
    Seq::new(members.len(), |i: int| (members[i].0@, members[i].1@))
}

/// The view of an array is the array of its items' views.
pub proof fn lemma_view_array(items: Vec<Json>)
    ensures
        Json::Array(items)@ == JsonView::Array(items_view(items@)),
{
    assert(Json::Array(items)@->Array_0 =~= items_view(items@));
}

/// The view of an object is the sequence of its members' views.
pub proof fn lemma_view_object(members: Vec<(String, Json)>)
    ensures
        Json::Object(members)@ == JsonView::Object(members_view(members@)),
{
    assert(Json::Object(members)@->Object_0 =~= members_view(members@));
}

/// The value of the first member named `key`, if there is one.
pub open spec fn member(members: Seq<(Seq<char>, JsonView)>, key: Seq<char>) -> Option<JsonView>
    decreases members.len(),
{
    if members.len() == 0 {
        None
    } else if members[0].0 == key {
        Some(members[0].1)
    } else {
        member(members.drop_first(), key)
    }
}

/// Whether no key occurs twice among the members of an object.
pub open spec fn distinct_keys(members: Seq<(Seq<char>, JsonView)>) -> bool {
    forall|i: int, j: int|
        0 <= i < j < members.len() ==> (#[trigger] members[i]).0 != (#[trigger] members[j]).0
}

/// A member before which no member has the same key is the one that `member`
/// finds.
pub proof fn lemma_member_found(members: Seq<(Seq<char>, JsonView)>, key: Seq<char>, at: int)
    requires
        0 <= at < members.len(),
        members[at].0 == key,
        forall|j: int| 0 <= j < at ==> (#[trigger] members[j]).0 != key,
    ensures
        member(members, key) == Some(members[at].1),
    decreases members.len(),
{
    if at > 0 {
        lemma_member_found(members.drop_first(), key, at - 1);
    }
}

/// Where no member has the key, `member` finds nothing.
pub proof fn lemma_member_absent(members: Seq<(Seq<char>, JsonView)>, key: Seq<char>)
    requires
        forall|j: int| 0 <= j < members.len() ==> (#[trigger] members[j]).0 != key,
    ensures
        member(members, key) is None,
    decreases members.len(),
{
    if members.len() > 0 {
        lemma_member_absent(members.drop_first(), key);
    }
}

/// A member put into an object, at whatever place, changes nothing of what
/// the object holds under the other keys.
pub proof fn lemma_member_passes_over(
    members: Seq<(Seq<char>, JsonView)>,
    at: int,
    extra: (Seq<char>, JsonView),
    key: Seq<char>,
)
    requires
        0 <= at <= members.len(),
        extra.0 != key,
    ensures
        member(members.insert(at, extra), key) == member(members, key),
    decreases members.len(),
{
    let longer = members.insert(at, extra);
    if at == 0 {
        assert(longer.drop_first() =~= members);
    } else {
        assert(longer[0] == members[0]);
        assert(longer.drop_first() =~= members.drop_first().insert(at - 1, extra));
        lemma_member_passes_over(members.drop_first(), at - 1, extra, key);
    }
}

/// Where the value of one member is replaced, the object holds what it held
/// under every other key; under the member's own key it holds what it held,
/// or the new value where it held the old one.
pub proof fn lemma_member_after_update(
    members: Seq<(Seq<char>, JsonView)>,
    at: int,
    value: JsonView,
    key: Seq<char>,
)
    requires
        0 <= at < members.len(),
    ensures
        key != members[at].0 ==> member(members.update(at, (members[at].0, value)), key) == member(
            members,
            key,
        ),
        member(members.update(at, (members[at].0, value)), key) == member(members, key) || (member(
            members,
            key,
        ) == Some(members[at].1) && member(members.update(at, (members[at].0, value)), key)
            == Some(value)),
    decreases members.len(),
{
    let updated = members.update(at, (members[at].0, value));
    if at == 0 {
        assert(updated.drop_first() =~= members.drop_first());
    } else {
        assert(updated.drop_first() =~= members.drop_first().update(
            at - 1,
            (members[at].0, value),
        ));
        lemma_member_after_update(members.drop_first(), at - 1, value, key);
    }
}

/// What `member` finds is among the members, under the key; where it finds
/// nothing, no member has the key.
pub proof fn lemma_member_is_among(members: Seq<(Seq<char>, JsonView)>, key: Seq<char>)
    ensures
        match member(members, key) {
            Some(value) => members.contains((key, value)),
            None => forall|j: int| 0 <= j < members.len() ==> (#[trigger] members[j]).0 != key,
        },
    decreases members.len(),
{
    if members.len() > 0 && members[0].0 != key {
        let rest = members.drop_first();
        lemma_member_is_among(rest, key);
        if member(rest, key) is None {
            assert forall|j: int| 0 <= j < members.len() implies (#[trigger] members[j]).0
                != key by {
                if j > 0 {
                    assert(rest[j - 1] == members[j]);
                }
            }
        }
    }
}

/// An object without a repeated key and another that has the same members, in
/// whatever order, hold the same value under every key.
pub proof fn lemma_member_ignores_order(
    a: Seq<(Seq<char>, JsonView)>,
    b: Seq<(Seq<char>, JsonView)>,
    key: Seq<char>,
)
    requires
        distinct_keys(a),
        forall|m: (Seq<char>, JsonView)| a.contains(m) <==> b.contains(m),
    ensures
        member(a, key) == member(b, key),
{
    lemma_member_is_among(a, key);
    lemma_member_is_among(b, key);
}

impl JsonView {
    /// The value under `key`, where this is an object that has the key.
    pub open spec fn get(self, key: Seq<char>) -> Option<JsonView> {
        match self {
            JsonView::Object(members) => member(members, key),
            _ => None,
        }
    }
}

/// The document that `serde_json::from_str` reads from a text as a `Value`,
/// rewritten as a [`Json`]; `None` where it reports an error. Nothing is
/// claimed of it but that it depends on the text alone.
pub uninterp spec fn parsed(text: Seq<char>) -> Option<JsonView>;

/// The compact text that `serde_json::to_string` prints for a document,
/// rewritten as a `Value`. Nothing is claimed of it but that it depends on the
/// document alone.
pub uninterp spec fn rendered(doc: JsonView) -> Seq<char>;

/// Rewrites a `serde_json::Value` as a [`Json`], variant by variant. A number
/// becomes [`Json::Number`] where `Number::as_u64` yields its value, and is
/// carried in [`Json::Inexact`] otherwise. An object's members come in the
/// order in which its `Map` hands them out. No contract: what it returns is
/// part of what [`parsed`] names.
#[verifier::external_body]
fn json_of_value(value: Value) -> (json: Json) {
    match value {
        Value::Null => Json::Null,
        Value::Bool(b) => Json::Bool(b),
        Value::Number(n) => match n.as_u64() {
            Some(u) => Json::Number(u),
            None => Json::Inexact(n),
        },
        Value::String(s) => Json::Text(s),
        Value::Array(a) => Json::Array(a.into_iter().map(json_of_value).collect()),
        Value::Object(o) => Json::Object(o.into_iter().map(|(k, v)| (k, json_of_value(v))).collect()),
    }
}

/// Rewrites a [`Json`] as a `serde_json::Value`, variant by variant: a number
/// through `Value::from`, the members of an object collected into a `Map` in
/// their order. No contract: what it returns is part of what [`rendered`]
/// names.
#[verifier::external_body]
fn value_of_json(json: &Json) -> (value: Value) {
    match json {
        Json::Null => Value::Null,
        Json::Bool(b) => Value::Bool(*b),
        Json::Number(n) => Value::from(*n),
        Json::Inexact(n) => Value::Number(n.clone()),
        Json::Text(s) => Value::String(s.clone()),
        Json::Array(a) => Value::Array(a.iter().map(value_of_json).collect()),
        Json::Object(o) => Value::Object(o.iter().map(|(k, v)| (k.clone(), value_of_json(v))).collect()),
    }
}

/// Calls `serde_json::from_str` at the type `Value`. The contract only names
/// the outcome: the same text always gives the same document or the same
/// refusal.
#[verifier::external_body]
fn parse_text(text: &str) -> (r: Result<Json, serde_json::Error>)
    ensures
        r matches Ok(json) ==> parsed(text@) == Some(json@),
        r is Err ==> parsed(text@) is None,
{
    serde_json::from_str::<Value>(text).map(json_of_value)
}

/// Calls `serde_json::to_string` on a `Value`. The contract claims that it
/// succeeds, since printing a `Value` into a string has nothing to fail on (its
/// keys are strings, its numbers are finite and nothing is written but to
/// memory), and names the text.
#[verifier::external_body]
fn render_text(json: &Json) -> (r: Result<String, serde_json::Error>)
    ensures
        r is Ok,
        r matches Ok(text) ==> text@ == rendered(json@),
{
    serde_json::to_string(&value_of_json(json))
}

/// The first member of `members` whose key is `key`.
pub fn find<'a>(members: &'a Vec<(String, Json)>, key: &str) -> (r: Option<&'a Json>)
    ensures
        match r {
            Some(json) => member(members_view(members@), key@) == Some(json@),
            None => member(members_view(members@), key@) is None,
        },
{
    let wanted = String::from_str(key);
    let ghost all = members_view(members@);
    let mut i: usize = 0;
    assert(all.skip(0) =~= all);
    while i < members.len()
        invariant
            i <= members.len(),
            all == members_view(members@),
            wanted@ == key@,
            member(all, key@) == member(all.skip(i as int), key@),
        decreases members.len() - i,
    {
        assert(all.skip(i as int).drop_first() =~= all.skip(i + 1));
        if members[i].0 == wanted {
            return Some(&members[i].1);
        }
        i += 1;
    }
    None
}

impl Json {
    /// Reads a JSON text. Where the text repeats a key, the parser keeps the
    /// key's first place and its last value.
    pub fn parse(text: &str) -> (r: Result<Json, DeserializationError>)
        ensures
            match r {
                Ok(json) => parsed(text@) == Some(json@),
                Err(e) => parsed(text@) is None && e == DeserializationError::Syntax,
            },
    {
        match parse_text(text) {
            Ok(json) => Ok(json),
            Err(_) => Err(DeserializationError::Syntax),
        }
    }

    /// Prints the document as compact JSON text.
    pub fn render(&self) -> (text: String)
        ensures
            text@ == rendered(self@),
    {
        match render_text(self) {
            Ok(text) => text,
            Err(_) => String::new(),
        }
    }

    /// The value under `key`, where this is an object that has the key.
    pub fn get(&self, key: &str) -> (r: Option<&Json>)
        ensures
            match r {
                Some(json) => self@.get(key@) == Some(json@),
                None => self@.get(key@) is None,
            },
    {
        match self {
            Json::Object(members) => {
                proof {
                    lemma_view_object(*members);
                }
                find(members, key)
            },
            _ => None,
        }
    }
}

} // verus!
