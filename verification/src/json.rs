//! Documents as plain trees: JSON, read and written through `serde_json`,
//! and TOML, read and written through `toml` as the same trees.
use vstd::prelude::*;
use crate::text::text_eq;

verus! {

/// `serde_json::Value`, carried between the reader and the tree and never
/// looked into.
#[verifier::external_type_specification]
#[verifier::external_body]
pub struct ExJsonValue(serde_json::Value);

/// `serde_json::Number`, carried inside a tree and never looked into.
#[verifier::external_type_specification]
#[verifier::external_body]
pub struct ExJsonNumber(serde_json::Number);

/// A JSON value. An object keeps its members in the order in which the
/// reader hands them out. A number is carried as the reader made it and is
/// never looked into.
#[derive(Debug)]
pub enum Json {
    Null,
    Bool(bool),
    Number(serde_json::Number),
    Text(String),
    Array(Vec<Json>),
    Object(Vec<(String, Json)>),
}

/// What a `Json` says.
pub enum JsonView {
    Null,
    Bool(bool),
    Number(serde_json::Number),
    Text(Seq<char>),
    Array(Seq<JsonView>),
    Object(Seq<(Seq<char>, JsonView)>),
}

impl Json {
    /// What the value says: its strings by their characters, its arrays and
    /// objects by what their parts say.
    pub open spec fn shown(self) -> JsonView
        decreases self,
    {
        match self {
            Json::Null => JsonView::Null,
            Json::Bool(flag) => JsonView::Bool(flag),
            Json::Number(number) => JsonView::Number(number),
            Json::Text(text) => JsonView::Text(text@),
            Json::Array(items) => JsonView::Array(
                Seq::new(
                    items@.len(),
                    |i: int|
                        if 0 <= i < items@.len() {
                            items@[i].shown()
                        } else {
                            JsonView::Null
                        },
                ),
            ),
            Json::Object(members) => JsonView::Object(
                Seq::new(
                    members@.len(),
                    |i: int|
                        if 0 <= i < members@.len() {
                            (members@[i].0@, members@[i].1.shown())
                        } else {
                            (Seq::empty(), JsonView::Null)
                        },
                ),
            ),
        }
    }
}

impl View for Json {
    type V = JsonView;

    open spec fn view(&self) -> JsonView {
        self.shown()
    }
}

/// The views of the members of an object.
pub open spec fn member_views(members: Seq<(String, Json)>) -> Seq<(Seq<char>, JsonView)> {
    Seq::new(members.len(), |i: int| (members[i].0@, members[i].1@))
}

/// The views of a list of values.
pub open spec fn json_views(items: Seq<Json>) -> Seq<JsonView> {
    Seq::new(items.len(), |i: int| items[i]@)
}

/// The document that `serde_json::from_slice` reads from `bytes` as a
/// `serde_json::Value`, or `None` where it reports an error.
pub uninterp spec fn json_parse(bytes: Seq<u8>) -> Option<JsonView>;

/// The bytes that `serde_json` writes for the document through the
/// canonical formatter of `olpc_cjson`, or `None` where that reports an
/// error.
pub uninterp spec fn canonical_json(doc: JsonView) -> Option<Seq<u8>>;

/// The document that `toml::from_str` reads from `text` as a
/// `serde_json::Value`, or `None` where it reports an error.
pub uninterp spec fn toml_parse(text: Seq<char>) -> Option<JsonView>;

/// The text that `toml::to_string` writes for the document, or `None`
/// where it reports an error.
pub uninterp spec fn toml_text(doc: JsonView) -> Option<Seq<char>>;

/// The number that `serde_json::Number::from` makes of an unsigned integer.
pub uninterp spec fn number_of(value: u64) -> serde_json::Number;

/// What `serde_json::Number::as_u64` returns for the number: the integer
/// that it is, if it is an unsigned integer.
pub uninterp spec fn number_u64(number: serde_json::Number) -> Option<u64>;

/// Calls `serde_json::Number::from` on a `u64`. The number it makes is an
/// unsigned integer, so that `as_u64` gives the same integer back.
#[verifier::external_body]
pub(crate) fn number_from_u64(value: u64) -> (number: serde_json::Number)
    ensures
        number == number_of(value),
        number_u64(number) == Some(value),
{
    serde_json::Number::from(value)
}

/// Calls `serde_json::Number::as_u64`. The contract only gives the outcome
/// its name.
#[verifier::external_body]
pub(crate) fn number_as_u64(number: &serde_json::Number) -> (value: Option<u64>)
    ensures
        value == number_u64(*number),
{
    number.as_u64()
}

/// Moves a `serde_json::Value` into a `Json`, variant by variant.
#[verifier::external_body]
fn json_tree(value: serde_json::Value) -> Json {
    match value {
        serde_json::Value::Null => Json::Null,
        serde_json::Value::Bool(flag) => Json::Bool(flag),
        serde_json::Value::Number(number) => Json::Number(number),
        serde_json::Value::String(text) => Json::Text(text),
        serde_json::Value::Array(items) => Json::Array(items.into_iter().map(json_tree).collect()),
        serde_json::Value::Object(members) => Json::Object(
            members.into_iter().map(|(key, member)| (key, json_tree(member))).collect(),
        ),
    }
}

/// Copies a `Json` into a `serde_json::Value`, variant by variant. Of two
/// members with one name the later one stays, as in any `serde_json` object.
#[verifier::external_body]
fn json_value(doc: &Json) -> serde_json::Value {
    match doc {
        Json::Null => serde_json::Value::Null,
        Json::Bool(flag) => serde_json::Value::Bool(*flag),
        Json::Number(number) => serde_json::Value::Number(number.clone()),
        Json::Text(text) => serde_json::Value::String(text.clone()),
        Json::Array(items) => serde_json::Value::Array(items.iter().map(json_value).collect()),
        Json::Object(members) => serde_json::Value::Object(
            members.iter().map(|(key, member)| (key.clone(), json_value(member))).collect(),
        ),
    }
}

/// Calls `serde_json::from_slice` for a `serde_json::Value`, drops the detail
/// of an error and moves the value into a `Json`. The contract only gives the
/// outcome its name.
#[verifier::external_body]
pub(crate) fn parse_json(bytes: &[u8]) -> (doc: Option<Json>)
    ensures
        match doc {
            Some(doc) => json_parse(bytes@) == Some(doc@),
            None => json_parse(bytes@).is_none(),
        },
{
    serde_json::from_slice::<serde_json::Value>(bytes).ok().map(json_tree)
}

/// Serializes the document with `serde_json::Serializer::with_formatter`
/// and `olpc_cjson::CanonicalFormatter`, and drops the detail of an error.
/// The contract only gives the outcome its name.
#[verifier::external_body]
pub(crate) fn write_canonical_json(doc: &Json) -> (bytes: Option<Vec<u8>>)
    ensures
        match bytes {
            Some(bytes) => canonical_json(doc@) == Some(bytes@),
            None => canonical_json(doc@).is_none(),
        },
{
    let mut bytes = Vec::new();
    let formatter = olpc_cjson::CanonicalFormatter::new();
    let mut writer = serde_json::Serializer::with_formatter(&mut bytes, formatter);
    serde::Serialize::serialize(&json_value(doc), &mut writer).ok().map(|_| bytes)
}

/// Calls `toml::from_str` for a `serde_json::Value`, drops the detail of
/// an error and moves the value into a `Json`. The contract only gives the
/// outcome its name.
#[verifier::external_body]
pub(crate) fn parse_toml(text: &str) -> (doc: Option<Json>)
    ensures
        match doc {
            Some(doc) => toml_parse(text@) == Some(doc@),
            None => toml_parse(text@).is_none(),
        },
{
    toml::from_str::<serde_json::Value>(text).ok().map(json_tree)
}

/// Calls `toml::to_string` on the document as a `serde_json::Value` and
/// drops the detail of an error. The contract only gives the outcome its
/// name.
#[verifier::external_body]
pub(crate) fn write_toml(doc: &Json) -> (text: Option<String>)
    ensures
        match text {
            Some(text) => toml_text(doc@) == Some(text@),
            None => toml_text(doc@).is_none(),
        },
{
    toml::to_string(&json_value(doc)).ok()
}

/// The first member named `key` among `members[from..]`.
pub open spec fn member_from(members: Seq<(Seq<char>, JsonView)>, key: Seq<char>, from: int)
    -> Option<JsonView>
    decreases members.len() - from,
{
    if from < 0 || from >= members.len() {
        None
    } else if members[from].0 == key {
        Some(members[from].1)
    } else {
        member_from(members, key, from + 1)
    }
}

impl JsonView {
    /// The member named `key`, where this is an object that has one.
    pub open spec fn member(self, key: Seq<char>) -> Option<JsonView> {
        match self {
            JsonView::Object(members) => member_from(members, key, 0),
            _ => None,
        }
    }

    /// The characters of a JSON string.
    pub open spec fn text(self) -> Option<Seq<char>> {
        match self {
            JsonView::Text(text) => Some(text),
            _ => None,
        }
    }

    /// The items of a JSON array.
    pub open spec fn items(self) -> Option<Seq<JsonView>> {
        match self {
            JsonView::Array(items) => Some(items),
            _ => None,
        }
    }

    /// The characters of the member named `key`, where it is a string.
    pub open spec fn text_member(self, key: Seq<char>) -> Option<Seq<char>> {
        match self.member(key) {
            Some(member) => member.text(),
            None => None,
        }
    }

    /// The items of the member named `key`, where it is an array.
    pub open spec fn items_member(self, key: Seq<char>) -> Option<Seq<JsonView>> {
        match self.member(key) {
            Some(member) => member.items(),
            None => None,
        }
    }
}

/// An object says what its members say, in their order.
pub proof fn lemma_object_view(members: Vec<(String, Json)>)
    ensures
        Json::Object(members)@ == JsonView::Object(member_views(members@)),
{
    assert(Json::Object(members)@->Object_0 =~= member_views(members@));
}

/// An array says what its items say, in their order.
pub proof fn lemma_array_view(items: Vec<Json>)
    ensures
        Json::Array(items)@ == JsonView::Array(json_views(items@)),
{
    assert(Json::Array(items)@->Array_0 =~= json_views(items@));
}

impl Json {
    /// Looks up a member of an object by name.
    pub fn get(&self, key: &str) -> (found: Option<&Json>)
        ensures
            match found {
                Some(member) => self@.member(key@) == Some(member@),
                None => self@.member(key@).is_none(),
            },
    {
        match self {
            Json::Object(members) => {
                proof {
                    let shown = self@->Object_0;
                    assert(shown.len() == members@.len());
                    assert forall|i: int| 0 <= i < shown.len() implies shown[i] == member_views(
                        members@,
                    )[i] by {}
                    assert(shown =~= member_views(members@));
                }
                let mut i: usize = 0;
                while i < members.len()
                    invariant
                        i <= members.len(),
                        self@.member(key@) == member_from(member_views(members@), key@, i as int),
                    decreases members.len() - i,
                {
                    if text_eq(members[i].0.as_str(), key) {
                        return Some(&members[i].1);
                    }
                    i += 1;
                }
                None
            },
            _ => None,
        }
    }

    /// The string that this value is, if it is one.
    pub fn as_text(&self) -> (found: Option<&String>)
        ensures
            match found {
                Some(text) => self@.text() == Some(text@),
                None => self@.text().is_none(),
            },
    {
        match self {
            Json::Text(text) => Some(text),
            _ => None,
        }
    }

    /// The items of the array that this value is, if it is one.
    pub fn as_items(&self) -> (found: Option<&Vec<Json>>)
        ensures
            match found {
                Some(items) => self@.items() == Some(json_views(items@)),
                None => self@.items().is_none(),
            },
    {
        match self {
            Json::Array(items) => {
                proof {
                    lemma_array_view(*items);
                }
                Some(items)
            },
            _ => None,
        }
    }

    /// The string member named `key`.
    pub fn text_at(&self, key: &str) -> (found: Option<&String>)
        ensures
            match found {
                Some(text) => self@.text_member(key@) == Some(text@),
                None => self@.text_member(key@).is_none(),
            },
    {
        match self.get(key) {
            Some(member) => member.as_text(),
            None => None,
        }
    }

    /// The array member named `key`.
    pub fn items_at(&self, key: &str) -> (found: Option<&Vec<Json>>)
        ensures
            match found {
                Some(items) => self@.items_member(key@) == Some(json_views(items@)),
                None => self@.items_member(key@).is_none(),
            },
    {
        match self.get(key) {
            Some(member) => member.as_items(),
            None => None,
        }
    }
}

} // verus!
