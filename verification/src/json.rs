//! JSON documents as trees of plain values, and typed access to their members.
//!
//! Reading a document from text is left to `serde_json`; what a schema makes
//! of the document is decided here.

use crate::decimal::{read_from, Decimal};
use crate::text::same_text;
use vstd::prelude::*;

verus! {

/// The failure of `serde_json` to read a document.
#[verifier::external_type_specification]
#[verifier::external_body]
pub struct ExJsonError(serde_json::Error);

/// A document as `serde_json` holds it.
#[verifier::external_type_specification]
#[verifier::external_body]
pub struct ExJsonValue(serde_json::Value);

/// One JSON value.
#[derive(Debug, PartialEq, Eq)]
pub enum Json {
    Null,
    Bool(bool),
    /// A whole number that is not negative.
    Unsigned(u64),
    /// A whole number below zero.
    Signed(i64),
    /// Any other number, by its text.
    Real(String),
    Text(String),
    Array(Vec<Json>),
    /// The members of an object, each with its key.
    Object(Vec<(String, Json)>),
}

/// One JSON value as a mathematical value.
pub enum JsonView {
    Null,
    Bool(bool),
    Unsigned(u64),
    Signed(i64),
    Real(Seq<char>),
    Text(Seq<char>),
    Array(Seq<JsonView>),
    Object(Seq<(Seq<char>, JsonView)>),
}

/// The value of `j` as a mathematical value.
pub open spec fn value_of(j: Json) -> JsonView
    decreases j,
{
    match j {
        Json::Null => JsonView::Null,
        Json::Bool(b) => JsonView::Bool(b),
        Json::Unsigned(n) => JsonView::Unsigned(n),
        Json::Signed(n) => JsonView::Signed(n),
        Json::Real(s) => JsonView::Real(s@),
        Json::Text(s) => JsonView::Text(s@),
        Json::Array(items) => JsonView::Array(
            Seq::new(
                items@.len(),
                |i: int|
                    if 0 <= i < items@.len() {
                        value_of(items@[i])
                    } else {
                        JsonView::Null
                    },
            ),
        ),
        Json::Object(members) => JsonView::Object(
            Seq::new(
                members@.len(),
                |i: int|
                    if 0 <= i < members@.len() {
                        (members@[i].0@, value_of(members@[i].1))
                    } else {
                        (Seq::empty(), JsonView::Null)
                    },
            ),
        ),
    }
}

impl View for Json {
    type V = JsonView;

    open spec fn view(&self) -> JsonView {
        value_of(*self)
    }
}

/// The values of `items`, in order.
pub open spec fn views(items: Seq<Json>) -> Seq<JsonView> {
    Seq::new(items.len(), |i: int| items[i]@)
}

/// The document that `serde_json` reads from `text`, or nothing where it
/// rejects the text.
pub uninterp spec fn json_document(text: Seq<char>) -> Option<JsonView>;

/// What a `serde_json::Value` holds, laid out as a [`JsonView`].
pub uninterp spec fn value_view(value: serde_json::Value) -> JsonView;

/// Calls `serde_json::from_str` for a `serde_json::Value`. The contract claims
/// that the outcome is a function of the text alone.
#[verifier::external_body]
fn read_value(text: &str) -> (r: Result<serde_json::Value, serde_json::Error>)
    ensures
        match r {
            Ok(value) => json_document(text@) == Some(value_view(value)),
            Err(_) => json_document(text@) is None,
        },
{
    serde_json::from_str::<serde_json::Value>(text)
}

/// Moves a `serde_json::Value` into a [`Json`], variant by variant. The three
/// kinds of number are told apart with `as_u64` and `as_i64`, and a number
/// that is neither is kept as `to_string` writes it. The members of an object
/// come in the order in which its map hands them out. The contract claims
/// that the outcome is a function of the value alone.
#[verifier::external_body]
fn from_value(value: serde_json::Value) -> (r: Json)
    ensures
        r@ == value_view(value),
{
    match value {
        serde_json::Value::Null => Json::Null,
        serde_json::Value::Bool(b) => Json::Bool(b),
        serde_json::Value::Number(n) => match (n.as_u64(), n.as_i64()) {
            (Some(u), _) => Json::Unsigned(u),
            (None, Some(i)) => Json::Signed(i),
            (None, None) => Json::Real(n.to_string()),
        },
        serde_json::Value::String(s) => Json::Text(s),
        serde_json::Value::Array(items) => Json::Array(items.into_iter().map(from_value).collect()),
        serde_json::Value::Object(map) => Json::Object(map.into_iter().map(|(k, v)| (k, from_value(v))).collect()),
    }
}

/// A type whose values can be read from JSON documents of one shape.
pub trait FromJson: Sized {
    /// Whether `self` is what the document `j` says, member by member.
    spec fn decoded_from(self, j: JsonView) -> bool;

    /// Reads a value from a document: the value that the document describes,
    /// or nothing where it describes none.
    fn from_json(j: &Json) -> (r: Option<Self>)
        ensures
            match r {
                Some(value) => value.decoded_from(j@),
                None => forall|value: Self| !value.decoded_from(j@),
            },
    ;
}

/// A string is written as a string.
impl FromJson for String {
    open spec fn decoded_from(self, j: JsonView) -> bool {
        j.text() == Some(self@)
    }

    fn from_json(j: &Json) -> (r: Option<String>) {
        match j {
            Json::Text(s) => Some(s.clone()),
            _ => None,
        }
    }
}

/// Whether `list` holds, item by item, what the documents `items` say.
pub open spec fn each_decoded_from<T: FromJson>(list: Seq<T>, items: Seq<JsonView>) -> bool {
    &&& list.len() == items.len()
    &&& forall|i: int| 0 <= i < items.len() ==> (#[trigger] list[i]).decoded_from(items[i])
}

/// Reads one value from each document, in order; nothing where one of the
/// documents describes no value.
pub fn list_from_json<T: FromJson>(items: &Vec<Json>) -> (r: Option<Vec<T>>)
    ensures
        match r {
            Some(list) => each_decoded_from(list@, views(items@)),
            None => forall|list: Seq<T>| !each_decoded_from(list, views(items@)),
        },
{
    let mut list: Vec<T> = Vec::new();
    let mut i: usize = 0;
    while i < items.len()
        invariant
            i <= items.len(),
            list@.len() == i,
            forall|k: int| 0 <= k < i ==> (#[trigger] list@[k]).decoded_from(items@[k]@),
        decreases items.len() - i,
    {
        match T::from_json(&items[i]) {
            Some(value) => {
                list.push(value);
            },
            None => {
                assert forall|other: Seq<T>| !each_decoded_from(other, views(items@)) by {
                    if each_decoded_from(other, views(items@)) {
                        assert(other[i as int].decoded_from(views(items@)[i as int]));
                    }
                }
                return None;
            },
        }
        i = i + 1;
    }
    Some(list)
}

/// The characters of a string that may be absent.
pub open spec fn text_view(text: Option<String>) -> Option<Seq<char>> {
    match text {
        Some(s) => Some(s@),
        None => None,
    }
}

/// The first member of `members` stored under `key`.
pub open spec fn lookup(members: Seq<(Seq<char>, JsonView)>, key: Seq<char>) -> Option<JsonView>
    decreases members.len(),
{
    if members.len() == 0 {
        None
    } else if members[0].0 == key {
        Some(members[0].1)
    } else {
        lookup(members.drop_first(), key)
    }
}

impl JsonView {
    /// The member stored under `key`, where this is an object that has one.
    pub open spec fn member(self, key: Seq<char>) -> Option<JsonView> {
        match self {
            JsonView::Object(members) => lookup(members, key),
            _ => None,
        }
    }

    /// The whole number that this value is.
    pub open spec fn integer(self) -> Option<int> {
        match self {
            JsonView::Unsigned(n) => Some(n as int),
            JsonView::Signed(n) => Some(n as int),
            _ => None,
        }
    }

    /// This value as a `u64`.
    pub open spec fn unsigned(self) -> Option<u64> {
        match self.integer() {
            Some(n) if 0 <= n <= u64::MAX => Some(n as u64),
            _ => None,
        }
    }

    /// This value as an `i64`.
    pub open spec fn signed(self) -> Option<i64> {
        match self.integer() {
            Some(n) if i64::MIN <= n <= i64::MAX => Some(n as i64),
            _ => None,
        }
    }

    /// This value as a truth value.
    pub open spec fn boolean(self) -> Option<bool> {
        match self {
            JsonView::Bool(b) => Some(b),
            _ => None,
        }
    }

    /// The characters of this value, where it is a string.
    pub open spec fn text(self) -> Option<Seq<char>> {
        match self {
            JsonView::Text(s) => Some(s),
            _ => None,
        }
    }

    /// The items of this value, where it is an array.
    pub open spec fn items(self) -> Option<Seq<JsonView>> {
        match self {
            JsonView::Array(items) => Some(items),
            _ => None,
        }
    }

    /// This value as an exact decimal: a string in decimal notation, a whole
    /// number, or another number by its text.
    pub open spec fn decimal(self) -> Option<Decimal> {
        match self {
            JsonView::Text(s) => read_from(s),
            JsonView::Real(s) => read_from(s),
            JsonView::Unsigned(n) => Some(Decimal { mantissa: n as i128, scale: 0 }),
            JsonView::Signed(n) => Some(Decimal { mantissa: n as i128, scale: 0 }),
            _ => None,
        }
    }

    /// The exact decimal that this value spells out as a string.
    pub open spec fn text_decimal(self) -> Option<Decimal> {
        match self {
            JsonView::Text(s) => read_from(s),
            _ => None,
        }
    }

    /// The `u64` stored under `key`.
    pub open spec fn u64_at(self, key: Seq<char>) -> Option<u64> {
        match self.member(key) {
            Some(item) => item.unsigned(),
            None => None,
        }
    }

    /// The `i64` stored under `key`.
    pub open spec fn i64_at(self, key: Seq<char>) -> Option<i64> {
        match self.member(key) {
            Some(item) => item.signed(),
            None => None,
        }
    }

    /// The truth value stored under `key`.
    pub open spec fn bool_at(self, key: Seq<char>) -> Option<bool> {
        match self.member(key) {
            Some(item) => item.boolean(),
            None => None,
        }
    }

    /// The string stored under `key`.
    pub open spec fn text_at(self, key: Seq<char>) -> Option<Seq<char>> {
        match self.member(key) {
            Some(item) => item.text(),
            None => None,
        }
    }

    /// The string stored under `key`, where the member may be absent or
    /// null: the outer `None` stands for a member of another type.
    pub open spec fn optional_text_at(self, key: Seq<char>) -> Option<Option<Seq<char>>> {
        match self.member(key) {
            Some(JsonView::Null) => Some(None),
            Some(JsonView::Text(s)) => Some(Some(s)),
            Some(_) => None,
            None => Some(None),
        }
    }

    /// The exact decimal stored under `key`.
    pub open spec fn decimal_at(self, key: Seq<char>) -> Option<Decimal> {
        match self.member(key) {
            Some(item) => item.decimal(),
            None => None,
        }
    }

    /// The items of the array stored under `key`.
    pub open spec fn items_at(self, key: Seq<char>) -> Option<Seq<JsonView>> {
        match self.member(key) {
            Some(item) => item.items(),
            None => None,
        }
    }
}

impl Json {
    /// Reads a JSON document from text.
    pub fn parse(text: &str) -> (r: Option<Json>)
        ensures
            match r {
                Some(document) => json_document(text@) == Some(document@),
                None => json_document(text@) is None,
            },
    {
        match read_value(text) {
            Ok(value) => Some(from_value(value)),
            Err(_) => None,
        }
    }

    /// The member stored under `key`.
    pub fn get(&self, key: &str) -> (r: Option<&Json>)
        ensures
            match r {
                Some(item) => self@.member(key@) == Some(item@),
                None => self@.member(key@) is None,
            },
    {
        match self {
            Json::Object(members) => {
                let ghost all = self@->Object_0;
                let mut i: usize = 0;
                assert(all.skip(0) =~= all);
                while i < members.len()
                    invariant
                        i <= members.len(),
                        all.len() == members@.len(),
                        forall|k: int| 0 <= k < all.len() ==> all[k] == (members@[k].0@, members@[k].1@),
                        self@.member(key@) == lookup(all, key@),
                        lookup(all, key@) == lookup(all.skip(i as int), key@),
                    decreases members.len() - i,
                {
                    let ghost rest = all.skip(i as int);
                    assert(rest.len() > 0 && rest[0] == all[i as int]);
                    if same_text(members[i].0.as_str(), key) {
                        assert(lookup(rest, key@) == Some(members@[i as int].1@));
                        return Some(&members[i].1);
                    }
                    assert(rest.drop_first() =~= all.skip(i as int + 1));
                    i = i + 1;
                }
                None
            },
            _ => None,
        }
    }

    /// This value as a `u64`.
    pub fn as_u64(&self) -> (r: Option<u64>)
        ensures
            r == self@.unsigned(),
    {
        match self {
            Json::Unsigned(n) => Some(*n),
            Json::Signed(n) => if *n >= 0 {
                Some(*n as u64)
            } else {
                None
            },
            _ => None,
        }
    }

    /// This value as an `i64`.
    pub fn as_i64(&self) -> (r: Option<i64>)
        ensures
            r == self@.signed(),
    {
        match self {
            Json::Unsigned(n) => if *n <= 0x7fff_ffff_ffff_ffff {
                Some(*n as i64)
            } else {
                None
            },
            Json::Signed(n) => Some(*n),
            _ => None,
        }
    }

    /// This value as a truth value.
    pub fn as_bool(&self) -> (r: Option<bool>)
        ensures
            r == self@.boolean(),
    {
        match self {
            Json::Bool(b) => Some(*b),
            _ => None,
        }
    }

    /// The string that this value is.
    pub fn as_text(&self) -> (r: Option<&String>)
        ensures
            match r {
                Some(s) => self@.text() == Some(s@),
                None => self@.text() is None,
            },
    {
        match self {
            Json::Text(s) => Some(s),
            _ => None,
        }
    }

    /// The items of the array that this value is.
    pub fn as_items(&self) -> (r: Option<&Vec<Json>>)
        ensures
            match r {
                Some(items) => self@.items() == Some(views(items@)),
                None => self@.items() is None,
            },
    {
        match self {
            Json::Array(items) => {
                assert(self@->Array_0 =~= views(items@));
                Some(items)
            },
            _ => None,
        }
    }

    /// The exact decimal that this value spells out as a string.
    pub fn as_text_decimal(&self) -> (r: Option<Decimal>)
        ensures
            r == self@.text_decimal(),
    {
        match self {
            Json::Text(s) => Decimal::parse(s.as_str()),
            _ => None,
        }
    }

    /// This value as an exact decimal.
    pub fn as_decimal(&self) -> (r: Option<Decimal>)
        ensures
            r == self@.decimal(),
    {
        match self {
            Json::Text(s) => Decimal::parse(s.as_str()),
            Json::Real(s) => Decimal::parse(s.as_str()),
            Json::Unsigned(n) => Some(Decimal::from_u64(*n)),
            Json::Signed(n) => Some(Decimal::from_i64(*n)),
            _ => None,
        }
    }

    /// The `u64` stored under `key`.
    pub fn u64_field(&self, key: &str) -> (r: Option<u64>)
        ensures
            r == self@.u64_at(key@),
    {
        match self.get(key) {
            Some(item) => item.as_u64(),
            None => None,
        }
    }

    /// The `i64` stored under `key`.
    pub fn i64_field(&self, key: &str) -> (r: Option<i64>)
        ensures
            r == self@.i64_at(key@),
    {
        match self.get(key) {
            Some(item) => item.as_i64(),
            None => None,
        }
    }

    /// The truth value stored under `key`.
    pub fn bool_field(&self, key: &str) -> (r: Option<bool>)
        ensures
            r == self@.bool_at(key@),
    {
        match self.get(key) {
            Some(item) => item.as_bool(),
            None => None,
        }
    }

    /// A copy of the string stored under `key`.
    pub fn text_field(&self, key: &str) -> (r: Option<String>)
        ensures
            text_view(r) == self@.text_at(key@),
    {
        match self.get(key) {
            Some(Json::Text(s)) => Some(s.clone()),
            _ => None,
        }
    }

    /// A copy of the string stored under `key`, where the member may be
    /// absent or null.
    pub fn optional_text_field(&self, key: &str) -> (r: Option<Option<String>>)
        ensures
            match r {
                Some(found) => self@.optional_text_at(key@) == Some(text_view(found)),
                None => self@.optional_text_at(key@) is None,
            },
    {
        match self.get(key) {
            Some(Json::Null) => Some(None),
            Some(Json::Text(s)) => Some(Some(s.clone())),
            Some(_) => None,
            None => Some(None),
        }
    }

    /// The exact decimal stored under `key`.
    pub fn decimal_field(&self, key: &str) -> (r: Option<Decimal>)
        ensures
            r == self@.decimal_at(key@),
    {
        match self.get(key) {
            Some(item) => item.as_decimal(),
            None => None,
        }
    }

    /// The items of the array stored under `key`.
    pub fn items_field(&self, key: &str) -> (r: Option<&Vec<Json>>)
        ensures
            match r {
                Some(items) => self@.items_at(key@) == Some(views(items@)),
                None => self@.items_at(key@) is None,
            },
    {
        match self.get(key) {
            Some(item) => item.as_items(),
            None => None,
        }
    }
}

} // verus!
