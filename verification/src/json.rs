//! A JSON document as plain data, and the few ways the report reads one.
//!
//! A missing member, a member of the wrong kind and an explicit `null` all
//! read as "absent": every accessor answers with an `Option`, and the caller
//! supplies the default.

use vstd::prelude::*;
use vstd::string::*;
use crate::text::same_text;

verus! {

/// A JSON number, kept as it was written: a non-negative integer, a negative
/// integer, or the bit pattern of an IEEE-754 double.
#[derive(Clone, Copy, Debug)]
pub enum JsonNumber {
    /// An integer from zero up.
    PosInt(u64),
    /// An integer below zero.
    NegInt(i64),
    /// Any other number, as the 64 bits of the double nearest to it.
    Float(u64),
}

/// A JSON value.
#[derive(Debug)]
pub enum Json {
    Null,
    Bool(bool),
    Number(JsonNumber),
    Text(String),
    Array(Vec<Json>),
    Object(Vec<Member>),
}

/// One `key: value` pair of an object.
#[derive(Debug)]
pub struct Member {
    pub key: String,
    pub value: Json,
}

/// What a [`Json`] value stands for.
pub enum JsonView {
    Null,
    Bool(bool),
    Number(JsonNumber),
    Text(Seq<char>),
    Array(Seq<JsonView>),
    Object(Seq<MemberView>),
}

/// What a [`Member`] stands for.
pub struct MemberView {
    pub key: Seq<char>,
    pub value: JsonView,
}

/// What `value` stands for: texts by their characters, arrays and objects
/// item by item.
pub open spec fn json_view(value: Json) -> JsonView
    decreases value,
{
    match value {
        Json::Null => JsonView::Null,
        Json::Bool(b) => JsonView::Bool(b),
        Json::Number(n) => JsonView::Number(n),
        Json::Text(text) => JsonView::Text(text@),
        Json::Array(items) => JsonView::Array(
            Seq::new(
                items@.len(),
                |i: int|
                    if 0 <= i < items@.len() {
                        json_view(items[i])
                    } else {
                        JsonView::Null
                    },
            ),
        ),
        Json::Object(members) => JsonView::Object(
            Seq::new(
                members@.len(),
                |i: int|
                    if 0 <= i < members@.len() {
                        MemberView { key: members[i].key@, value: json_view(members[i].value) }
                    } else {
                        MemberView { key: Seq::empty(), value: JsonView::Null }
                    },
            ),
        ),
    }
}

impl View for Json {
    type V = JsonView;

    open spec fn view(&self) -> JsonView {
        json_view(*self)
    }
}

impl View for Member {
    type V = MemberView;

    open spec fn view(&self) -> MemberView {
        MemberView { key: self.key@, value: self.value@ }
    }
}

/// The bit pattern of the double positive infinity; the patterns above it
/// with a clear sign bit are the NaNs.
pub const POSITIVE_INFINITY_BITS: u64 = 0x7FF0_0000_0000_0000;

/// The bit pattern of the double `0.0`.
pub const ZERO_BITS: u64 = 0;

impl JsonNumber {
    /// Whether the number is strictly greater than zero. A double is read
    /// off its bit pattern: the sign bit is clear, and the rest is neither
    /// zero nor a NaN.
    pub open spec fn spec_is_positive(self) -> bool {
        match self {
            JsonNumber::PosInt(n) => n > 0,
            JsonNumber::NegInt(n) => n > 0,
            JsonNumber::Float(bits) => 0 < bits <= POSITIVE_INFINITY_BITS,
        }
    }

    /// Tests the number for being strictly greater than zero.
    pub fn is_positive(&self) -> (positive: bool)
        ensures
            positive == self.spec_is_positive(),
    {
        match self {
            JsonNumber::PosInt(n) => *n > 0,
            JsonNumber::NegInt(n) => *n > 0,
            JsonNumber::Float(bits) => 0 < *bits && *bits <= POSITIVE_INFINITY_BITS,
        }
    }
}

/// The values that `items` stand for, in order.
pub open spec fn item_views(items: Seq<Json>) -> Seq<JsonView> {
    items.map_values(|item: Json| item@)
}

/// The pairs that `members` stand for, in order.
pub open spec fn member_views(members: Seq<Member>) -> Seq<MemberView> {
    members.map_values(|member: Member| member@)
}

/// The value that an object with these members gives for `key`: that of the
/// last member so named, as a later pair replaces an earlier one.
pub open spec fn member_value(members: Seq<MemberView>, key: Seq<char>) -> Option<JsonView>
    decreases members.len(),
{
    if members.len() == 0 {
        None
    } else if members.last().key == key {
        Some(members.last().value)
    } else {
        member_value(members.drop_last(), key)
    }
}

impl JsonView {
    /// The member `key` of an object; `None` for a missing member and for
    /// anything that is not an object.
    pub open spec fn get(self, key: Seq<char>) -> Option<JsonView> {
        match self {
            JsonView::Object(members) => member_value(members, key),
            _ => None,
        }
    }

    /// The text of a string value.
    pub open spec fn as_text(self) -> Option<Seq<char>> {
        match self {
            JsonView::Text(text) => Some(text),
            _ => None,
        }
    }

    /// The items of an array value.
    pub open spec fn as_array(self) -> Option<Seq<JsonView>> {
        match self {
            JsonView::Array(items) => Some(items),
            _ => None,
        }
    }

    /// The number of a numeric value.
    pub open spec fn as_number(self) -> Option<JsonNumber> {
        match self {
            JsonView::Number(number) => Some(number),
            _ => None,
        }
    }
}

/// An array stands for the array of what its items stand for.
pub proof fn lemma_array_view(items: Vec<Json>)
    ensures
        Json::Array(items)@ == JsonView::Array(item_views(items@)),
{
    assert(Json::Array(items)@->Array_0 =~= item_views(items@));
}

/// An object stands for the object of what its members stand for.
pub proof fn lemma_object_view(members: Vec<Member>)
    ensures
        Json::Object(members)@ == JsonView::Object(member_views(members@)),
{
    assert(Json::Object(members)@->Object_0 =~= member_views(members@));
}

/// What an optional value stands for.
pub open spec fn option_view(value: Option<&Json>) -> Option<JsonView> {
    match value {
        Some(found) => Some(found@),
        None => None,
    }
}

/// Searches the members of an object for `key`, last member first.
pub fn find_member<'a>(members: &'a Vec<Member>, key: &str) -> (found: Option<&'a Json>)
    ensures
        option_view(found) == member_value(member_views(members@), key@),
{
    let ghost all = member_views(members@);
    let mut i: usize = members.len();
    assert(all.take(i as int) =~= all);
    while i > 0
        invariant
            i <= members@.len(),
            all == member_views(members@),
            member_value(all, key@) == member_value(all.take(i as int), key@),
        decreases i,
    {
        let ghost prefix = all.take(i as int);
        assert(prefix.drop_last() =~= all.take(i - 1));
        i -= 1;
        if same_text(members[i].key.as_str(), key) {
            return Some(&members[i].value);
        }
    }
    None
}

impl Json {
    /// Looks up the member `key` of an object.
    pub fn get(&self, key: &str) -> (found: Option<&Json>)
        ensures
            option_view(found) == self@.get(key@),
    {
        match self {
            Json::Object(members) => {
                proof {
                    lemma_object_view(*members);
                }
                find_member(members, key)
            },
            _ => None,
        }
    }

    /// Reads a string value.
    pub fn as_text(&self) -> (text: Option<&str>)
        ensures
            text.is_some() == self@.as_text().is_some(),
            text matches Some(t) ==> self@.as_text() == Some(t@),
    {
        match self {
            Json::Text(text) => Some(text.as_str()),
            _ => None,
        }
    }

    /// Reads an array value.
    pub fn as_array(&self) -> (items: Option<&Vec<Json>>)
        ensures
            items.is_some() == self@.as_array().is_some(),
            items matches Some(v) ==> self@.as_array() == Some(item_views(v@)),
    {
        match self {
            Json::Array(items) => {
                proof {
                    lemma_array_view(*items);
                }
                Some(items)
            },
            _ => None,
        }
    }

    /// Reads a numeric value.
    pub fn as_number(&self) -> (number: Option<JsonNumber>)
        ensures
            number == self@.as_number(),
    {
        match self {
            Json::Number(number) => Some(*number),
            _ => None,
        }
    }
}

/// The member `key` of `parent`, where there is a parent.
pub open spec fn member_of(parent: Option<JsonView>, key: Seq<char>) -> Option<JsonView> {
    match parent {
        Some(value) => value.get(key),
        None => None,
    }
}

/// The text of `value`, or `fallback` where `value` is absent or no text.
pub open spec fn text_or(value: Option<JsonView>, fallback: Seq<char>) -> Seq<char> {
    match value {
        Some(JsonView::Text(text)) => text,
        _ => fallback,
    }
}

/// The number of `value`, or `fallback` where `value` is absent or no
/// number.
pub open spec fn number_or(value: Option<JsonView>, fallback: JsonNumber) -> JsonNumber {
    match value {
        Some(JsonView::Number(number)) => number,
        _ => fallback,
    }
}

/// Looks up the member `key` of `parent`, where there is a parent.
pub fn child<'a>(parent: Option<&'a Json>, key: &str) -> (found: Option<&'a Json>)
    ensures
        option_view(found) == member_of(option_view(parent), key@),
{
    match parent {
        Some(value) => value.get(key),
        None => None,
    }
}

/// Reads a text, with `fallback` for a value that is absent or no text.
pub fn text_or_default(value: Option<&Json>, fallback: &str) -> (text: String)
    ensures
        text@ == text_or(option_view(value), fallback@),
{
    match value {
        Some(Json::Text(text)) => text.clone(),
        _ => fallback.to_owned(),
    }
}

/// Reads a number, with `fallback` for a value that is absent or no number.
pub fn number_or_default(value: Option<&Json>, fallback: JsonNumber) -> (number: JsonNumber)
    ensures
        number == number_or(option_view(value), fallback),
{
    match value {
        Some(Json::Number(number)) => *number,
        _ => fallback,
    }
}

} // verus!
