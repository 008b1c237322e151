//! One JSON object as the protocol reads it: its members by name, nested
//! objects kept as text.

use vstd::prelude::*;
use crate::sattel::text::{option_text, same_text};

verus! {

/// What a member of a JSON object holds.
#[derive(Clone, Debug, PartialEq, Eq)]
pub enum JsonField {
    Null,
    Bool(bool),
    /// An integer that is not negative.
    Unsigned(u64),
    Text(String),
    /// A nested object, as JSON text.
    Object(String),
    /// A negative or fractional number, or an array.
    Other,
}

/// Mathematical value of a [`JsonField`].
pub enum JsonFieldView {
    Null,
    Bool(bool),
    Unsigned(u64),
    Text(Seq<char>),
    Object(Seq<char>),
    Other,
}

impl View for JsonField {
    type V = JsonFieldView;

    open spec fn view(&self) -> JsonFieldView {
        match *self {
            JsonField::Null => JsonFieldView::Null,
            JsonField::Bool(b) => JsonFieldView::Bool(b),
            JsonField::Unsigned(n) => JsonFieldView::Unsigned(n),
            JsonField::Text(text) => JsonFieldView::Text(text@),
            JsonField::Object(text) => JsonFieldView::Object(text@),
            JsonField::Other => JsonFieldView::Other,
        }
    }
}

/// One member of a JSON object.
#[derive(Clone, Debug, PartialEq, Eq)]
pub struct JsonMember {
    pub key: String,
    pub value: JsonField,
}

/// Mathematical value of a [`JsonMember`].
pub struct JsonMemberView {
    pub key: Seq<char>,
    pub value: JsonFieldView,
}

impl View for JsonMember {
    type V = JsonMemberView;

    open spec fn view(&self) -> JsonMemberView {
        JsonMemberView { key: self.key@, value: self.value@ }
    }
}

/// The mathematical values of a list of members.
pub open spec fn members_view(members: Seq<JsonMember>) -> Seq<JsonMemberView> {
    Seq::new(members.len(), |i: int| members[i]@)
}

/// The mathematical value of a list of members that may be missing.
pub open spec fn object_view(members: Option<Vec<JsonMember>>) -> Option<Seq<JsonMemberView>> {
    match members {
        Some(list) => Some(members_view(list@)),
        None => None,
    }
}

/// The members of the JSON object that `serde_json::from_str` reads from a
/// text, in the order in which its map walks them; nothing where the text is
/// not JSON or is JSON but no object.
pub uninterp spec fn json_object_of(text: Seq<char>) -> Option<Seq<JsonMemberView>>;

/// `serde_json::from_str` to a `Value`, then `Value::as_object`: each member
/// of the object is handed out under its key; a nested object as the text
/// that `Value::to_string` gives for it, a number through `Number::as_u64`.
#[verifier::external_body]
pub(crate) fn json_members(text: &str) -> (members: Option<Vec<JsonMember>>)
    ensures
        object_view(members) == json_object_of(text@),
{
    let parsed: serde_json::Value = serde_json::from_str(text).ok()?;
    Some(parsed.as_object()?.iter().map(|(key, value)| JsonMember {
        key: key.clone(),
        value: match value {
            serde_json::Value::Null => JsonField::Null,
            serde_json::Value::Bool(b) => JsonField::Bool(*b),
            serde_json::Value::Number(n) => n.as_u64().map_or(JsonField::Other, JsonField::Unsigned),
            serde_json::Value::String(s) => JsonField::Text(s.clone()),
            serde_json::Value::Object(_) => JsonField::Object(value.to_string()),
            serde_json::Value::Array(_) => JsonField::Other,
        },
    }).collect())
}

/// What the first member of that name holds.
pub open spec fn member(members: Seq<JsonMemberView>, key: Seq<char>) -> Option<JsonFieldView>
    decreases members.len(),
{
    if members.len() == 0 {
        None
    } else if members[0].key == key {
        Some(members[0].value)
    } else {
        member(members.drop_first(), key)
    }
}

/// The text that the member of that name holds.
pub open spec fn text_member(members: Seq<JsonMemberView>, key: Seq<char>) -> Option<Seq<char>> {
    match member(members, key) {
        Some(JsonFieldView::Text(text)) => Some(text),
        _ => None,
    }
}

/// The number that the member of that name holds, where it fits 32 bits.
pub open spec fn number_member(members: Seq<JsonMemberView>, key: Seq<char>) -> Option<u32> {
    match member(members, key) {
        Some(JsonFieldView::Unsigned(n)) => if n <= u32::MAX {
            Some(n as u32)
        } else {
            None
        },
        _ => None,
    }
}

/// The text of the nested object that the member of that name holds.
pub open spec fn object_member(members: Seq<JsonMemberView>, key: Seq<char>) -> Option<Seq<char>> {
    match member(members, key) {
        Some(JsonFieldView::Object(text)) => Some(text),
        _ => None,
    }
}

/// Position of the first member of that name.
pub fn find_member(members: &Vec<JsonMember>, key: &str) -> (found: Option<usize>)
    ensures
        match found {
            Some(i) => i < members.len() && member(members_view(members@), key@) == Some(
                members[i as int].value@,
            ),
            None => member(members_view(members@), key@) is None,
        },
{
    let ghost all = members_view(members@);
    assert(all.subrange(0, all.len() as int) =~= all);
    let mut i: usize = 0;
    while i < members.len()
        invariant
            i <= members.len(),
            all == members_view(members@),
            member(all, key@) == member(all.subrange(i as int, all.len() as int), key@),
        decreases members.len() - i,
    {
        let ghost rest = all.subrange(i as int, all.len() as int);
        assert(rest[0] == all[i as int]);
        if same_text(members[i].key.as_str(), key) {
            return Some(i);
        }
        assert(rest.drop_first() =~= all.subrange(i as int + 1, all.len() as int));
        i = i + 1;
    }
    assert(all.subrange(i as int, all.len() as int).len() == 0);
    None
}

/// The text that the member of that name holds.
pub fn text_of(members: &Vec<JsonMember>, key: &str) -> (text: Option<String>)
    ensures
        option_text(text) == text_member(members_view(members@), key@),
{
    match find_member(members, key) {
        Some(i) => match &members[i].value {
            JsonField::Text(text) => Some(text.clone()),
            _ => None,
        },
        None => None,
    }
}

/// The number that the member of that name holds, where it fits 32 bits.
pub fn number_of(members: &Vec<JsonMember>, key: &str) -> (number: Option<u32>)
    ensures
        number == number_member(members_view(members@), key@),
{
    match find_member(members, key) {
        Some(i) => match &members[i].value {
            JsonField::Unsigned(n) => if *n <= 0xffff_ffff {
                Some(*n as u32)
            } else {
                None
            },
            _ => None,
        },
        None => None,
    }
}

/// The text of the nested object that the member of that name holds.
pub fn object_of(members: &Vec<JsonMember>, key: &str) -> (text: Option<String>)
    ensures
        option_text(text) == object_member(members_view(members@), key@),
{
    match find_member(members, key) {
        Some(i) => match &members[i].value {
            JsonField::Object(text) => Some(text.clone()),
            _ => None,
        },
        None => None,
    }
}

} // verus!
