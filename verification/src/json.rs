use vstd::prelude::*;
use crate::text_map::{TextMap, TextPairs};

verus! {

/// A JSON document as plain values. An object keeps its members in the
/// order written; where a key is written twice, the last member counts.
#[derive(Debug, PartialEq, Eq)]
pub enum JsonValue {
    Null,
    Bool(bool),
    /// A number that is a signed integer of 64 bits.
    Integer(i64),
    /// Any other number: a fraction, or an integer beyond 64 signed bits.
    OtherNumber,
    Text(String),
    List(Vec<JsonValue>),
    Object(Vec<(String, JsonValue)>),
}

/// The value an object's members give to `key`: that of the last member
/// with this key.
pub open spec fn member(members: Seq<(String, JsonValue)>, key: Seq<char>) -> Option<JsonValue>
    decreases members.len(),
{
    if members.len() == 0 {
        None
    } else if members.last().0@ == key {
        Some(members.last().1)
    } else {
        member(members.drop_last(), key)
    }
}

/// `value` is the text `text`.
pub open spec fn is_text(value: JsonValue, text: Seq<char>) -> bool {
    value matches JsonValue::Text(s) && s@ == text
}

/// The text a value holds; empty for a value that is no text.
pub open spec fn text_of(value: JsonValue) -> Seq<char> {
    match value {
        JsonValue::Text(s) => s@,
        _ => Seq::<char>::empty(),
    }
}

/// Member `i` has the key `key`.
pub open spec fn key_at(members: Seq<(String, JsonValue)>, i: int, key: Seq<char>) -> bool {
    0 <= i < members.len() && members[i].0@ == key
}

/// Member `i` has the key `key` and holds the text `text`.
pub open spec fn text_at(
    members: Seq<(String, JsonValue)>,
    i: int,
    key: Seq<char>,
    text: Seq<char>,
) -> bool {
    key_at(members, i, key) && is_text(members[i].1, text)
}

/// `value` is an object with one text member for each pair, in order.
pub open spec fn is_text_object(value: JsonValue, pairs: TextPairs) -> bool {
    value matches JsonValue::Object(members) && members@.len() == pairs.len() && forall|i: int|
        0 <= i < pairs.len() ==> text_at(members@, i, pairs[i].0, #[trigger] pairs[i].1)
}

/// `value` is a list with one text item for each text, in order.
pub open spec fn is_text_list(value: JsonValue, texts: Seq<String>) -> bool {
    value matches JsonValue::List(items) && items@.len() == texts.len() && forall|i: int|
        0 <= i < texts.len() ==> is_text(#[trigger] items@[i], texts[i]@)
}

/// Looks a key up among the members of an object.
pub fn find_member<'a>(members: &'a Vec<(String, JsonValue)>, key: &str) -> (found: Option<
    &'a JsonValue,
>)
    ensures
        match found {
            Some(value) => member(members@, key@) == Some(*value),
            None => member(members@, key@).is_none(),
        },
{
    let wanted = key.to_owned();
    let mut i: usize = members.len();
    assert(members@.take(i as int) =~= members@);
    while i > 0
        invariant
            i <= members.len(),
            wanted@ == key@,
            member(members@, key@) == member(members@.take(i as int), key@),
        decreases i,
    {
        assert(members@.take(i as int).drop_last() =~= members@.take(i as int - 1));
        i -= 1;
        if members[i].0 == wanted {
            return Some(&members[i].1);
        }
    }
    None
}

/// The object that holds each pair of the mapping as a text member.
pub fn text_object(map: &TextMap) -> (value: JsonValue)
    ensures
        is_text_object(value, map.pairs()),
{
    let entries = map.entries();
    let mut members: Vec<(String, JsonValue)> = Vec::new();
    let mut i: usize = 0;
    while i < entries.len()
        invariant
            i <= entries.len(),
            members@.len() == i,
            forall|j: int|
                0 <= j < i ==> text_at(members@, j, entries@[j].0@, #[trigger] entries@[j].1@),
        decreases entries.len() - i,
    {
        members.push((entries[i].0.clone(), JsonValue::Text(entries[i].1.clone())));
        i += 1;
    }
    JsonValue::Object(members)
}

/// The list that holds each text as an item.
pub fn text_list(texts: &Vec<String>) -> (value: JsonValue)
    ensures
        is_text_list(value, texts@),
{
    let mut items: Vec<JsonValue> = Vec::new();
    let mut i: usize = 0;
    while i < texts.len()
        invariant
            i <= texts.len(),
            items@.len() == i,
            forall|j: int| 0 <= j < i ==> is_text(#[trigger] items@[j], texts@[j]@),
        decreases texts.len() - i,
    {
        items.push(JsonValue::Text(texts[i].clone()));
        i += 1;
    }
    JsonValue::List(items)
}

} // verus!
