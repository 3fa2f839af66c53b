//! JSON documents as text, read and written through `serde_json`.
//!
//! The library keeps JSON as text and asks `serde_json` for the parts that it
//! needs. What `serde_json` answers is named, not described: the contracts of
//! its functions say only that the same question has the same answer. What
//! the library makes of the answers is stated and proved.

use vstd::prelude::*;
use crate::redirect::pairs_view;
use crate::text::{chars_of, lemma_text_le_total, text_comes_first, text_le, views_of};

verus! {

/// `serde_json::Value`, a JSON value; nothing is known of it but what the
/// names below say.
#[verifier::external_type_specification]
#[verifier::external_body]
pub struct ExJsonValue(serde_json::Value);

/// The kind of a JSON value, with what a truth value and a string hold.
#[derive(Clone, Debug, PartialEq, Eq)]
pub enum JsonKind {
    Null,
    Bool(bool),
    Number,
    Text(String),
    Array,
    Object,
}

/// A JSON value by its kind. A number, an array and an object are kept as
/// JSON text.
#[derive(Clone, Debug, PartialEq, Eq)]
pub enum JsonValue {
    Null,
    Bool(bool),
    Number(String),
    Text(String),
    Array(String),
    Object(String),
}

/// The text of an optional string.
pub open spec fn option_view(text: Option<String>) -> Option<Seq<char>> {
    match text {
        Some(s) => Some(s@),
        None => None,
    }
}

/// The value that the JSON document `text` denotes, when it is one.
pub uninterp spec fn json_parsed(text: Seq<char>) -> Option<serde_json::Value>;

/// The member `key` of `value`, when `value` is an object that has it.
pub uninterp spec fn json_member_value(value: serde_json::Value, key: Seq<char>) -> Option<
    serde_json::Value,
>;

/// The text of `value`, when `value` is a string.
pub uninterp spec fn json_text_content(value: serde_json::Value) -> Option<String>;

/// The items of `value` in order, when `value` is an array.
pub uninterp spec fn json_items(value: serde_json::Value) -> Option<Vec<serde_json::Value>>;

/// The members of `value` in the order in which its map hands them out,
/// when `value` is an object.
pub uninterp spec fn json_entries(value: serde_json::Value) -> Option<
    Vec<(String, serde_json::Value)>,
>;

/// The JSON text that `value` is written as.
pub uninterp spec fn json_written(value: serde_json::Value) -> String;

/// The kind of `value`.
pub uninterp spec fn json_kind_of(value: serde_json::Value) -> JsonKind;

/// The object whose members are the strings `members`, each under its name.
pub uninterp spec fn json_object_of_strings(
    members: Seq<(Seq<char>, Seq<char>)>,
) -> serde_json::Value;

/// Calls `serde_json::from_str` for a `Value`. The contract names the result
/// `json_parsed`.
#[verifier::external_body]
pub(crate) fn json_parse(text: &str) -> (r: Option<serde_json::Value>)
    ensures
        r == json_parsed(text@),
{
    serde_json::from_str::<serde_json::Value>(text).ok()
}

/// Calls `Value::get` with a string index. The contract names the result
/// `json_member_value`.
#[verifier::external_body]
pub(crate) fn json_get(value: &serde_json::Value, key: &str) -> (r: Option<serde_json::Value>)
    ensures
        r == json_member_value(*value, key@),
{
    value.get(key).cloned()
}

/// Calls `Value::as_str`. The contract names the result `json_text_content`.
#[verifier::external_body]
pub(crate) fn json_as_str(value: &serde_json::Value) -> (r: Option<String>)
    ensures
        r == json_text_content(*value),
{
    value.as_str().map(|s| s.to_owned())
}

/// Calls `Value::as_array`. The contract names the result `json_items`.
#[verifier::external_body]
pub(crate) fn json_as_array(value: &serde_json::Value) -> (r: Option<Vec<serde_json::Value>>)
    ensures
        r == json_items(*value),
{
    value.as_array().cloned()
}

/// Calls `Value::as_object` and hands out the entries of the map in the
/// order of its iterator. The contract names the result `json_entries`, and
/// says that there is one exactly for an object.
#[verifier::external_body]
pub(crate) fn json_as_entries(value: &serde_json::Value) -> (r: Option<
    Vec<(String, serde_json::Value)>,
>)
    ensures
        r == json_entries(*value),
        r is Some <==> json_kind_of(*value) is Object,
{
    value.as_object().map(|map| map.iter().map(|(k, v)| (k.clone(), v.clone())).collect())
}

/// Writes a `Value` with its `Display`. The contract names the result
/// `json_written`.
#[verifier::external_body]
pub(crate) fn json_to_string(value: &serde_json::Value) -> (r: String)
    ensures
        r == json_written(*value),
{
    value.to_string()
}

/// Tells the variants of `serde_json::Value` apart. The contract names the
/// result `json_kind_of`.
#[verifier::external_body]
pub(crate) fn json_kind(value: &serde_json::Value) -> (r: JsonKind)
    ensures
        r == json_kind_of(*value),
{
    match value {
        serde_json::Value::Null => JsonKind::Null,
        serde_json::Value::Bool(b) => JsonKind::Bool(*b),
        serde_json::Value::Number(_) => JsonKind::Number,
        serde_json::Value::String(s) => JsonKind::Text(s.clone()),
        serde_json::Value::Array(_) => JsonKind::Array,
        serde_json::Value::Object(_) => JsonKind::Object,
    }
}

/// Collects the members into a `serde_json::Map` as `Value::String`s and
/// makes the `Value::Object` of it. The contract names the result
/// `json_object_of_strings`.
#[verifier::external_body]
pub(crate) fn json_object(members: &Vec<(String, String)>) -> (r: serde_json::Value)
    ensures
        r == json_object_of_strings(pairs_view(members@)),
{
    serde_json::Value::Object(
        members.iter().map(|(k, v)| (k.clone(), serde_json::Value::String(v.clone()))).collect(),
    )
}

/// The member `key` of the JSON object `document`, when the document is an
/// object that has the member.
pub open spec fn json_member_of_document(document: Seq<char>, key: Seq<char>) -> Option<
    serde_json::Value,
> {
    match json_parsed(document) {
        Some(value) => json_member_value(value, key),
        None => None,
    }
}

/// The text of the member `key` of the JSON object `document`, when the
/// document is an object and the member is a string.
pub open spec fn json_string_member_of(document: Seq<char>, key: Seq<char>) -> Option<Seq<char>> {
    match json_member_of_document(document, key) {
        Some(member) => option_view(json_text_content(member)),
        None => None,
    }
}

/// The member `key` of the JSON object `document` as JSON text, when the
/// document is an object that has the member.
pub open spec fn json_member_of(document: Seq<char>, key: Seq<char>) -> Option<Seq<char>> {
    match json_member_of_document(document, key) {
        Some(member) => Some(json_written(member)@),
        None => None,
    }
}

/// Whether every one of `items` is a string.
pub open spec fn all_strings(items: Seq<serde_json::Value>) -> bool {
    forall|i: int| 0 <= i < items.len() ==> json_text_content(#[trigger] items[i]) is Some
}

/// The texts of `items`, which are strings.
pub open spec fn texts_of_items(items: Seq<serde_json::Value>) -> Seq<Seq<char>> {
    Seq::new(items.len(), |i: int| json_text_content(items[i])->0@)
}

/// The items of the JSON array `document`, when the document is an array of
/// strings.
pub open spec fn json_string_items_of(document: Seq<char>) -> Option<Seq<Seq<char>>> {
    match json_parsed(document) {
        Some(value) => match json_items(value) {
            Some(items) => if all_strings(items@) {
                Some(texts_of_items(items@))
            } else {
                None
            },
            None => None,
        },
        None => None,
    }
}

/// A value of `serde_json` by its kind, with a number, an array and an
/// object as they are written.
pub open spec fn json_value_of(value: serde_json::Value) -> JsonValue {
    match json_kind_of(value) {
        JsonKind::Null => JsonValue::Null,
        JsonKind::Bool(b) => JsonValue::Bool(b),
        JsonKind::Number => JsonValue::Number(json_written(value)),
        JsonKind::Text(text) => JsonValue::Text(text),
        JsonKind::Array => JsonValue::Array(json_written(value)),
        JsonKind::Object => JsonValue::Object(json_written(value)),
    }
}

/// The members of a value by name, kind and content.
pub open spec fn members_of(entries: Seq<(String, serde_json::Value)>) -> Seq<
    (String, JsonValue),
> {
    Seq::new(entries.len(), |i: int| (entries[i].0, json_value_of(entries[i].1)))
}

/// The members `sorted` with `member` put before the first of them whose
/// name does not come before its own.
pub open spec fn insert_by_name(
    sorted: Seq<(String, JsonValue)>,
    member: (String, JsonValue),
) -> Seq<(String, JsonValue)>
    decreases sorted.len(),
{
    if sorted.len() == 0 {
        seq![member]
    } else if text_le(member.0@, sorted[0].0@) {
        seq![member] + sorted
    } else {
        seq![sorted[0]] + insert_by_name(sorted.skip(1), member)
    }
}

/// The members `members` in the order of their names.
pub open spec fn sorted_by_name(members: Seq<(String, JsonValue)>) -> Seq<(String, JsonValue)>
    decreases members.len(),
{
    if members.len() == 0 {
        Seq::empty()
    } else {
        insert_by_name(sorted_by_name(members.skip(1)), members[0])
    }
}

/// Whether the name of each member comes before that of the next, or is the same.
pub open spec fn names_ascend(members: Seq<(String, JsonValue)>) -> bool {
    forall|i: int|
        0 <= i < members.len() - 1 ==> text_le(#[trigger] members[i].0@, members[i + 1].0@)
}

/// Putting a member among members whose names ascend gives members whose
/// names ascend, one more than before, and the first of them is the new
/// member or the first of the old.
pub proof fn lemma_insert_by_name_ascends(
    sorted: Seq<(String, JsonValue)>,
    member: (String, JsonValue),
)
    requires
        names_ascend(sorted),
    ensures
        names_ascend(insert_by_name(sorted, member)),
        insert_by_name(sorted, member).len() == sorted.len() + 1,
        insert_by_name(sorted, member)[0] == member || (sorted.len() > 0 && insert_by_name(
            sorted,
            member,
        )[0] == sorted[0] && text_le(sorted[0].0@, member.0@)),
    decreases sorted.len(),
{
    let result = insert_by_name(sorted, member);
    if sorted.len() == 0 {
    } else if text_le(member.0@, sorted[0].0@) {
        assert forall|i: int| 0 <= i < result.len() - 1 implies text_le(
            #[trigger] result[i].0@,
            result[i + 1].0@,
        ) by {
            if i > 0 {
                assert(result[i] == sorted[i - 1]);
                assert(result[i + 1] == sorted[i]);
                assert(text_le(sorted[i - 1].0@, sorted[i - 1 + 1].0@));
            }
        }
    } else {
        let rest = sorted.skip(1);
        assert forall|i: int| 0 <= i < rest.len() - 1 implies text_le(
            #[trigger] rest[i].0@,
            rest[i + 1].0@,
        ) by {
            assert(rest[i] == sorted[i + 1]);
            assert(text_le(sorted[i + 1].0@, sorted[i + 1 + 1].0@));
        }
        lemma_insert_by_name_ascends(rest, member);
        lemma_text_le_total(member.0@, sorted[0].0@);
        let tail = insert_by_name(rest, member);
        assert(result =~= seq![sorted[0]] + tail);
        assert forall|i: int| 0 <= i < result.len() - 1 implies text_le(
            #[trigger] result[i].0@,
            result[i + 1].0@,
        ) by {
            if i == 0 {
                assert(result[1] == tail[0]);
                if tail[0] != member {
                    assert(tail[0] == rest[0]);
                    assert(rest[0] == sorted[1]);
                    assert(text_le(sorted[0int].0@, sorted[0int + 1].0@));
                }
            } else {
                assert(result[i] == tail[i - 1]);
                assert(result[i + 1] == tail[i]);
                assert(text_le(tail[i - 1].0@, tail[i - 1 + 1].0@));
            }
        }
    }
}

/// Members in the order of their names have names that ascend, and are as
/// many as before.
pub proof fn lemma_sorted_by_name_ascends(members: Seq<(String, JsonValue)>)
    ensures
        names_ascend(sorted_by_name(members)),
        sorted_by_name(members).len() == members.len(),
    decreases members.len(),
{
    if members.len() > 0 {
        lemma_sorted_by_name_ascends(members.skip(1));
        lemma_insert_by_name_ascends(sorted_by_name(members.skip(1)), members[0]);
    }
}

/// A member is put at the place before which no name waits for it and at
/// which a name does, if there is another member at all.
proof fn lemma_insert_position(
    sorted: Seq<(String, JsonValue)>,
    member: (String, JsonValue),
    position: int,
)
    requires
        0 <= position <= sorted.len(),
        forall|j: int| 0 <= j < position ==> !text_le(member.0@, #[trigger] sorted[j].0@),
        position < sorted.len() ==> text_le(member.0@, sorted[position].0@),
    ensures
        insert_by_name(sorted, member) == sorted.insert(position, member),
    decreases position,
{
    if position == 0 {
        assert(insert_by_name(sorted, member) =~= sorted.insert(0, member));
    } else {
        let rest = sorted.skip(1);
        assert(!text_le(member.0@, sorted[0].0@));
        assert forall|j: int| 0 <= j < position - 1 implies !text_le(
            member.0@,
            #[trigger] rest[j].0@,
        ) by {
            assert(rest[j] == sorted[j + 1]);
        }
        if position - 1 < rest.len() {
            assert(rest[position - 1] == sorted[position]);
        }
        lemma_insert_position(rest, member, position - 1);
        assert(seq![sorted[0]] + rest.insert(position - 1, member) =~= sorted.insert(
            position,
            member,
        ));
    }
}

/// Puts the members in the order of their names.
pub fn sort_by_name(members: Vec<(String, JsonValue)>) -> (r: Vec<(String, JsonValue)>)
    ensures
        r@ == sorted_by_name(members@),
        names_ascend(r@),
        r@.len() == members@.len(),
{
    let ghost all = members@;
    let mut rest = members;
    let mut sorted: Vec<(String, JsonValue)> = Vec::new();
    proof {
        assert(all.subrange(all.len() as int, all.len() as int) =~= Seq::empty());
        assert(rest@ =~= all.subrange(0, all.len() as int));
    }
    while rest.len() > 0
        invariant
            rest@.len() <= all.len(),
            rest@ == all.subrange(0, rest@.len() as int),
            sorted@ == sorted_by_name(all.subrange(rest@.len() as int, all.len() as int)),
        decreases rest.len(),
    {
        let ghost before = rest@;
        let member = match rest.pop() {
            Some(member) => member,
            None => {
                return sorted;
            },
        };
        let name = chars_of(member.0.as_str());
        let mut position: usize = 0;
        let mut found = false;
        while position < sorted.len() && !found
            invariant
                position <= sorted.len(),
                name@ == member.0@,
                forall|j: int| 0 <= j < position ==> !text_le(name@, #[trigger] sorted@[j].0@),
                found ==> position < sorted.len() && text_le(name@, sorted@[position as int].0@),
            decreases sorted.len() - position + if found { 0int } else { 1int },
        {
            let other = chars_of(sorted[position].0.as_str());
            if text_comes_first(&name, &other) {
                found = true;
            } else {
                position += 1;
            }
        }
        proof {
            lemma_insert_position(sorted@, member, position as int);
            let from = rest@.len() as int;
            let tail = all.subrange(from, all.len() as int);
            assert(tail[0] == member);
            assert(tail.skip(1) =~= all.subrange(from + 1, all.len() as int));
            assert(rest@ =~= all.subrange(0, from));
        }
        sorted.insert(position, member);
    }
    proof {
        assert(all.subrange(0, all.len() as int) =~= all);
        lemma_sorted_by_name_ascends(all);
    }
    sorted
}

/// Whether `document` is a JSON document that denotes an object.
pub open spec fn is_json_object(document: Seq<char>) -> bool {
    json_parsed(document) matches Some(value) && json_kind_of(value) is Object
}

/// The members of the JSON object `document` by name, kind and content, in
/// the order of their names; no members when the document is not a JSON
/// object.
pub open spec fn json_object_members_of(document: Seq<char>) -> Seq<(String, JsonValue)> {
    if is_json_object(document) {
        match json_entries(json_parsed(document)->0) {
            Some(entries) => sorted_by_name(members_of(entries@)),
            None => Seq::empty(),
        }
    } else {
        Seq::empty()
    }
}

/// The JSON text of the object whose members are the strings `members`, each
/// under its name.
pub open spec fn json_object_text_of(members: Seq<(Seq<char>, Seq<char>)>) -> Seq<char> {
    json_written(json_object_of_strings(members))@
}

/// The JSON text that `document` is written as after it has been read, when it
/// is a JSON document.
pub open spec fn json_normal_form_of(document: Seq<char>) -> Option<Seq<char>> {
    match json_parsed(document) {
        Some(value) => Some(json_written(value)@),
        None => None,
    }
}

/// The text of the member `key` of the JSON object `document`, when it is a string.
pub fn json_string_member(document: &str, key: &str) -> (r: Option<String>)
    ensures
        option_view(r) == json_string_member_of(document@, key@),
{
    let value = json_parse(document)?;
    let member = json_get(&value, key)?;
    json_as_str(&member)
}

/// The member `key` of the JSON object `document`, as JSON text.
pub fn json_member(document: &str, key: &str) -> (r: Option<String>)
    ensures
        option_view(r) == json_member_of(document@, key@),
{
    let value = json_parse(document)?;
    let member = json_get(&value, key)?;
    Some(json_to_string(&member))
}

/// The items of the JSON array `document`, when it is an array of strings.
#[verifier::loop_isolation(false)]
pub fn json_string_items(document: &str) -> (r: Option<Vec<String>>)
    ensures
        r is Some <==> json_string_items_of(document@) is Some,
        r matches Some(items) ==> json_string_items_of(document@) == Some(views_of(items@)),
{
    let value = json_parse(document)?;
    let items = json_as_array(&value)?;
    let mut texts: Vec<String> = Vec::new();
    let mut i: usize = 0;
    while i < items.len()
        invariant
            i <= items.len(),
            texts@.len() == i,
            forall|j: int| 0 <= j < i ==> json_text_content(#[trigger] items@[j]) is Some,
            forall|j: int| 0 <= j < i ==> (#[trigger] texts@[j])@ == json_text_content(items@[j])->0@,
        decreases items.len() - i,
    {
        match json_as_str(&items[i]) {
            Some(text) => {
                texts.push(text);
            },
            None => {
                proof {
                    assert(json_text_content(items@[i as int]) is None);
                    assert(!all_strings(items@));
                }
                return None;
            },
        }
        i += 1;
    }
    proof {
        assert(views_of(texts@) =~= texts_of_items(items@));
    }
    Some(texts)
}

/// A value of `serde_json` by its kind.
pub fn json_value(value: &serde_json::Value) -> (r: JsonValue)
    ensures
        r == json_value_of(*value),
{
    match json_kind(value) {
        JsonKind::Null => JsonValue::Null,
        JsonKind::Bool(b) => JsonValue::Bool(b),
        JsonKind::Number => JsonValue::Number(json_to_string(value)),
        JsonKind::Text(text) => JsonValue::Text(text),
        JsonKind::Array => JsonValue::Array(json_to_string(value)),
        JsonKind::Object => JsonValue::Object(json_to_string(value)),
    }
}

/// The members of the JSON object `document`, in the order of their names.
/// A document that is no JSON, or no object, has no members.
pub fn object_members(document: &str) -> (r: Vec<(String, JsonValue)>)
    ensures
        r@ == json_object_members_of(document@),
        names_ascend(r@),
        !is_json_object(document@) ==> r@.len() == 0,
{
    let value = match json_parse(document) {
        Some(value) => value,
        None => {
            return Vec::new();
        },
    };
    let entries = match json_as_entries(&value) {
        Some(entries) => entries,
        None => {
            return Vec::new();
        },
    };
    let mut members: Vec<(String, JsonValue)> = Vec::new();
    let mut i: usize = 0;
    while i < entries.len()
        invariant
            i <= entries.len(),
            members@ == members_of(entries@).subrange(0, i as int),
        decreases entries.len() - i,
    {
        let name = entries[i].0.clone();
        let member = json_value(&entries[i].1);
        members.push((name, member));
        i += 1;
        proof {
            assert(members@ =~= members_of(entries@).subrange(0, i as int));
        }
    }
    proof {
        assert(members_of(entries@).subrange(0, i as int) =~= members_of(entries@));
    }
    sort_by_name(members)
}

/// The JSON text of the object whose members are the strings `members`.
pub fn json_object_text(members: &Vec<(String, String)>) -> (r: String)
    ensures
        r@ == json_object_text_of(pairs_view(members@)),
{
    let object = json_object(members);
    json_to_string(&object)
}

/// The JSON text that `document` is written as after it has been read.
pub fn json_normal_form(document: &str) -> (r: Option<String>)
    ensures
        option_view(r) == json_normal_form_of(document@),
{
    let value = json_parse(document)?;
    Some(json_to_string(&value))
}

/// The text that stands for a JSON value where plain text is wanted: a string
/// without its quotes, and anything else as it is written in JSON.
pub open spec fn value_as_text(value: JsonValue) -> Seq<char> {
    match value {
        JsonValue::Text(string) => string@,
        JsonValue::Null => "null"@,
        JsonValue::Bool(b) => if b {
            "true"@
        } else {
            "false"@
        },
        JsonValue::Number(text) => text@,
        JsonValue::Array(text) => text@,
        JsonValue::Object(text) => text@,
    }
}

/// The text that stands for a JSON value where plain text is wanted.
pub fn get_value_as_string(value: &JsonValue) -> (r: String)
    ensures
        r@ == value_as_text(*value),
{
    match value {
        JsonValue::Text(string) => string.clone(),
        JsonValue::Null => String::from_str("null"),
        JsonValue::Bool(b) => {
            if *b {
                String::from_str("true")
            } else {
                String::from_str("false")
            }
        },
        JsonValue::Number(text) => text.clone(),
        JsonValue::Array(text) => text.clone(),
        JsonValue::Object(text) => text.clone(),
    }
}

} // verus!
