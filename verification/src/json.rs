//! Flat JSON objects: written from fields or pairs of strings, read by key or as a whole.

use crate::text;
use serde_json::Value;
use std::collections::HashMap;
use vstd::prelude::*;
use vstd::string::*;

verus! {

/// A value of a JSON object's field.
pub enum JsonValue {
    Null,
    Bool(bool),
    Unsigned(u64),
    Signed(i64),
    Text(String),
    /// An object whose keys are numbers and whose values are counts.
    Counts(Vec<(u64, u64)>),
    /// An array of objects whose values are strings.
    Objects(Vec<Vec<(String, String)>>),
}

/// What a `JsonValue` holds.
pub enum JsonView {
    Null,
    Bool(bool),
    Unsigned(u64),
    Signed(i64),
    Text(Seq<char>),
    Counts(Seq<(u64, u64)>),
    Objects(Seq<Seq<(Seq<char>, Seq<char>)>>),
}

/// The keys and values of an object whose values are strings.
pub open spec fn pair_views(pairs: Seq<(String, String)>) -> Seq<(Seq<char>, Seq<char>)> {
    Seq::new(pairs.len(), |i: int| (pairs[i].0@, pairs[i].1@))
}

impl View for JsonValue {
    type V = JsonView;

    open spec fn view(&self) -> JsonView {
        match self {
            JsonValue::Null => JsonView::Null,
            JsonValue::Bool(b) => JsonView::Bool(*b),
            JsonValue::Unsigned(n) => JsonView::Unsigned(*n),
            JsonValue::Signed(n) => JsonView::Signed(*n),
            JsonValue::Text(t) => JsonView::Text(t@),
            JsonValue::Counts(c) => JsonView::Counts(c@),
            JsonValue::Objects(o) => JsonView::Objects(
                Seq::new(o@.len(), |i: int| pair_views(o@[i]@)),
            ),
        }
    }
}

/// A key and its value.
pub struct JsonField {
    pub key: String,
    pub value: JsonValue,
}

impl View for JsonField {
    type V = (Seq<char>, JsonView);

    open spec fn view(&self) -> (Seq<char>, JsonView) {
        (self.key@, self.value@)
    }
}

/// The keys and values of a list of fields.
pub open spec fn field_views(fields: Seq<JsonField>) -> Seq<(Seq<char>, JsonView)> {
    Seq::new(fields.len(), |i: int| fields[i]@)
}

/// No key stands twice, and none holds a character that a JSON pointer treats specially.
pub open spec fn plain_keys(fields: Seq<(Seq<char>, JsonView)>) -> bool {
    &&& forall|i: int, j: int|
        0 <= i < j < fields.len() ==> (#[trigger] fields[i]).0 != (#[trigger] fields[j]).0
    &&& forall|i: int| 0 <= i < fields.len() ==> plain_key((#[trigger] fields[i]).0)
}

/// The key holds neither `/` nor `~`.
pub open spec fn plain_key(key: Seq<char>) -> bool {
    !key.contains('/') && !key.contains('~')
}

/// The JSON pointer of a key of the outermost object.
pub open spec fn pointer_of(key: Seq<char>) -> Seq<char> {
    seq!['/'] + key
}

/// The text that `serde_json` writes for an object with these fields.
pub uninterp spec fn object_text(fields: Seq<(Seq<char>, JsonView)>) -> Seq<char>;

/// The message with which `serde_json` refuses a text, if it does.
pub uninterp spec fn parse_error(text: Seq<char>) -> Option<Seq<char>>;

/// The unsigned number at a pointer of a JSON text.
pub uninterp spec fn unsigned_at(text: Seq<char>, pointer: Seq<char>) -> Option<u64>;

/// The boolean at a pointer of a JSON text.
pub uninterp spec fn bool_at(text: Seq<char>, pointer: Seq<char>) -> Option<bool>;

/// The string at a pointer of a JSON text.
pub uninterp spec fn string_at(text: Seq<char>, pointer: Seq<char>) -> Option<Seq<char>>;

/// The length of the array at a pointer of a JSON text.
pub uninterp spec fn array_len_at(text: Seq<char>, pointer: Seq<char>) -> Option<nat>;

/// What `serde_json` reads a text as, where it is an object whose values are all strings.
pub uninterp spec fn text_map(text: Seq<char>) -> Option<Map<Seq<char>, Seq<char>>>;

/// No key stands twice among the pairs.
pub open spec fn keys_differ(pairs: Seq<(Seq<char>, Seq<char>)>) -> bool {
    forall|i: int, j: int|
        0 <= i < j < pairs.len() ==> (#[trigger] pairs[i]).0 != (#[trigger] pairs[j]).0
}

/// The pairs are the map's: none stands twice, each is in the map, and each key of the map is there.
pub open spec fn holds_map(
    pairs: Seq<(Seq<char>, Seq<char>)>,
    m: Map<Seq<char>, Seq<char>>,
) -> bool {
    &&& keys_differ(pairs)
    &&& forall|i: int|
        0 <= i < pairs.len() ==> m.contains_key((#[trigger] pairs[i]).0) && m[pairs[i].0]
            == pairs[i].1
    &&& forall|key: Seq<char>| #[trigger]
        m.contains_key(key) ==> exists|i: int| 0 <= i < pairs.len() && (#[trigger] pairs[i]).0 == key
}

/// The map of a list of pairs; of two with the same key the later one counts.
pub open spec fn pair_map(pairs: Seq<(Seq<char>, Seq<char>)>) -> Map<Seq<char>, Seq<char>>
    decreases pairs.len(),
{
    if pairs.len() == 0 {
        Map::empty()
    } else {
        pair_map(pairs.drop_last()).insert(pairs.last().0, pairs.last().1)
    }
}

/// The text is JSON, and under no plain key of the outermost object stands a number from 0 on, a
/// boolean or a list.
pub open spec fn only_texts(text: Seq<char>) -> bool {
    &&& parse_error(text) is None
    &&& forall|key: Seq<char>|
        plain_key(key) ==> unsigned_at(text, #[trigger] pointer_of(key)) is None && bool_at(
            text,
            pointer_of(key),
        ) is None && array_len_at(text, pointer_of(key)) is None
}

/// Pairs without a repeated key are those of their map.
pub proof fn lemma_pairs_hold_their_map(pairs: Seq<(Seq<char>, Seq<char>)>)
    requires
        keys_differ(pairs),
    ensures
        holds_map(pairs, pair_map(pairs)),
    decreases pairs.len(),
{
    if pairs.len() > 0 {
        let before = pairs.drop_last();
        let last = pairs.len() - 1;
        assert forall|i: int, j: int| 0 <= i < j < before.len() implies (#[trigger] before[i]).0 != (
        #[trigger] before[j]).0 by {
            assert(pairs[i].0 != pairs[j].0);
        }
        lemma_pairs_hold_their_map(before);
        let m = pair_map(pairs);
        assert forall|i: int| 0 <= i < pairs.len() implies m.contains_key((#[trigger] pairs[i]).0)
            && m[pairs[i].0] == pairs[i].1 by {
            if i < last {
                assert(before[i] == pairs[i]);
                assert(pairs[i].0 != pairs[last].0);
            }
        }
        assert forall|key: Seq<char>| #[trigger] m.contains_key(key) implies exists|i: int|
            0 <= i < pairs.len() && (#[trigger] pairs[i]).0 == key by {
            if key == pairs[last].0 {
                assert(pairs[last].0 == key);
            } else {
                assert(pair_map(before).contains_key(key));
                let i = choose|i: int| 0 <= i < before.len() && (#[trigger] before[i]).0 == key;
                assert(pairs[i].0 == key);
            }
        }
    }
}

/// The JSON pointer of a number's entry in an object under a key of the outermost object.
pub open spec fn count_pointer(key: Seq<char>, number: u64) -> Seq<char> {
    pointer_of(key) + seq!['/'] + text::dec(number as nat)
}

/// No number stands twice among the counts.
pub open spec fn numbers_differ(counts: Seq<(u64, u64)>) -> bool {
    forall|i: int, j: int|
        0 <= i < j < counts.len() ==> (#[trigger] counts[i]).0 != (#[trigger] counts[j]).0
}

/// What a field that was written reads back as.
pub open spec fn reads_back(text: Seq<char>, field: (Seq<char>, JsonView)) -> bool {
    match field.1 {
        JsonView::Bool(b) => bool_at(text, pointer_of(field.0)) == Some(b),
        JsonView::Unsigned(n) => unsigned_at(text, pointer_of(field.0)) == Some(n),
        JsonView::Signed(n) => unsigned_at(text, pointer_of(field.0)) == (if n >= 0 {
            Some(n as u64)
        } else {
            None
        }),
        JsonView::Text(t) => string_at(text, pointer_of(field.0)) == Some(t),
        JsonView::Null => string_at(text, pointer_of(field.0)) is None,
        JsonView::Counts(c) => numbers_differ(c) ==> forall|i: int|
            0 <= i < c.len() ==> unsigned_at(text, count_pointer(field.0, (#[trigger] c[i]).0))
                == Some(c[i].1),
        JsonView::Objects(o) => array_len_at(text, pointer_of(field.0)) == Some(o.len()),
    }
}

/// The text is JSON, and every field that was written reads back.
pub open spec fn all_read_back(text: Seq<char>, fields: Seq<(Seq<char>, JsonView)>) -> bool {
    &&& parse_error(text) is None
    &&& forall|i: int| 0 <= i < fields.len() ==> reads_back(text, #[trigger] fields[i])
}

/// The first `n` characters of a key hold neither `/` nor `~`.
pub open spec fn plain_until(key: Seq<char>, n: nat) -> bool
    decreases n,
{
    n == 0 || (key[n - 1] != '/' && key[n - 1] != '~' && plain_until(key, (n - 1) as nat))
}

proof fn lemma_plain_at(key: Seq<char>, n: nat, i: int)
    requires
        plain_until(key, n),
        0 <= i < n,
    ensures
        key[i] != '/' && key[i] != '~',
    decreases n,
{
    if i < n - 1 {
        lemma_plain_at(key, (n - 1) as nat, i);
    }
}

/// A key whose characters are all plain is plain.
pub proof fn lemma_plain_key(key: Seq<char>)
    requires
        plain_until(key, key.len()),
    ensures
        plain_key(key),
{
    assert forall|i: int| 0 <= i < key.len() implies key[i] != '/' && key[i] != '~' by {
        lemma_plain_at(key, key.len(), i);
    }
}

/// A field with the given key and value.
pub fn json_field(key: &str, value: JsonValue) -> (f: JsonField)
    ensures
        f@ == (key@, value@),
{
    JsonField { key: key.to_owned(), value }
}

/// Collects the fields into a `serde_json::Value`, a later field taking the place of an earlier one
/// with its key, and calls `Value::to_string`. The text is a function of the fields and parses.
/// Where the keys are plain, each boolean, number from 0 on and string reads back at its key. A
/// negative number reads as no unsigned one, a null as no string, a list has its length, and each
/// of the counts reads back at its number's digits, where no number stands twice.
#[verifier::external_body]
pub(crate) fn write_object(fields: &Vec<JsonField>) -> (r: String)
    ensures
        r@ == object_text(field_views(fields@)),
        parse_error(r@) is None,
        plain_keys(field_views(fields@)) ==> forall|i: int|
            0 <= i < fields@.len() ==> reads_back(r@, #[trigger] field_views(fields@)[i]),
{
    let value = |v: &JsonValue| match v {
        JsonValue::Null => Value::Null,
        JsonValue::Bool(b) => Value::from(*b),
        JsonValue::Unsigned(n) => Value::from(*n),
        JsonValue::Signed(n) => Value::from(*n),
        JsonValue::Text(t) => Value::from(t.as_str()),
        JsonValue::Counts(c) => c.iter().map(|(k, n)| (k.to_string(), *n)).collect(),
        JsonValue::Objects(o) => o.iter().map(|p| Value::from_iter(p.clone())).collect(),
    };
    let fields = fields.iter().map(|f| (f.key.clone(), value(&f.value)));
    Value::from_iter(fields).to_string()
}

/// Calls `serde_json::from_str` for a `Value`. The result is the error's message, and nothing
/// where the text is JSON.
#[verifier::external_body]
pub(crate) fn json_parse_error(text: &str) -> (r: Option<String>)
    ensures
        match r {
            Some(e) => parse_error(text@) == Some(e@),
            None => parse_error(text@) is None,
        },
{
    serde_json::from_str::<Value>(text).err().map(|e| e.to_string())
}

/// Calls `serde_json::from_str`, `Value::pointer` and `Value::as_u64`. Nothing comes back where
/// the text is no JSON or the pointer meets no such number.
#[verifier::external_body]
pub(crate) fn json_unsigned(text: &str, pointer: &str) -> (r: Option<u64>)
    ensures
        r == unsigned_at(text@, pointer@),
{
    serde_json::from_str::<Value>(text).ok()?.pointer(pointer)?.as_u64()
}

/// Calls `serde_json::from_str`, `Value::pointer` and `Value::as_bool`. Nothing comes back where
/// the text is no JSON or the pointer meets no boolean.
#[verifier::external_body]
pub(crate) fn json_bool(text: &str, pointer: &str) -> (r: Option<bool>)
    ensures
        r == bool_at(text@, pointer@),
{
    serde_json::from_str::<Value>(text).ok()?.pointer(pointer)?.as_bool()
}

/// Calls `serde_json::from_str`, `Value::pointer` and `Value::as_str`. Nothing comes back where
/// the text is no JSON or the pointer meets no string.
#[verifier::external_body]
pub(crate) fn json_string(text: &str, pointer: &str) -> (r: Option<String>)
    ensures
        match r {
            Some(s) => string_at(text@, pointer@) == Some(s@),
            None => string_at(text@, pointer@) is None,
        },
{
    let value = serde_json::from_str::<Value>(text).ok()?;
    value.pointer(pointer)?.as_str().map(|s| s.to_string())
}

/// Calls `serde_json::from_str`, `Value::pointer` and `Value::as_array`, and takes the array's
/// length. Nothing comes back where the text is no JSON or the pointer meets no array.
#[verifier::external_body]
pub(crate) fn json_array_len(text: &str, pointer: &str) -> (r: Option<usize>)
    ensures
        match r {
            Some(n) => array_len_at(text@, pointer@) == Some(n as nat),
            None => array_len_at(text@, pointer@) is None,
        },
{
    let value = serde_json::from_str::<Value>(text).ok()?;
    value.pointer(pointer)?.as_array().map(|a| a.len())
}

/// Calls `serde_json::from_str` for a `HashMap` of strings and hands its entries out, in no
/// particular order. Nothing comes back where the text is no such object: where it is no JSON, or
/// where a single value is something other than a string.
#[verifier::external_body]
pub(crate) fn json_text_map(text: &str) -> (r: Option<Vec<(String, String)>>)
    ensures
        match r {
            Some(pairs) => text_map(text@) is Some && holds_map(
                pair_views(pairs@),
                text_map(text@)->0,
            ) && only_texts(text@),
            None => text_map(text@) is None,
        },
{
    let map = serde_json::from_str::<HashMap<String, String>>(text).ok()?;
    Some(map.into_iter().collect())
}

/// Collects the pairs into a `HashMap`, the later of two with the same key taking the earlier one's
/// place, and calls `serde_json::to_string`, which cannot fail on a map of strings. The order in
/// which the text names the keys is left open; it reads back as the map.
#[verifier::external_body]
pub(crate) fn write_text_map(pairs: &Vec<(String, String)>) -> (r: String)
    ensures
        text_map(r@) == Some(pair_map(pair_views(pairs@))),
{
    let map: HashMap<String, String> = pairs.iter().cloned().collect();
    serde_json::to_string(&map).unwrap_or_default()
}

} // verus!
