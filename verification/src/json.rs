//! JSON values as the task queue persists them.
//!
//! Parsing, printing and the value tree itself come from `serde_json`. This
//! module gives the tree a mathematical model, [`Json`], and states over it what
//! each call that the library makes does.
use vstd::prelude::*;

verus! {

/// The model of a JSON value.
///
/// An object is its entries by key, and the keys in order. Numbers that are no integers,
/// or too large for one of 64 bits, are not told apart.
pub enum Json {
    Null,
    Bool(bool),
    Integer(int),
    Number,
    Text(Seq<char>),
    Array(Seq<Json>),
    Object(Map<Seq<char>, Json>, Seq<Seq<char>>),
}

/// Whether arrays and objects nest at most `depth` deep in `json`.
pub open spec fn nests_within(json: Json, depth: nat) -> bool
    decreases depth,
{
    match json {
        Json::Array(items) => depth > 0 && forall|i: int|
            0 <= i < items.len() ==> nests_within(#[trigger] items[i], (depth - 1) as nat),
        Json::Object(entries, _) => depth > 0 && forall|key: Seq<char>|
            entries.dom().contains(key) ==> nests_within(
                #[trigger] entries[key],
                (depth - 1) as nat,
            ),
        _ => true,
    }
}

/// The nesting depth up to which `serde_json` reads a text.
pub open spec fn max_depth() -> nat {
    127
}

/// A JSON tree of `serde_json`.
#[verifier::external_type_specification]
#[verifier::external_body]
pub struct ExValue(serde_json::Value);

/// The entries of a JSON object of `serde_json`.
#[verifier::external_type_specification]
#[verifier::external_body]
#[verifier::reject_recursive_types(K)]
#[verifier::reject_recursive_types(V)]
pub struct ExMap<K, V>(serde_json::Map<K, V>);

/// The error with which `serde_json` refuses a text.
#[verifier::external_type_specification]
#[verifier::external_body]
pub struct ExError(serde_json::Error);

/// What a JSON tree holds.
pub uninterp spec fn value_json(value: serde_json::Value) -> Json;

/// What the entries of a JSON object hold, by key.
pub uninterp spec fn map_entries(map: serde_json::Map<String, serde_json::Value>) -> Map<
    Seq<char>,
    Json,
>;

/// The keys of a JSON object, in the order in which they first came.
pub uninterp spec fn map_keys(map: serde_json::Map<String, serde_json::Value>) -> Seq<Seq<char>>;

/// What `serde_json::from_str` reads from a text, `None` where it refuses it.
pub uninterp spec fn json_parsed(text: Seq<char>) -> Option<Json>;

/// The text that `serde_json::to_string` prints of a JSON tree.
pub uninterp spec fn value_text(value: serde_json::Value) -> Seq<char>;

/// The text that stands between the braces where `serde_json::to_string` prints the
/// entries of a JSON object.
pub uninterp spec fn entries_text(map: serde_json::Map<String, serde_json::Value>) -> Seq<char>;

/// The hexadecimal digit of a number below sixteen.
pub open spec fn hex_digit(value: int) -> char {
    seq!['0', '1', '2', '3', '4', '5', '6', '7', '8', '9', 'a', 'b', 'c', 'd', 'e', 'f'][value]
}

/// A character as it stands in a string literal: quotes, backslashes and the control
/// characters below the space are escaped, the usual ones of these by a letter.
pub open spec fn escaped(c: char) -> Seq<char> {
    if c == '"' {
        seq!['\\', '"']
    } else if c == '\\' {
        seq!['\\', '\\']
    } else if c as u32 >= 32 {
        seq![c]
    } else if c as u32 == 8 {
        seq!['\\', 'b']
    } else if c as u32 == 9 {
        seq!['\\', 't']
    } else if c as u32 == 10 {
        seq!['\\', 'n']
    } else if c as u32 == 12 {
        seq!['\\', 'f']
    } else if c as u32 == 13 {
        seq!['\\', 'r']
    } else {
        seq!['\\', 'u', '0', '0', hex_digit(c as int / 16), hex_digit(c as int % 16)]
    }
}

/// A text as it stands in a string literal.
pub open spec fn escaped_text(text: Seq<char>) -> Seq<char>
    decreases text.len(),
{
    if text.len() == 0 {
        seq![]
    } else {
        escaped_text(text.drop_last()) + escaped(text.last())
    }
}

/// A text in quotes.
pub open spec fn in_quotes(text: Seq<char>) -> Seq<char> {
    seq!['"'] + text + seq!['"']
}

/// A text in braces.
pub open spec fn in_braces(text: Seq<char>) -> Seq<char> {
    seq!['{'] + text + seq!['}']
}

/// The string literal that stands for a text.
pub open spec fn quoted(text: Seq<char>) -> Seq<char> {
    in_quotes(escaped_text(text))
}

/// Whether a text has no character that a string literal must escape.
pub open spec fn is_plain(text: Seq<char>) -> bool {
    forall|i: int|
        0 <= i < text.len() ==> #[trigger] text[i] as u32 >= 32 && text[i] != '"' && text[i] != '\\'
}

/// A text that has nothing to escape stands in a string literal as it is.
pub proof fn lemma_plain_text_is_quoted_as_it_is(text: Seq<char>)
    requires
        is_plain(text),
    ensures
        escaped_text(text) == text,
        quoted(text) == in_quotes(text),
    decreases text.len(),
{
    if text.len() > 0 {
        let init = text.drop_last();
        assert forall|i: int| 0 <= i < init.len() implies #[trigger] init[i] as u32 >= 32
            && init[i] != '"' && init[i] != '\\' by {
            assert(init[i] == text[i]);
        }
        lemma_plain_text_is_quoted_as_it_is(init);
        assert(text[text.len() - 1] == text.last());
        assert(init + seq![text.last()] =~= text);
    }
}

/// The text of an object's entries with one more entry behind them.
pub open spec fn with_entry(entries: Seq<char>, key: Seq<char>, value: Seq<char>) -> Seq<char> {
    let entry = quoted(key) + seq![':'] + value;
    if entries.len() == 0 {
        entry
    } else {
        entries + seq![','] + entry
    }
}

/// `serde_json::from_str` into a `Value`: whether a text is accepted, and what
/// the value then holds, depends on the text alone.
#[verifier::external_body]
pub(crate) fn parse_json(text: &str) -> (res: Result<serde_json::Value, serde_json::Error>)
    ensures
        res is Ok <==> json_parsed(text@) is Some,
        res matches Ok(value) ==> Some(value_json(value)) == json_parsed(text@),
{
    serde_json::from_str(text)
}

/// `serde_json::to_string` of a `Value` that nests no deeper than the reader follows:
/// it prints the value, and what it prints reads back as the same value. The text is
/// named; what it is follows from how the value was made.
#[verifier::external_body]
pub(crate) fn print_json(value: &serde_json::Value) -> (res: Result<String, serde_json::Error>)
    requires
        nests_within(value_json(*value), max_depth()),
    ensures
        res is Ok,
        json_parsed(res->Ok_0@) == Some(value_json(*value)),
        res->Ok_0@ == value_text(*value),
{
    serde_json::to_string(value)
}

/// `Value::get` with a string: the value under that key of an object, and
/// nothing where there is no such key or no object.
#[verifier::external_body]
pub(crate) fn member<'a>(value: &'a serde_json::Value, key: &str) -> (res: Option<
    &'a serde_json::Value,
>)
    ensures
        match value_json(*value) {
            Json::Object(entries, _) => if entries.dom().contains(key@) {
                res is Some && value_json(*res->0) == entries[key@]
            } else {
                res is None
            },
            _ => res is None,
        },
{
    value.get(key)
}

/// `Value::as_array`: the items of an array in order, and nothing where the
/// value is no array.
#[verifier::external_body]
pub(crate) fn as_array<'a>(value: &'a serde_json::Value) -> (res: Option<
    &'a Vec<serde_json::Value>,
>)
    ensures
        match value_json(*value) {
            Json::Array(items) => {
                &&& res is Some
                &&& res->0@.len() == items.len()
                &&& forall|i: int|
                    0 <= i < items.len() ==> value_json(#[trigger] res->0@[i]) == items[i]
            },
            _ => res is None,
        },
{
    value.as_array()
}

/// `Value::as_object`: the entries of an object, and nothing where the value is
/// no object.
#[verifier::external_body]
pub(crate) fn as_object<'a>(value: &'a serde_json::Value) -> (res: Option<
    &'a serde_json::Map<String, serde_json::Value>,
>)
    ensures
        match value_json(*value) {
            Json::Object(entries, keys) => {
                &&& res is Some
                &&& map_entries(*res->0) == entries
                &&& map_keys(*res->0) == keys
            },
            _ => res is None,
        },
{
    value.as_object()
}

/// `Map::len`: the number of entries.
#[verifier::external_body]
pub(crate) fn entry_count(map: &serde_json::Map<String, serde_json::Value>) -> (res: usize)
    ensures
        res == map_entries(*map).dom().len(),
{
    map.len()
}

/// `Map::keys`: the keys, in the order in which they first came.
#[verifier::external_body]
pub(crate) fn entry_keys(map: &serde_json::Map<String, serde_json::Value>) -> (res: Vec<String>)
    ensures
        res@.len() == map_keys(*map).len(),
        forall|i: int| 0 <= i < res@.len() ==> (#[trigger] res@[i])@ == map_keys(*map)[i],
{
    map.keys().cloned().collect()
}

/// `Value::as_str`: the string that the value is, and nothing where it is none.
#[verifier::external_body]
pub(crate) fn as_text<'a>(value: &'a serde_json::Value) -> (res: Option<&'a str>)
    ensures
        match value_json(*value) {
            Json::Text(text) => res is Some && res->0@ == text,
            _ => res is None,
        },
{
    value.as_str()
}

/// `Value::is_null`: whether the value is `null`.
#[verifier::external_body]
pub(crate) fn is_null(value: &serde_json::Value) -> (res: bool)
    ensures
        res == (value_json(*value) == Json::Null),
{
    value.is_null()
}

/// `Value::Null`: the value `null`, which is printed as its name.
#[verifier::external_body]
pub(crate) fn null_value() -> (res: serde_json::Value)
    ensures
        value_json(res) == Json::Null,
        value_text(res) == "null"@,
{
    serde_json::Value::Null
}

/// `Value::String`: a string as a value, which is printed as a string literal.
#[verifier::external_body]
pub(crate) fn text_value(text: String) -> (res: serde_json::Value)
    ensures
        value_json(res) == Json::Text(text@),
        value_text(res) == quoted(text@),
{
    serde_json::Value::String(text)
}

/// The entries of an empty object.
pub open spec fn no_entries() -> Map<Seq<char>, Json> {
    Map::empty()
}

/// `Map::new`: no entries.
#[verifier::external_body]
pub(crate) fn empty_map() -> (res: serde_json::Map<String, serde_json::Value>)
    ensures
        map_entries(res) == no_entries(),
        map_keys(res).len() == 0,
        entries_text(res).len() == 0,
{
    serde_json::Map::new()
}

/// `Map::insert`: sets the entry under a key, in place of an earlier one. The map keeps
/// its entries in the order in which their keys came, so a new key is printed last.
#[verifier::external_body]
pub(crate) fn insert_entry(
    map: &mut serde_json::Map<String, serde_json::Value>,
    key: String,
    value: serde_json::Value,
)
    ensures
        map_entries(*final(map)) == map_entries(*old(map)).insert(key@, value_json(value)),
        !map_entries(*old(map)).dom().contains(key@) ==> map_keys(*final(map)) == map_keys(
            *old(map),
        ).push(key@),
        !map_entries(*old(map)).dom().contains(key@) ==> entries_text(*final(map)) == with_entry(
            entries_text(*old(map)),
            key@,
            value_text(value),
        ),
{
    map.insert(key, value);
}

/// `Value::Object`: entries as a value, which is printed as their text in braces.
#[verifier::external_body]
pub(crate) fn object_value(map: serde_json::Map<String, serde_json::Value>) -> (res:
    serde_json::Value)
    ensures
        value_json(res) == Json::Object(map_entries(map), map_keys(map)),
        value_text(res) == in_braces(entries_text(map)),
{
    serde_json::Value::Object(map)
}

/// The field `key` of a persisted record of `total` fields.
///
/// A record is an object with a key per field, in which other keys may stand, or
/// an array of exactly its fields in order, where the field has place `index`.
pub open spec fn field_of(json: Json, key: Seq<char>, index: int, total: int) -> Option<Json> {
    match json {
        Json::Object(entries, _) => if entries.dom().contains(key) {
            Some(entries[key])
        } else {
            None
        },
        Json::Array(items) => if items.len() == total && 0 <= index < total {
            Some(items[index])
        } else {
            None
        },
        _ => None,
    }
}

/// Finds the field `key` of a persisted record of `total` fields.
pub(crate) fn field<'a>(
    value: &'a serde_json::Value,
    key: &str,
    index: usize,
    total: usize,
) -> (res: Option<&'a serde_json::Value>)
    ensures
        res is Some <==> field_of(value_json(*value), key@, index as int, total as int) is Some,
        res matches Some(found) ==> Some(value_json(*found)) == field_of(
            value_json(*value),
            key@,
            index as int,
            total as int,
        ),
{
    match as_array(value) {
        Some(items) => if items.len() == total && index < total {
            Some(&items[index])
        } else {
            None
        },
        None => member(value, key),
    }
}

/// The text that a field of a persisted record holds.
pub open spec fn text_in(field: Option<Json>) -> Option<Seq<char>> {
    match field {
        Some(Json::Text(text)) => Some(text),
        _ => None,
    }
}

/// Reads the text that a field of a persisted record holds.
pub(crate) fn text_field(
    value: &serde_json::Value,
    key: &str,
    index: usize,
    total: usize,
) -> (res: Option<String>)
    ensures
        match (res, text_in(field_of(value_json(*value), key@, index as int, total as int))) {
            (Some(text), Some(expected)) => text@ == expected,
            (None, None) => true,
            _ => false,
        },
{
    match field(value, key, index, total) {
        Some(found) => match as_text(found) {
            Some(text) => Some(text.to_owned()),
            None => None,
        },
        None => None,
    }
}

/// The name that a tag holds: the text that it is, or the only key of an object that has
/// `null` under it.
pub open spec fn tag_in(field: Option<Json>) -> Option<Seq<char>> {
    match field {
        Some(Json::Text(text)) => Some(text),
        Some(Json::Object(entries, keys)) => if keys.len() == 1 && entries.dom().contains(keys[0])
            && entries[keys[0]] == Json::Null {
            Some(keys[0])
        } else {
            None
        },
        _ => None,
    }
}

/// An object of one entry, and under its key an empty object, with `null` in the place of
/// that.
pub open spec fn without_empty_payload(json: Json) -> Option<Json> {
    match json {
        Json::Object(entries, keys) => if keys.len() == 1 && entries.dom().contains(keys[0])
            && is_empty_object(entries[keys[0]]) {
            Some(Json::Object(no_entries().insert(keys[0], Json::Null), seq![keys[0]]))
        } else {
            None
        },
        _ => None,
    }
}

/// Whether a value is an object without entries.
pub open spec fn is_empty_object(json: Json) -> bool {
    json matches Json::Object(_, keys) && keys.len() == 0
}

/// Whether, of two keys, the first comes before every occurrence of the second.
pub open spec fn comes_first(keys: Seq<Seq<char>>, first: Seq<char>, second: Seq<char>) -> bool {
    exists|i: int|
        0 <= i < keys.len() && #[trigger] keys[i] == first && forall|j: int|
            0 <= j < i ==> #[trigger] keys[j] != second
}

/// Reads the name that a tag among the entries of an object holds.
pub(crate) fn tag_field(value: &serde_json::Value, key: &str) -> (res: Option<String>)
    requires
        value_json(*value) is Object,
    ensures
        match (res, tag_in(field_of(value_json(*value), key@, 0, 2))) {
            (Some(text), Some(expected)) => text@ == expected,
            (None, None) => true,
            _ => false,
        },
{
    let found = match member(value, key) {
        Some(found) => found,
        None => return None,
    };
    if let Some(text) = as_text(found) {
        return Some(text.to_owned());
    }
    match only_entry(found) {
        Some((name, under)) => {
            if is_null(under) {
                Some(name)
            } else {
                None
            }
        },
        None => None,
    }
}

/// The entry of an object that has one.
fn only_entry<'a>(value: &'a serde_json::Value) -> (res: Option<(String, &'a serde_json::Value)>)
    ensures
        match (res, value_json(*value)) {
            (Some((key, under)), Json::Object(entries, keys)) => {
                &&& keys.len() == 1
                &&& key@ == keys[0]
                &&& entries.dom().contains(keys[0])
                &&& value_json(*under) == entries[keys[0]]
            },
            (None, Json::Object(entries, keys)) => !(keys.len() == 1 && entries.dom().contains(
                keys[0],
            )),
            (res, _) => res is None,
        },
{
    match as_object(value) {
        Some(entries) => {
            let keys = entry_keys(entries);
            if keys.len() != 1 {
                return None;
            }
            match member(value, keys[0].as_str()) {
                Some(under) => Some((keys[0].clone(), under)),
                None => None,
            }
        },
        None => None,
    }
}

/// An object of one entry, and under its key an empty object, with `null` in the place of
/// that.
pub(crate) fn drop_empty_payload(value: &serde_json::Value) -> (res: Option<serde_json::Value>)
    ensures
        match (res, without_empty_payload(value_json(*value))) {
            (Some(bare), Some(expected)) => value_json(bare) == expected,
            (None, None) => true,
            _ => false,
        },
{
    match only_entry(value) {
        Some((name, under)) => match as_object(under) {
            Some(payload) => {
                if entry_keys(payload).len() != 0 {
                    return None;
                }
                let ghost name_text = name@;
                let mut entries = empty_map();
                insert_entry(&mut entries, name, null_value());
                proof {
                    assert(map_keys(entries) =~= seq![name_text]);
                }
                Some(object_value(entries))
            },
            None => None,
        },
        None => None,
    }
}

/// Whether, of two keys, the first comes before every occurrence of the second.
pub(crate) fn is_first(keys: &Vec<String>, first: &str, second: &str) -> (res: bool)
    requires
        first@ != second@,
    ensures
        res == comes_first(keys@.map_values(|key: String| key@), first@, second@),
{
    let ghost views = keys@.map_values(|key: String| key@);
    let wanted = first.to_owned();
    let other = second.to_owned();
    let mut i: usize = 0;
    while i < keys.len()
        invariant
            views == keys@.map_values(|key: String| key@),
            wanted@ == first@,
            other@ == second@,
            first@ != second@,
            i <= keys@.len(),
            forall|j: int| 0 <= j < i ==> #[trigger] views[j] != second@ && views[j] != first@,
        decreases keys@.len() - i,
    {
        assert(views[i as int] == keys@[i as int]@);
        if keys[i] == wanted {
            return true;
        }
        if keys[i] == other {
            assert(!comes_first(views, first@, second@)) by {
                assert forall|k: int|
                    0 <= k < views.len() && #[trigger] views[k] == first@ implies exists|j: int|
                    0 <= j < k && #[trigger] views[j] == second@ by {
                    assert(views[i as int] == second@);
                }
            }
            return false;
        }
        i = i + 1;
    }
    false
}

/// A value that nests within one depth nests within every larger one.
pub proof fn lemma_nests_within_more(json: Json, depth: nat, more: nat)
    requires
        nests_within(json, depth),
        depth <= more,
    ensures
        nests_within(json, more),
    decreases depth,
{
    match json {
        Json::Array(items) => {
            assert forall|i: int| 0 <= i < items.len() implies nests_within(
                #[trigger] items[i],
                (more - 1) as nat,
            ) by {
                lemma_nests_within_more(items[i], (depth - 1) as nat, (more - 1) as nat);
            }
        },
        Json::Object(entries, _) => {
            assert forall|key: Seq<char>| entries.dom().contains(key) implies nests_within(
                #[trigger] entries[key],
                (more - 1) as nat,
            ) by {
                lemma_nests_within_more(entries[key], (depth - 1) as nat, (more - 1) as nat);
            }
        },
        _ => {},
    }
}

} // verus!
