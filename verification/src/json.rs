//! The JSON reading the overlay needs, done by `serde_json`.

use vstd::prelude::*;

use crate::text::decimal_text;

verus! {

/// A parsed JSON document (`serde_json::Value`), carried through opaquely.
#[verifier::external_type_specification]
#[verifier::external_body]
pub struct ExJsonValue(serde_json::Value);

/// Why a text is not JSON (`serde_json::Error`), carried through opaquely.
#[verifier::external_type_specification]
#[verifier::external_body]
pub struct ExJsonError(serde_json::Error);

/// Whether `text` is a JSON document as `serde_json` reads one.
pub uninterp spec fn is_json(text: Seq<char>) -> bool;

/// The integer under `key` in the JSON object `text`, as `serde_json` reads it: `None`
/// when `text` is not JSON, is not an object with that key, or the value there is not an
/// integer that fits in an `i64`.
pub uninterp spec fn json_i64_field(text: Seq<char>, key: Seq<char>) -> Option<i64>;

/// A key JSON writes between quotes as it is: ASCII letters, digits and `_`.
pub open spec fn is_plain_key(k: Seq<char>) -> bool {
    forall|i: int|
        0 <= i < k.len() ==> {
            let c = #[trigger] k[i];
            ('a' <= c && c <= 'z') || ('A' <= c && c <= 'Z') || ('0' <= c && c <= '9') || c
                == '_'
        }
}

/// Plain keys, no two alike.
pub open spec fn distinct_plain_keys(fields: Seq<(Seq<char>, i64)>) -> bool {
    &&& forall|i: int| 0 <= i < fields.len() ==> is_plain_key(#[trigger] fields[i].0)
    &&& forall|i: int, j: int|
        0 <= i < j < fields.len() ==> #[trigger] fields[i].0 != #[trigger] fields[j].0
}

/// One member `"key": value` of a JSON object.
pub open spec fn member_text(field: (Seq<char>, i64)) -> Seq<char> {
    seq!['"'] + field.0 + seq!['"', ':', ' '] + decimal_text(field.1 as int)
}

/// The members of an object as `serde_json::to_string_pretty` lays them out: each on
/// its own line, indented by two spaces, separated by commas.
pub open spec fn members_text(fields: Seq<(Seq<char>, i64)>) -> Seq<char>
    decreases fields.len(),
{
    if fields.len() == 0 {
        Seq::empty()
    } else if fields.len() == 1 {
        seq!['\n', ' ', ' '] + member_text(fields[0])
    } else {
        members_text(fields.drop_last()) + seq![',', '\n', ' ', ' '] + member_text(fields.last())
    }
}

/// The text `serde_json::to_string_pretty` writes for an object whose members are the
/// integer `fields`, in order.
pub open spec fn pretty_int_object(fields: Seq<(Seq<char>, i64)>) -> Seq<char> {
    if fields.len() == 0 {
        seq!['{', '}']
    } else {
        seq!['{'] + members_text(fields) + seq!['\n', '}']
    }
}

/// The value of the member named `key`, if there is one.
pub open spec fn field_value(fields: Seq<(Seq<char>, i64)>, key: Seq<char>) -> Option<i64>
    decreases fields.len(),
{
    if fields.len() == 0 {
        None
    } else if fields[0].0 == key {
        Some(fields[0].1)
    } else {
        field_value(fields.drop_first(), key)
    }
}

/// Parses `text` with `serde_json::from_str::<serde_json::Value>`. The contract says
/// when it succeeds; what value it builds is left to `serde_json` and not stated.
#[verifier::external_body]
pub fn parse_json(text: &str) -> (res: Result<serde_json::Value, serde_json::Error>)
    ensures
        res is Ok <==> is_json(text@),
{
    serde_json::from_str::<serde_json::Value>(text)
}

/// Reads the integer under `key` of the JSON object in `text`: `serde_json::from_str`
/// into a `serde_json::Value`, then `Value::get(key)` and `Value::as_i64`. Besides naming
/// the result, the contract states what JSON reading gives on an object of integer
/// members written out in `to_string_pretty`'s layout: the member's integer.
#[verifier::external_body]
pub fn json_i64_field_of(text: &str, key: &str) -> (res: Option<i64>)
    ensures
        res == json_i64_field(text@, key@),
        forall|fields: Seq<(Seq<char>, i64)>|
            text@ == #[trigger] pretty_int_object(fields) && distinct_plain_keys(fields) ==> res
                == field_value(fields, key@),
{
    let value: serde_json::Value = serde_json::from_str(text).ok()?;
    value.get(key)?.as_i64()
}

} // verus!
