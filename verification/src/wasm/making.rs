//! The guest module built on the host-call kit: its arguments arrive as a
//! UTF-8 JSON text and its result leaves as JSON.

use vstd::prelude::*;
use vstd::utf8::{decode_utf8, valid_utf8};
use crate::json::{Json, JsonValue, json_parse, json_written, member_models, lemma_member_models, parse_json, write_json};
use crate::wasm::string::utf8_text;

verus! {

/// `args_string`: the argument text, from the bytes the host copied into
/// the guest's memory; the kit requires them to be UTF-8.
pub fn args_string(bytes: &[u8]) -> (text: String)
    requires
        valid_utf8(bytes@),
    ensures
        text@ == decode_utf8(bytes@),
{
    match utf8_text(bytes) {
        Some(t) => String::from_str(t),
        None => String::new(),
    }
}

/// `args_value`: the arguments, the JSON value that the argument text
/// holds; `None` where the text is no JSON.
pub fn args_value(bytes: &[u8]) -> (r: Option<JsonValue>)
    requires
        valid_utf8(bytes@),
    ensures
        r is Some <==> json_parse(decode_utf8(bytes@)) is Some,
        r matches Some(v) ==> json_parse(decode_utf8(bytes@)) == Some(v.model()),
{
    let text = args_string(bytes);
    parse_json(text.as_str())
}

/// `result`: the text handed to the host as the guest's result, the value
/// written as JSON.
pub fn result(dst: &JsonValue) -> (text: Option<String>)
    ensures
        text is Some <==> json_written(dst.model()) is Some,
        text matches Some(t) ==> json_written(dst.model()) == Some(t@),
{
    write_json(dst)
}

/// `run`: the result the export hands back, `{"result": false}`.
pub fn run() -> (result: JsonValue)
    ensures
        result.model() == Json::Object(seq![("result"@, Json::Bool(false))]),
{
    let mut members: Vec<(String, JsonValue)> = Vec::new();
    members.push((String::from_str("result"), JsonValue::Bool(false)));
    proof {
        lemma_member_models(members@);
        assert(member_models(members@) =~= seq![("result"@, Json::Bool(false))]);
    }
    JsonValue::Object(members)
}

} // verus!
