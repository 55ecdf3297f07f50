//! Reading a server reply: its status, then its JSON body.
use vstd::prelude::*;
use crate::error::ExportError;
use crate::json::{json_field, json_field_of, json_parsed, json_text, json_text_of, parse_json};
use crate::sanitize::{strip_quotes, unquoted};

verus! {

/// What came back for one request: the HTTP status and the body's bytes.
#[derive(Debug)]
pub struct Reply {
    pub status: u16,
    pub body: Vec<u8>,
}

pub open spec fn is_auth_status(status: u16) -> bool {
    status == 401 || status == 403
}

pub open spec fn parse_failure_message() -> Seq<char> {
    "Failed to parse json"@
}

/// The text that an error reply's `message` field gives: the field's JSON
/// text without quotes, or `unknown` where there is no such field.
pub open spec fn message_text(field: Option<Seq<char>>) -> Seq<char> {
    match field {
        Some(t) => unquoted(t),
        None => "unknown"@,
    }
}

/// The JSON text of the field `key` of `v`, where `v` has it.
pub open spec fn field_text_of(v: serde_json::Value, key: Seq<char>) -> Option<Seq<char>> {
    match json_field_of(v, key) {
        Some(f) => Some(json_text_of(f)),
        None => None,
    }
}

/// The JSON text of the field `inner` of the field `outer` of `v`.
pub open spec fn nested_field_text_of(v: serde_json::Value, outer: Seq<char>, inner: Seq<char>) -> Option<Seq<char>> {
    match json_field_of(v, outer) {
        Some(o) => field_text_of(o, inner),
        None => None,
    }
}

/// The JSON text of the `message` field of a body that is a JSON object.
pub open spec fn body_message(body: Seq<u8>) -> Option<Seq<char>> {
    match json_parsed(body) {
        Some(v) => field_text_of(v, "message"@),
        None => None,
    }
}

/// `e` is the error for status `status` (not 200) whose body's `message`
/// field has the JSON text `field`: 401 and 403 are authentication errors,
/// the rest server errors, each with the message text.
pub open spec fn is_failure(e: ExportError, status: u16, field: Option<Seq<char>>) -> bool {
    if is_auth_status(status) {
        e matches ExportError::Auth(m) && m@ == message_text(field)
    } else {
        e matches ExportError::Server(m) && m@ == message_text(field)
    }
}

/// The document of a 200 reply whose body is JSON.
pub open spec fn reply_body(reply: Result<Reply, String>) -> Option<serde_json::Value> {
    match reply {
        Ok(rp) => if rp.status == 200 { json_parsed(rp.body@) } else { None },
        Err(_) => None,
    }
}

/// The error taxonomy that every request shares: no answer is a transport
/// error; a status other than 200 is the error that `failure` gives for it;
/// a 200 whose body is not JSON is a parse error. What a readable 200
/// gives is up to each request.
pub open spec fn follows_reply<T>(reply: Result<Reply, String>, r: Result<T, ExportError>) -> bool {
    match reply {
        Err(t) => r matches Err(ExportError::Transport(m)) && m@ == t@,
        Ok(rp) => if rp.status == 200 {
            json_parsed(rp.body@) is None ==> (r matches Err(ExportError::Parse(m)) && m@ == parse_failure_message())
        } else {
            r matches Err(e) && is_failure(e, rp.status, body_message(rp.body@))
        },
    }
}

/// The error for a reply whose status is not 200, given the JSON text of
/// the `message` field of its body.
pub fn failure(status: u16, message: Option<String>) -> (e: ExportError)
    ensures
        is_failure(e, status, message.deep_view()),
{
    let text = match message {
        Some(t) => strip_quotes(t),
        None => String::from_str("unknown"),
    };
    if status == 401 || status == 403 {
        ExportError::Auth(text)
    } else {
        ExportError::Server(text)
    }
}

/// The JSON text of a field of `v`.
pub(crate) fn field_text(v: &serde_json::Value, key: &str) -> (r: Option<String>)
    ensures
        r.deep_view() == field_text_of(*v, key@),
{
    match json_field(v, key) {
        Some(f) => Some(json_text(f)),
        None => None,
    }
}

/// The JSON text of the field `inner` of the field `outer` of `v`.
pub(crate) fn nested_field_text(v: &serde_json::Value, outer: &str, inner: &str) -> (r: Option<String>)
    ensures
        r.deep_view() == nested_field_text_of(*v, outer@, inner@),
{
    match json_field(v, outer) {
        Some(o) => field_text(o, inner),
        None => None,
    }
}

/// The JSON text of the `message` field of a body that is a JSON object.
fn message_field(body: &Vec<u8>) -> (r: Option<String>)
    ensures
        r.deep_view() == body_message(body@),
{
    match parse_json(body.as_slice()) {
        Ok(v) => field_text(&v, "message"),
        Err(_) => None,
    }
}

/// The parsed body of a 200 reply, or the error that the reply stands for.
pub fn read_reply(reply: Result<Reply, String>) -> (r: Result<serde_json::Value, ExportError>)
    ensures
        follows_reply(reply, r),
        reply_body(reply) matches Some(v) ==> r == Ok::<serde_json::Value, ExportError>(v),
{
    match reply {
        Err(t) => Err(ExportError::Transport(t)),
        Ok(rp) => {
            if rp.status == 200 {
                match parse_json(rp.body.as_slice()) {
                    Ok(v) => Ok(v),
                    Err(_) => Err(ExportError::Parse(String::from_str("Failed to parse json"))),
                }
            } else {
                Err(failure(rp.status, message_field(&rp.body)))
            }
        },
    }
}

} // verus!
