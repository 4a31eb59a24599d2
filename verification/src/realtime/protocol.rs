//! The envelopes that are exchanged over a connection.

use serde_json::Value;
use vstd::prelude::*;

use crate::json::{self, json_of, json_printed, Json};

verus! {

/// The envelope of something that happened.
pub open spec fn event_json(kind: Seq<char>, payload: Json) -> Json {
    Json::Obj(map!["type"@ => Json::Str(kind), "payload"@ => payload])
}

/// The text of the envelope of something that happened.
pub open spec fn event_text(kind: Seq<char>, payload: Json) -> Seq<char> {
    json_printed(event_json(kind, payload))
}

/// The text of the envelope of something that happened.
pub(crate) fn event_line(kind: &str, payload: Value) -> (r: String)
    ensures
        r@ == event_text(kind@, json_of(payload)),
{
    let mut envelope = json::new_map();
    json::put(&mut envelope, "type", json::string(kind));
    json::put(&mut envelope, "payload", payload);
    json::print(&json::object(envelope))
}

/// The envelope of an answer to a request: it repeats the request's identifier.
pub open spec fn answer_json(
    kind: Seq<char>,
    request_id: Option<Seq<char>>,
    payload: Json,
) -> Json {
    Json::Obj(
        map![
            "type"@ => Json::Str(kind),
            "requestId"@ => json::optional_text(request_id),
            "payload"@ => payload,
        ],
    )
}

/// The envelope of an answer to a request.
pub(crate) fn answer_value(kind: &str, request_id: Option<&str>, payload: Value) -> (r: Value)
    ensures
        json_of(r) == answer_json(
            kind@,
            match request_id {
                Some(request_id) => Some(request_id@),
                None => None,
            },
            json_of(payload),
        ),
{
    let mut envelope = json::new_map();
    json::put(&mut envelope, "type", json::string(kind));
    json::put(&mut envelope, "requestId", json::string_or_null(request_id));
    json::put(&mut envelope, "payload", payload);
    json::object(envelope)
}

/// The envelope of an error.
pub open spec fn error_json(
    request_id: Option<Seq<char>>,
    code: Seq<char>,
    message: Seq<char>,
) -> Json {
    answer_json(
        "error"@,
        request_id,
        Json::Obj(map!["code"@ => Json::Str(code), "message"@ => Json::Str(message)]),
    )
}

/// The envelope of an error.
pub fn error_value(request_id: Option<&str>, code: &str, message: &str) -> (r: Value)
    ensures
        json_of(r) == error_json(
            match request_id {
                Some(request_id) => Some(request_id@),
                None => None,
            },
            code@,
            message@,
        ),
{
    let mut payload = json::new_map();
    json::put(&mut payload, "code", json::string(code));
    json::put(&mut payload, "message", json::string(message));
    answer_value("error", request_id, json::object(payload))
}

/// The text of the envelope of an error.
pub fn error_message(request_id: Option<&str>, code: &str, message: &str) -> (r: String)
    ensures
        r@ == json_printed(
            error_json(
                match request_id {
                    Some(request_id) => Some(request_id@),
                    None => None,
                },
                code@,
                message@,
            ),
        ),
{
    json::print(&error_value(request_id, code, message))
}

} // verus!
