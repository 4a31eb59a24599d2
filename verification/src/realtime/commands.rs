//! What clients ask for over a connection.

use serde_json::Value;
use vstd::prelude::*;

use crate::entity::message::TYPE_TEXT;
use crate::ids::{id_parsed, parse_id, Id};
use crate::json::{self, json_of, json_parsed, Json};
use crate::text::{same_text, text_of};

verus! {

/// What a client asks for, over the representation of texts and of documents.
#[derive(Debug)]
pub enum CommandOf<Text, Doc> {
    /// A sign of life.
    Ping,
    /// A message to be sent to a conversation.
    Send {
        request_id: Option<Text>,
        conversation_id: Id,
        kind: Text,
        content: Doc,
        reply_to_id: Option<Id>,
        client_msg_id: Option<Text>,
    },
    /// A message to be sent, with no conversation named.
    SendNowhere { request_id: Option<Text> },
    /// A read mark to be moved.
    Read { conversation_id: Id, seq: i64 },
    /// The user started or stopped typing.
    Typing { conversation_id: Id, started: bool },
    /// A read mark or a note on typing that lacks what it is about.
    Incomplete,
    /// Something this crate does not know.
    Unknown { request_id: Option<Text> },
    /// A text that is no JSON document.
    Malformed,
}

/// What a client asks for.
pub type Command = CommandOf<String, Value>;

/// What a client asks for, by its contents.
pub type CommandSpec = CommandOf<Seq<char>, Json>;

impl View for CommandOf<String, Value> {
    type V = CommandSpec;

    open spec fn view(&self) -> CommandSpec {
        match *self {
            CommandOf::Ping => CommandOf::Ping,
            CommandOf::Send {
                request_id,
                conversation_id,
                kind,
                content,
                reply_to_id,
                client_msg_id,
            } => CommandOf::Send {
                request_id: text_of(request_id),
                conversation_id,
                kind: kind@,
                content: json_of(content),
                reply_to_id,
                client_msg_id: text_of(client_msg_id),
            },
            CommandOf::SendNowhere { request_id } => CommandOf::SendNowhere {
                request_id: text_of(request_id),
            },
            CommandOf::Read { conversation_id, seq } => CommandOf::Read { conversation_id, seq },
            CommandOf::Typing { conversation_id, started } => CommandOf::Typing {
                conversation_id,
                started,
            },
            CommandOf::Incomplete => CommandOf::Incomplete,
            CommandOf::Unknown { request_id } => CommandOf::Unknown {
                request_id: text_of(request_id),
            },
            CommandOf::Malformed => CommandOf::Malformed,
        }
    }
}

/// The identifier that a document holds under `key`.
pub open spec fn id_at(document: Json, key: Seq<char>) -> Option<Id> {
    match document.text_at(key) {
        Some(text) => id_parsed(text),
        None => None,
    }
}

/// The integer that a document holds under `key`.
pub open spec fn integer_at(document: Json, key: Seq<char>) -> Option<i64> {
    match document.member(key) {
        Some(number) => number.integer(),
        None => None,
    }
}

/// The document that a document holds under `key`, or `null`.
pub open spec fn document_at(document: Json, key: Seq<char>) -> Json {
    match document.member(key) {
        Some(inner) => inner,
        None => Json::Null,
    }
}

/// What the payload of a message to be sent asks for.
pub open spec fn send_in(request_id: Option<Seq<char>>, payload: Json) -> CommandSpec {
    match id_at(payload, "conversationId"@) {
        None => CommandOf::SendNowhere { request_id },
        Some(conversation_id) => CommandOf::Send {
            request_id,
            conversation_id,
            kind: match payload.text_at("type"@) {
                Some(kind) => kind,
                None => TYPE_TEXT@,
            },
            content: document_at(payload, "content"@),
            reply_to_id: id_at(payload, "replyToId"@),
            client_msg_id: payload.text_at("clientMsgId"@),
        },
    }
}

/// What an envelope asks for.
pub open spec fn command_in(envelope: Json) -> CommandSpec {
    let kind = match envelope.text_at("type"@) {
        Some(kind) => kind,
        None => ""@,
    };
    let request_id = envelope.text_at("requestId"@);
    let payload = document_at(envelope, "payload"@);
    if kind == "ping"@ {
        CommandOf::Ping
    } else if kind == "send_message"@ {
        send_in(request_id, payload)
    } else if kind == "read"@ {
        match (id_at(payload, "conversationId"@), integer_at(payload, "seq"@)) {
            (Some(conversation_id), Some(seq)) => CommandOf::Read { conversation_id, seq },
            _ => CommandOf::Incomplete,
        }
    } else if kind == "typing"@ {
        match id_at(payload, "conversationId"@) {
            Some(conversation_id) => CommandOf::Typing {
                conversation_id,
                started: payload.text_at("state"@) == Some("start"@),
            },
            None => CommandOf::Incomplete,
        }
    } else {
        CommandOf::Unknown { request_id }
    }
}

/// What a text asks for, given the document it reads as.
pub open spec fn command_of(parsed: Option<Json>) -> CommandSpec {
    match parsed {
        Some(envelope) => command_in(envelope),
        None => CommandOf::Malformed,
    }
}

fn read_id(document: &Value, key: &str) -> (r: Option<Id>)
    ensures
        r == id_at(json_of(*document), key@),
{
    match json::text_at(document, key) {
        Some(text) => parse_id(text),
        None => None,
    }
}

fn read_integer(document: &Value, key: &str) -> (r: Option<i64>)
    ensures
        r == integer_at(json_of(*document), key@),
{
    match json::get(document, key) {
        Some(number) => json::as_i64(number),
        None => None,
    }
}

fn read_document(document: &Value, key: &str) -> (r: Value)
    ensures
        json_of(r) == document_at(json_of(*document), key@),
{
    match json::get(document, key) {
        Some(inner) => inner.clone(),
        None => json::null(),
    }
}

fn read_text(document: &Value, key: &str) -> (r: Option<String>)
    ensures
        text_of(r) == json_of(*document).text_at(key@),
{
    match json::text_at(document, key) {
        Some(text) => Some(text.to_string()),
        None => None,
    }
}

fn read_send(request_id: Option<String>, payload: &Value) -> (r: Command)
    ensures
        r@ == send_in(text_of(request_id), json_of(*payload)),
{
    match read_id(payload, "conversationId") {
        None => CommandOf::SendNowhere { request_id },
        Some(conversation_id) => CommandOf::Send {
            request_id,
            conversation_id,
            kind: match read_text(payload, "type") {
                Some(kind) => kind,
                None => TYPE_TEXT.to_string(),
            },
            content: read_document(payload, "content"),
            reply_to_id: read_id(payload, "replyToId"),
            client_msg_id: read_text(payload, "clientMsgId"),
        },
    }
}

/// What an envelope asks for.
pub fn read_command(envelope: &Value) -> (r: Command)
    ensures
        r@ == command_in(json_of(*envelope)),
{
    let kind = match json::text_at(envelope, "type") {
        Some(kind) => kind,
        None => "",
    };
    let request_id = read_text(envelope, "requestId");
    let payload = read_document(envelope, "payload");
    if same_text(kind, "ping") {
        CommandOf::Ping
    } else if same_text(kind, "send_message") {
        read_send(request_id, &payload)
    } else if same_text(kind, "read") {
        match (read_id(&payload, "conversationId"), read_integer(&payload, "seq")) {
            (Some(conversation_id), Some(seq)) => CommandOf::Read { conversation_id, seq },
            _ => CommandOf::Incomplete,
        }
    } else if same_text(kind, "typing") {
        match read_id(&payload, "conversationId") {
            Some(conversation_id) => CommandOf::Typing {
                conversation_id,
                started: match json::text_at(&payload, "state") {
                    Some(state) => same_text(state, "start"),
                    None => false,
                },
            },
            None => CommandOf::Incomplete,
        }
    } else {
        CommandOf::Unknown { request_id }
    }
}

/// What a text asks for.
pub fn decode(text: &str) -> (r: Command)
    ensures
        r@ == command_of(json_parsed(text@)),
{
    match json::parse(text) {
        Ok(envelope) => read_command(&envelope),
        Err(_) => CommandOf::Malformed,
    }
}

} // verus!
