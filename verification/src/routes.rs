//! The requests of the HTTP interface.

use serde_json::Value;
use vstd::prelude::*;

use crate::clock::Timestamp;
use crate::error::AppError;
use crate::ids::{id_parsed, parse_id, Id};
use crate::json::{self, json_of, Json};

pub mod conversations;
pub mod dto;
pub mod groups;
pub mod members;
pub mod messages;

pub use conversations::{create_conversation, list_conversations};
pub use dto::{ConversationDto, MessageDto};
pub use groups::{dissolve_conversation, transfer_owner, update_group_settings};
pub use members::{
    add_members, list_members, mute_member, remove_member, set_member_role, set_member_speak,
};
pub use messages::{list_messages, mark_read, message_receipts, recall_message, send_message};

verus! {

/// What a request is answered with, over the representation of documents.
#[derive(Clone, Debug)]
pub struct ReplyOf<Doc> {
    /// The HTTP status.
    pub status: u16,
    /// The body, where there is one.
    pub body: Option<Doc>,
}

/// What a request is answered with.
pub type Reply = ReplyOf<Value>;

/// An answer by its contents.
pub type ReplySpec = ReplyOf<Json>;

impl View for ReplyOf<Value> {
    type V = ReplySpec;

    open spec fn view(&self) -> ReplySpec {
        ReplyOf {
            status: self.status,
            body: match self.body {
                Some(body) => Some(json_of(body)),
                None => None,
            },
        }
    }
}

/// The answer with a body and the status for success.
pub open spec fn ok(body: Json) -> ReplySpec {
    ReplyOf { status: 200, body: Some(body) }
}

/// The answer with a body that says whether something was created or there before.
pub open spec fn created_or_ok(created: bool, body: Json) -> ReplySpec {
    ReplyOf {
        status: if created {
            201
        } else {
            200
        },
        body: Some(body),
    }
}

/// The answer without a body.
pub open spec fn no_content() -> ReplySpec {
    ReplyOf { status: 204, body: None }
}

/// Whether the service is alive: always.
pub fn healthz() -> (r: Reply)
    ensures
        r@ == ok(Json::Obj(map!["status"@ => Json::Str("ok"@)])),
{
    let mut members = json::new_map();
    json::put(&mut members, "status", json::string("ok"));
    ReplyOf { status: 200, body: Some(json::object(members)) }
}

/// Whether the service is ready, given whether the database answers.
pub fn readyz(database_answers: bool) -> (r: Reply)
    ensures
        r@ == ok(
            if database_answers {
                Json::Obj(
                    map!["status"@ => Json::Str("ready"@), "database"@ => Json::Str("ok"@)],
                )
            } else {
                Json::Obj(
                    map!["status"@ => Json::Str("degraded"@), "database"@ => Json::Str("error"@)],
                )
            },
        ),
{
    let mut members = json::new_map();
    if database_answers {
        json::put(&mut members, "status", json::string("ready"));
        json::put(&mut members, "database", json::string("ok"));
    } else {
        json::put(&mut members, "status", json::string("degraded"));
        json::put(&mut members, "database", json::string("error"));
    }
    ReplyOf { status: 200, body: Some(json::object(members)) }
}

/// The user that a login is for, given what its subject reads as.
pub open spec fn user_of(parsed: Option<Id>) -> Result<Id, AppError> {
    match parsed {
        Some(user_id) => Ok(user_id),
        None => Err(AppError::InvalidToken),
    }
}

/// The user that a login is for, given what its subject reads as.
pub fn user_from(parsed: Option<Id>) -> (r: Result<Id, AppError>)
    ensures
        r == user_of(parsed),
{
    match parsed {
        Some(user_id) => Ok(user_id),
        None => Err(AppError::InvalidToken),
    }
}

/// The user that a login is for, by its subject.
pub fn user_id_of(subject: &str) -> (r: Result<Id, AppError>)
    ensures
        r == user_of(id_parsed(subject@)),
{
    user_from(parse_id(subject))
}

/// A request to create a conversation.
#[derive(Clone, Debug)]
pub struct CreateConversationRequest {
    /// Direct or group.
    pub kind: String,
    /// The other members.
    pub member_ids: Vec<Id>,
    /// Name of a group.
    pub name: Option<String>,
}

/// Which part of the history to show.
#[derive(Clone, Copy, Debug)]
pub struct MessageQuery {
    /// Only messages before this sequence number.
    pub before_seq: Option<i64>,
    /// How many.
    pub limit: Option<u64>,
}

/// A request to send a message.
#[derive(Clone, Debug)]
pub struct SendMessageRequest {
    /// The sender's own identifier for the message.
    pub client_msg_id: Option<String>,
    /// The message type.
    pub kind: String,
    pub content: Value,
    /// The message it replies to.
    pub reply_to_id: Option<Id>,
}

/// A request to move the read mark.
#[derive(Clone, Copy, Debug)]
pub struct ReadRequest {
    /// Everything up to this sequence number has been read.
    pub seq: i64,
}

/// A request to mute a member, or to let them speak again.
#[derive(Clone, Copy, Debug)]
pub struct MuteRequest {
    /// Until when; nothing lifts the mute.
    pub muted_until: Option<Timestamp>,
}

/// A request to let a member speak where only administrators may.
#[derive(Clone, Copy, Debug)]
pub struct SpeakRequest {
    /// Whether the member may speak.
    pub can_speak: bool,
}

/// A request to change the settings of a group.
#[derive(Clone, Debug)]
pub struct GroupSettingsRequest {
    /// Whether only administrators, and members allowed to, may speak.
    pub only_admins_speak: Option<bool>,
    /// The notice; given as nothing, it is cleared.
    pub notice: Option<Option<String>>,
}

/// A request to change the role of a member.
#[derive(Clone, Debug)]
pub struct RoleRequest {
    /// Administrator or member.
    pub role: String,
}

/// A request to hand a group over.
#[derive(Clone, Copy, Debug)]
pub struct TransferRequest {
    /// The new owner.
    pub user_id: Id,
}

/// A request to add members to a group.
#[derive(Clone, Debug)]
pub struct AddMembersRequest {
    pub user_ids: Vec<Id>,
}

} // verus!
