//! The documents that messages, conversations and members are shown as.

use serde_json::Value;
use vstd::prelude::*;

use crate::clock::Timestamp;
use crate::entity::{conversation, conversation_member, message};
use crate::ids::{format_id, id_text, Id};
use crate::json::{self, json_all, json_of, optional_text, Json};
use crate::repo::ConversationWithMember;
use crate::text::{copy_text, text_of};

verus! {

/// The document of an identifier: its text.
pub open spec fn id_json(id: Id) -> Json {
    Json::Str(id_text(id))
}

/// The document of an identifier that may be missing.
pub open spec fn optional_id_json(id: Option<Id>) -> Json {
    match id {
        Some(id) => id_json(id),
        None => Json::Null,
    }
}

/// The document of a point in time that may be missing.
pub open spec fn optional_time_json(at: Option<Timestamp>) -> Json {
    match at {
        Some(at) => at.json(),
        None => Json::Null,
    }
}

/// The documents of identifiers, in their order.
pub open spec fn ids_json(ids: Seq<Id>) -> Seq<Json> {
    ids.map_values(|id: Id| id_json(id))
}

pub(crate) fn id_value(id: Id) -> (r: Value)
    ensures
        json_of(r) == id_json(id),
{
    json::string(format_id(id).as_str())
}

pub(crate) fn optional_id_value(id: Option<Id>) -> (r: Value)
    ensures
        json_of(r) == optional_id_json(id),
{
    match id {
        Some(id) => id_value(id),
        None => json::null(),
    }
}

pub(crate) fn optional_time_value(at: Option<Timestamp>) -> (r: Value)
    ensures
        json_of(r) == optional_time_json(at),
{
    match at {
        Some(at) => at.to_json(),
        None => json::null(),
    }
}

pub(crate) fn optional_string_value(text: &Option<String>) -> (r: Value)
    ensures
        json_of(r) == optional_text(text_of(*text)),
{
    match text {
        Some(text) => json::string(text.as_str()),
        None => json::null(),
    }
}

pub(crate) fn ids_value(ids: &Vec<Id>) -> (r: Value)
    ensures
        json_of(r) == Json::Arr(ids_json(ids@)),
{
    let mut items: Vec<Value> = Vec::new();
    for i in 0..ids.len()
        invariant
            json_all(items@) == ids_json(ids@).take(i as int),
    {
        let ghost before = items@;
        items.push(id_value(ids[i]));
        assert(json_all(items@) == json_all(before).push(id_json(ids@[i as int])));
    }
    assert(ids_json(ids@).take(ids@.len() as int) == ids_json(ids@));
    json::array(items)
}

/// The string documents of texts, in their order.
pub open spec fn texts_json(texts: Seq<String>) -> Seq<Json> {
    texts.map_values(|text: String| Json::Str(text@))
}

fn id_texts(ids: &Vec<Id>) -> (r: Vec<String>)
    ensures
        texts_json(r@) == ids_json(ids@),
{
    let mut r: Vec<String> = Vec::new();
    for i in 0..ids.len()
        invariant
            texts_json(r@) == ids_json(ids@).take(i as int),
    {
        let ghost before = r@;
        r.push(format_id(ids[i]));
        assert(texts_json(r@) == texts_json(before).push(id_json(ids@[i as int])));
    }
    assert(ids_json(ids@).take(ids@.len() as int) == ids_json(ids@));
    r
}

fn texts_value(texts: &Vec<String>) -> (r: Value)
    ensures
        json_of(r) == Json::Arr(texts_json(texts@)),
{
    let mut items: Vec<Value> = Vec::new();
    for i in 0..texts.len()
        invariant
            json_all(items@) == texts_json(texts@).take(i as int),
    {
        let ghost before = items@;
        items.push(json::string(texts[i].as_str()));
        assert(json_all(items@) == json_all(before).push(Json::Str(texts@[i as int]@)));
    }
    assert(texts_json(texts@).take(texts@.len() as int) == texts_json(texts@));
    json::array(items)
}

/// The users of memberships, in their order.
pub open spec fn users_of(rows: Seq<conversation_member::Model>) -> Seq<Id> {
    rows.map_values(|row: conversation_member::Model| row.user_id)
}

/// Every user but one.
pub open spec fn is_other(user_id: Id) -> spec_fn(Id) -> bool {
    |id: Id| id != user_id
}

/// The users of memberships but for one user, in their order.
pub open spec fn others_of(rows: Seq<conversation_member::Model>, user_id: Id) -> Seq<Id> {
    users_of(rows).filter(is_other(user_id))
}

pub(crate) fn user_ids(rows: &Vec<conversation_member::Model>) -> (r: Vec<Id>)
    ensures
        r@ == users_of(rows@),
{
    let mut r: Vec<Id> = Vec::new();
    for i in 0..rows.len()
        invariant
            r@ == users_of(rows@).subrange(0, i as int),
    {
        r.push(rows[i].user_id);
    }
    r
}

pub(crate) fn other_ids(rows: &Vec<conversation_member::Model>, user_id: Id) -> (r: Vec<Id>)
    ensures
        r@ == others_of(rows@, user_id),
{
    let ghost users = users_of(rows@);
    let ghost other = is_other(user_id);
    let mut r: Vec<Id> = Vec::new();
    assert(users.take(0).filter(other) == r@) by {
        reveal(Seq::filter);
    }
    for i in 0..rows.len()
        invariant
            users == users_of(rows@),
            other == is_other(user_id),
            r@ == users.take(i as int).filter(other),
    {
        let id = rows[i].user_id;
        proof {
            assert(users.take(i + 1) == users.take(i as int).push(id));
            users.take(i as int).lemma_filter_push(id, other);
        }
        if id != user_id {
            r.push(id);
        }
    }
    assert(users.take(rows@.len() as int) == users);
    r
}

/// The document of a message.
pub open spec fn message_json(row: message::Model) -> Json {
    Json::Obj(
        map![
            "id"@ => id_json(row.id),
            "seq"@ => Json::Int(row.seq as int),
            "senderId"@ => optional_id_json(row.sender_id),
            "type"@ => Json::Str(row.kind@),
            "content"@ => json_of(row.content),
            "replyToId"@ => optional_id_json(row.reply_to_id),
            "status"@ => Json::Str(row.status.spec_text()),
            "createdAt"@ => row.created_at.json(),
        ],
    )
}

/// A message as it is shown.
#[derive(Clone, Debug)]
pub struct MessageDto {
    pub id: String,
    /// Its place in the conversation.
    pub seq: i64,
    /// Who sent it.
    pub sender_id: Option<String>,
    /// The message type.
    pub kind: String,
    pub content: Value,
    /// The message it replies to.
    pub reply_to_id: Option<String>,
    pub status: String,
    pub created_at: Timestamp,
}

impl View for MessageDto {
    type V = Json;

    open spec fn view(&self) -> Json {
        Json::Obj(
            map![
                "id"@ => Json::Str(self.id@),
                "seq"@ => Json::Int(self.seq as int),
                "senderId"@ => optional_text(text_of(self.sender_id)),
                "type"@ => Json::Str(self.kind@),
                "content"@ => json_of(self.content),
                "replyToId"@ => optional_text(text_of(self.reply_to_id)),
                "status"@ => Json::Str(self.status@),
                "createdAt"@ => self.created_at.json(),
            ],
        )
    }
}

fn optional_id_text(id: Option<Id>) -> (r: Option<String>)
    ensures
        optional_text(text_of(r)) == optional_id_json(id),
{
    match id {
        Some(id) => Some(format_id(id)),
        None => None,
    }
}

impl MessageDto {
    /// A message as it is shown.
    pub fn from(row: &message::Model) -> (r: MessageDto)
        ensures
            r@ == message_json(*row),
            r.created_at == row.created_at,
    {
        MessageDto {
            id: format_id(row.id),
            seq: row.seq,
            sender_id: optional_id_text(row.sender_id),
            kind: row.kind.clone(),
            content: row.content.clone(),
            reply_to_id: optional_id_text(row.reply_to_id),
            status: row.status.as_text().to_string(),
            created_at: row.created_at,
        }
    }

    /// The document of the message.
    pub fn to_json(&self) -> (r: Value)
        ensures
            json_of(r) == self@,
    {
        let mut members = json::new_map();
        json::put(&mut members, "id", json::string(self.id.as_str()));
        json::put(&mut members, "seq", json::integer(self.seq));
        json::put(&mut members, "senderId", optional_string_value(&self.sender_id));
        json::put(&mut members, "type", json::string(self.kind.as_str()));
        json::put(&mut members, "content", self.content.clone());
        json::put(&mut members, "replyToId", optional_string_value(&self.reply_to_id));
        json::put(&mut members, "status", json::string(self.status.as_str()));
        json::put(&mut members, "createdAt", self.created_at.to_json());
        json::object(members)
    }
}

/// The documents of messages, in their order.
pub open spec fn messages_json(rows: Seq<message::Model>) -> Seq<Json> {
    rows.map_values(|row: message::Model| message_json(row))
}

pub(crate) fn messages_value(rows: &Vec<message::Model>) -> (r: Value)
    ensures
        json_of(r) == Json::Arr(messages_json(rows@)),
{
    let mut items: Vec<Value> = Vec::new();
    for i in 0..rows.len()
        invariant
            json_all(items@) == messages_json(rows@).take(i as int),
    {
        let ghost before = items@;
        items.push(MessageDto::from(&rows[i]).to_json());
        assert(json_all(items@) == json_all(before).push(message_json(rows@[i as int])));
    }
    assert(messages_json(rows@).take(rows@.len() as int) == messages_json(rows@));
    json::array(items)
}

/// The document of a conversation, as one of its members sees it.
pub open spec fn conversation_json(
    row: ConversationWithMember,
    unread: int,
    members: Seq<Id>,
    last_message: Option<message::Model>,
) -> Json {
    Json::Obj(
        map![
            "id"@ => id_json(row.conversation.id),
            "type"@ => Json::Str(row.conversation.kind.spec_text()),
            "name"@ => optional_text(text_of(row.conversation.name)),
            "notice"@ => optional_text(text_of(row.conversation.notice)),
            "onlyAdminsSpeak"@ => Json::Bool(row.conversation.only_admins_speak),
            "unread"@ => Json::Int(unread),
            "muted"@ => Json::Bool(row.member.muted),
            "pinned"@ => Json::Bool(row.member.pinned),
            "memberIds"@ => Json::Arr(ids_json(members)),
            "lastMessage"@ => match last_message {
                Some(message) => message_json(message),
                None => Json::Null,
            },
            "updatedAt"@ => row.conversation.updated_at.json(),
        ],
    )
}

/// A conversation as one of its members sees it.
#[derive(Clone, Debug)]
pub struct ConversationDto {
    pub id: String,
    /// Direct or group.
    pub kind: String,
    pub name: Option<String>,
    pub notice: Option<String>,
    /// Whether only administrators, and members allowed to, may speak.
    pub only_admins_speak: bool,
    /// The number of unread messages.
    pub unread: i64,
    /// Whether the member silenced it.
    pub muted: bool,
    /// Whether the member pinned it.
    pub pinned: bool,
    pub member_ids: Vec<String>,
    pub last_message: Option<MessageDto>,
    pub updated_at: Timestamp,
}

impl View for ConversationDto {
    type V = Json;

    open spec fn view(&self) -> Json {
        Json::Obj(
            map![
                "id"@ => Json::Str(self.id@),
                "type"@ => Json::Str(self.kind@),
                "name"@ => optional_text(text_of(self.name)),
                "notice"@ => optional_text(text_of(self.notice)),
                "onlyAdminsSpeak"@ => Json::Bool(self.only_admins_speak),
                "unread"@ => Json::Int(self.unread as int),
                "muted"@ => Json::Bool(self.muted),
                "pinned"@ => Json::Bool(self.pinned),
                "memberIds"@ => Json::Arr(texts_json(self.member_ids@)),
                "lastMessage"@ => match self.last_message {
                    Some(message) => message@,
                    None => Json::Null,
                },
                "updatedAt"@ => self.updated_at.json(),
            ],
        )
    }
}

impl ConversationDto {
    /// A conversation as one of its members sees it.
    pub fn new(
        conversation: &conversation::Model,
        member: &conversation_member::Model,
        unread: i64,
        member_ids: &Vec<Id>,
        last_message: Option<&message::Model>,
    ) -> (r: ConversationDto)
        ensures
            r@ == conversation_json(
                ConversationWithMember { conversation: *conversation, member: *member },
                unread as int,
                member_ids@,
                match last_message {
                    Some(message) => Some(*message),
                    None => None,
                },
            ),
    {
        ConversationDto {
            id: format_id(conversation.id),
            kind: conversation.kind.as_text().to_string(),
            name: copy_text(&conversation.name),
            notice: copy_text(&conversation.notice),
            only_admins_speak: conversation.only_admins_speak,
            unread,
            muted: member.muted,
            pinned: member.pinned,
            member_ids: id_texts(member_ids),
            last_message: match last_message {
                Some(message) => Some(MessageDto::from(message)),
                None => None,
            },
            updated_at: conversation.updated_at,
        }
    }

    /// The document of the conversation.
    pub fn to_json(&self) -> (r: Value)
        ensures
            json_of(r) == self@,
    {
        let mut members = json::new_map();
        json::put(&mut members, "id", json::string(self.id.as_str()));
        json::put(&mut members, "type", json::string(self.kind.as_str()));
        json::put(&mut members, "name", optional_string_value(&self.name));
        json::put(&mut members, "notice", optional_string_value(&self.notice));
        json::put(&mut members, "onlyAdminsSpeak", json::boolean(self.only_admins_speak));
        json::put(&mut members, "unread", json::integer(self.unread));
        json::put(&mut members, "muted", json::boolean(self.muted));
        json::put(&mut members, "pinned", json::boolean(self.pinned));
        json::put(&mut members, "memberIds", texts_value(&self.member_ids));
        let last_message = match &self.last_message {
            Some(message) => message.to_json(),
            None => json::null(),
        };
        json::put(&mut members, "lastMessage", last_message);
        json::put(&mut members, "updatedAt", self.updated_at.to_json());
        json::object(members)
    }
}

/// The document of a member.
pub open spec fn member_json(row: conversation_member::Model) -> Json {
    Json::Obj(
        map![
            "userId"@ => id_json(row.user_id),
            "role"@ => Json::Str(row.role.spec_text()),
            "lastReadSeq"@ => Json::Int(row.last_read_seq as int),
            "mutedUntil"@ => optional_time_json(row.muted_until),
            "canSpeak"@ => Json::Bool(row.can_speak),
            "joinedAt"@ => row.joined_at.json(),
        ],
    )
}

fn member_value(row: &conversation_member::Model) -> (r: Value)
    ensures
        json_of(r) == member_json(*row),
{
    let mut members = json::new_map();
    json::put(&mut members, "userId", id_value(row.user_id));
    json::put(&mut members, "role", json::string(row.role.as_text()));
    json::put(&mut members, "lastReadSeq", json::integer(row.last_read_seq));
    json::put(&mut members, "mutedUntil", optional_time_value(row.muted_until));
    json::put(&mut members, "canSpeak", json::boolean(row.can_speak));
    json::put(&mut members, "joinedAt", row.joined_at.to_json());
    json::object(members)
}

/// The documents of members, in their order.
pub open spec fn members_json(rows: Seq<conversation_member::Model>) -> Seq<Json> {
    rows.map_values(|row: conversation_member::Model| member_json(row))
}

pub(crate) fn members_value(rows: &Vec<conversation_member::Model>) -> (r: Value)
    ensures
        json_of(r) == Json::Arr(members_json(rows@)),
{
    let mut items: Vec<Value> = Vec::new();
    for i in 0..rows.len()
        invariant
            json_all(items@) == members_json(rows@).take(i as int),
    {
        let ghost before = items@;
        items.push(member_value(&rows[i]));
        assert(json_all(items@) == json_all(before).push(member_json(rows@[i as int])));
    }
    assert(members_json(rows@).take(rows@.len() as int) == members_json(rows@));
    json::array(items)
}

} // verus!
