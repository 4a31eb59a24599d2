//! Sending, reading and recalling messages, for every channel that requests come in by.

use serde_json::Value;
use vstd::prelude::*;

use crate::clock::Timestamp;
use crate::domain::{preview, preview_of, validate_message, verdict_on};
use crate::entity::conversation::{self, Kind};
use crate::entity::conversation_member;
use crate::entity::message::{self, Status};
use crate::error::AppError;
use crate::flow::{Action, ActionOf, ActionSpec, Env, Event, Flow, Step};
use crate::ids::{format_id, id_text, Id};
use crate::json::{self, json_all, json_of, Document, Json};
use crate::repo::membership::{access_start, last_read_start, Access, UpdateLastRead};
use crate::repo::sending::{sending_start, InsertMessage};
use crate::repo::{
    find_message, get_conversation_for_member, insert_message, list_members, mark_recalled,
    message_as_written, update_last_read, written_message, ConversationWithMember, NewMessage,
};
use crate::routes::dto::{id_json, id_value, ids_json, ids_value, other_ids, others_of};

verus! {

/// For how many seconds after sending a message its sender may recall it.
pub const RECALL_WINDOW_SECONDS: i64 = 120;

/// The topic that new messages are announced under.
pub const MESSAGE_CREATED: &'static str = "im.message.created";

/// The headline of an announcement.
pub open spec fn title_of(conversation: conversation::Model) -> Seq<char> {
    if conversation.kind is Group {
        match conversation.name {
            Some(name) => name@,
            None => "群聊"@,
        }
    } else {
        "新消息"@
    }
}

/// What is announced of a new message: it is meant for the other members of the conversation.
pub open spec fn announcement(
    conversation: conversation::Model,
    conversation_id: Id,
    sender_id: Id,
    row: message::Model,
    members: Seq<conversation_member::Model>,
) -> Json {
    Json::Obj(
        map![
            "id"@ => id_json(row.id),
            "type"@ => Json::Str(MESSAGE_CREATED@),
            "actorId"@ => id_json(sender_id),
            "targetUsers"@ => Json::Arr(ids_json(others_of(members, sender_id))),
            "resource"@ => Json::Obj(
                map![
                    "type"@ => Json::Str("im"@),
                    "id"@ => id_json(conversation_id),
                    "url"@ => Json::Str("/im/"@ + id_text(conversation_id)),
                ],
            ),
            "title"@ => Json::Str(title_of(conversation)),
            "body"@ => Json::Str(preview(row.kind@, json_of(row.content))),
            "priority"@ => Json::Str("high"@),
        ],
    )
}

fn announcement_value(
    conversation: &conversation::Model,
    conversation_id: Id,
    sender_id: Id,
    row: &message::Model,
    members: &Vec<conversation_member::Model>,
) -> (r: Value)
    ensures
        json_of(r) == announcement(*conversation, conversation_id, sender_id, *row, members@),
{
    let title = match &conversation.kind {
        Kind::Group => match &conversation.name {
            Some(name) => name.as_str(),
            None => "群聊",
        },
        _ => "新消息",
    };
    let url = "/im/".to_string().concat(format_id(conversation_id).as_str());
    let mut resource = json::new_map();
    json::put(&mut resource, "type", json::string("im"));
    json::put(&mut resource, "id", id_value(conversation_id));
    json::put(&mut resource, "url", json::string(url.as_str()));
    let mut payload = json::new_map();
    json::put(&mut payload, "id", id_value(row.id));
    json::put(&mut payload, "type", json::string(MESSAGE_CREATED));
    json::put(&mut payload, "actorId", id_value(sender_id));
    json::put(&mut payload, "targetUsers", ids_value(&other_ids(members, sender_id)));
    json::put(&mut payload, "resource", json::object(resource));
    json::put(&mut payload, "title", json::string(title));
    let body = preview_of(row.kind.as_str(), &row.content);
    json::put(&mut payload, "body", json::string(body.as_str()));
    json::put(&mut payload, "priority", json::string("high"));
    json::object(payload)
}

/// Sends a message.
#[derive(Debug)]
pub enum CreateMessage {
    /// Looking the conversation up.
    Access { new: NewMessage, access: Access },
    /// Waiting for the message replied to.
    Reply { new: NewMessage, conversation: conversation::Model },
    /// Storing the message.
    Insert {
        conversation: conversation::Model,
        conversation_id: Id,
        sender_id: Id,
        now: Timestamp,
        insert: InsertMessage,
    },
    /// Waiting for the members that the announcement is for.
    Members {
        conversation: conversation::Model,
        conversation_id: Id,
        sender_id: Id,
        now: Timestamp,
        row: message::Model,
    },
    /// Waiting for the announcement.
    Announced { row: message::Model },
}

impl View for CreateMessage {
    type V = CreateMessage;

    open spec fn view(&self) -> CreateMessage {
        *self
    }
}

impl CreateMessage {
    /// The step that goes on with looking the conversation up.
    pub open spec fn accessing(
        new: NewMessage,
        env: Env,
        step: Step<Access, ActionSpec, ConversationWithMember>,
    ) -> Step<CreateMessage, ActionSpec, (message::Model, bool)> {
        match step {
            Step::Ask(access, action) => Step::Ask(CreateMessage::Access { new, access }, action),
            Step::Done(Err(e)) => Step::Done(Err(e)),
            Step::Done(Ok(found)) => match new.reply_to_id {
                Some(message_id) => Step::Ask(
                    CreateMessage::Reply { new, conversation: found.conversation },
                    ActionOf::FindMessage { conversation_id: new.conversation_id, message_id },
                ),
                None => CreateMessage::store(new, found.conversation, env),
            },
        }
    }

    fn on_access(
        new: NewMessage,
        env: Env,
        step: Step<Access, Action, ConversationWithMember>,
    ) -> (r: Step<CreateMessage, Action, (message::Model, bool)>)
        ensures
            r@ == CreateMessage::accessing(new, env, step@),
    {
        match step {
            Step::Ask(access, action) => Step::Ask(CreateMessage::Access { new, access }, action),
            Step::Done(Err(e)) => Step::Done(Err(e)),
            Step::Done(Ok(found)) => match new.reply_to_id {
                Some(message_id) => {
                    let action = find_message(new.conversation_id, message_id);
                    Step::Ask(
                        CreateMessage::Reply { new, conversation: found.conversation },
                        action,
                    )
                },
                None => CreateMessage::start_store(new, found.conversation, env),
            },
        }
    }

    /// The step that starts to store the message.
    pub open spec fn store(new: NewMessage, conversation: conversation::Model, env: Env) -> Step<
        CreateMessage,
        ActionSpec,
        (message::Model, bool),
    > {
        CreateMessage::storing(
            conversation,
            new.conversation_id,
            new.sender_id,
            env.now,
            env.bus,
            sending_start(new, env.now),
        )
    }

    fn start_store(new: NewMessage, conversation: conversation::Model, env: Env) -> (r: Step<
        CreateMessage,
        Action,
        (message::Model, bool),
    >)
        ensures
            r@ == CreateMessage::store(new, conversation, env),
    {
        let conversation_id = new.conversation_id;
        let sender_id = new.sender_id;
        CreateMessage::on_store(
            conversation,
            conversation_id,
            sender_id,
            env.now,
            env.bus,
            insert_message(new, env.now),
        )
    }

    /// The step that goes on with storing the message: a new one is announced where there is a
    /// bus.
    pub open spec fn storing(
        conversation: conversation::Model,
        conversation_id: Id,
        sender_id: Id,
        now: Timestamp,
        bus: bool,
        step: Step<InsertMessage, ActionSpec, (message::Model, bool)>,
    ) -> Step<CreateMessage, ActionSpec, (message::Model, bool)> {
        match step {
            Step::Ask(insert, action) => Step::Ask(
                CreateMessage::Insert { conversation, conversation_id, sender_id, now, insert },
                action,
            ),
            Step::Done(Err(e)) => Step::Done(Err(e)),
            Step::Done(Ok((row, created))) => if created && bus {
                Step::Ask(
                    CreateMessage::Members { conversation, conversation_id, sender_id, now, row },
                    ActionOf::MembersOf { conversation_id },
                )
            } else {
                Step::Done(Ok((row, created)))
            },
        }
    }

    fn on_store(
        conversation: conversation::Model,
        conversation_id: Id,
        sender_id: Id,
        now: Timestamp,
        bus: bool,
        step: Step<InsertMessage, Action, (message::Model, bool)>,
    ) -> (r: Step<CreateMessage, Action, (message::Model, bool)>)
        ensures
            r@ == CreateMessage::storing(
                conversation,
                conversation_id,
                sender_id,
                now,
                bus,
                step@,
            ),
    {
        match step {
            Step::Ask(insert, action) => Step::Ask(
                CreateMessage::Insert { conversation, conversation_id, sender_id, now, insert },
                action,
            ),
            Step::Done(Err(e)) => Step::Done(Err(e)),
            Step::Done(Ok((row, created))) => {
                if created && bus {
                    Step::Ask(
                        CreateMessage::Members {
                            conversation,
                            conversation_id,
                            sender_id,
                            now,
                            row,
                        },
                        list_members(conversation_id),
                    )
                } else {
                    Step::Done(Ok((row, created)))
                }
            },
        }
    }
}

/// First step of sending a message.
pub open spec fn create_message_start(new: NewMessage, env: Env) -> Step<
    CreateMessage,
    ActionSpec,
    (message::Model, bool),
> {
    match verdict_on(new.kind@, json_of(new.content)) {
        Err(e) => Step::Done(Err(e)),
        Ok(_) => CreateMessage::accessing(
            new,
            env,
            access_start(new.conversation_id, new.sender_id),
        ),
    }
}

/// Starts to send a message. The result is the message, and whether it is a new one.
pub fn create_message(new: NewMessage, env: Env) -> (r: Step<
    CreateMessage,
    Action,
    (message::Model, bool),
>)
    ensures
        r@ == create_message_start(new, env),
{
    match validate_message(new.kind.as_str(), &new.content) {
        Err(e) => Step::Done(Err(e)),
        Ok(_) => {
            let first = get_conversation_for_member(new.conversation_id, new.sender_id);
            CreateMessage::on_access(new, env, first)
        },
    }
}

impl Flow for CreateMessage {
    type Output = (message::Model, bool);

    open spec fn step(state: CreateMessage, env: Env, event: Event) -> Step<
        CreateMessage,
        ActionSpec,
        (message::Model, bool),
    > {
        match state {
            CreateMessage::Access { new, access } => CreateMessage::accessing(
                new,
                env,
                Access::step(access, env, event),
            ),
            CreateMessage::Reply { new, conversation } => match event.spec_message() {
                Err(e) => Step::Done(Err(e)),
                Ok(None) => Step::Done(Err(AppError::ReplyNotFound)),
                Ok(Some(_)) => CreateMessage::store(new, conversation, env),
            },
            CreateMessage::Insert { conversation, conversation_id, sender_id, now, insert } =>
                CreateMessage::storing(
                conversation,
                conversation_id,
                sender_id,
                now,
                env.bus,
                InsertMessage::step(insert, env, event),
            ),
            CreateMessage::Members { conversation, conversation_id, sender_id, now, row } =>
                match event.spec_members() {
                Err(e) => Step::Done(Err(e)),
                Ok(members) => Step::Ask(
                    CreateMessage::Announced { row },
                    ActionOf::Announce {
                        topic: MESSAGE_CREATED@,
                        payload: announcement(
                            conversation,
                            conversation_id,
                            sender_id,
                            row,
                            members@,
                        ),
                        at: now,
                    },
                ),
            },
            CreateMessage::Announced { row } => Step::Done(Ok((row, true))),
        }
    }

    fn next(self, env: Env, event: Event) -> (r: Step<
        CreateMessage,
        Action,
        (message::Model, bool),
    >)
        ensures
            r@ == CreateMessage::step(self@, env, event),
    {
        match self {
            CreateMessage::Access { new, access } => CreateMessage::on_access(
                new,
                env,
                access.next(env, event),
            ),
            CreateMessage::Reply { new, conversation } => match event.message() {
                Err(e) => Step::Done(Err(e)),
                Ok(None) => Step::Done(Err(AppError::ReplyNotFound)),
                Ok(Some(_)) => CreateMessage::start_store(new, conversation, env),
            },
            CreateMessage::Insert { conversation, conversation_id, sender_id, now, insert } =>
                CreateMessage::on_store(
                conversation,
                conversation_id,
                sender_id,
                now,
                env.bus,
                insert.next(env, event),
            ),
            CreateMessage::Members { conversation, conversation_id, sender_id, now, row } =>
                match event.members() {
                Err(e) => Step::Done(Err(e)),
                Ok(members) => {
                    let payload = announcement_value(
                        &conversation,
                        conversation_id,
                        sender_id,
                        &row,
                        &members,
                    );
                    Step::Ask(
                        CreateMessage::Announced { row },
                        ActionOf::Announce {
                            topic: MESSAGE_CREATED.to_string(),
                            payload,
                            at: now,
                        },
                    )
                },
            },
            CreateMessage::Announced { row } => Step::Done(Ok((row, true))),
        }
    }
}

/// Starts to move the read mark of a user. The result is the membership.
pub fn apply_read(user_id: Id, conversation_id: Id, seq: i64) -> (r: Step<
    UpdateLastRead,
    Action,
    conversation_member::Model,
>)
    ensures
        r@ == last_read_start(conversation_id, user_id, seq),
{
    update_last_read(conversation_id, user_id, seq)
}

/// Whether a message may still be recalled: for the window after it was sent.
pub open spec fn recallable_at(row: message::Model, now: Timestamp) -> bool {
    now.total() - row.created_at.total() <= RECALL_WINDOW_SECONDS * 1_000_000_000
}

/// Recalls a message.
#[derive(Debug)]
pub enum RecallMessage {
    /// Looking the conversation up.
    Access { user_id: Id, conversation_id: Id, message_id: Id, access: Access },
    /// Waiting for the message.
    Lookup { user_id: Id },
    /// Waiting for the message as written.
    Written,
}

impl View for RecallMessage {
    type V = RecallMessage;

    open spec fn view(&self) -> RecallMessage {
        *self
    }
}

impl RecallMessage {
    /// The step that goes on with looking the conversation up.
    pub open spec fn accessing(
        user_id: Id,
        conversation_id: Id,
        message_id: Id,
        step: Step<Access, ActionSpec, ConversationWithMember>,
    ) -> Step<RecallMessage, ActionSpec, message::Model> {
        match step {
            Step::Ask(access, action) => Step::Ask(
                RecallMessage::Access { user_id, conversation_id, message_id, access },
                action,
            ),
            Step::Done(Err(e)) => Step::Done(Err(e)),
            Step::Done(Ok(_)) => Step::Ask(
                RecallMessage::Lookup { user_id },
                ActionOf::FindMessage { conversation_id, message_id },
            ),
        }
    }

    fn on_access(
        user_id: Id,
        conversation_id: Id,
        message_id: Id,
        step: Step<Access, Action, ConversationWithMember>,
    ) -> (r: Step<RecallMessage, Action, message::Model>)
        ensures
            r@ == RecallMessage::accessing(user_id, conversation_id, message_id, step@),
    {
        match step {
            Step::Ask(access, action) => Step::Ask(
                RecallMessage::Access { user_id, conversation_id, message_id, access },
                action,
            ),
            Step::Done(Err(e)) => Step::Done(Err(e)),
            Step::Done(Ok(_)) => Step::Ask(
                RecallMessage::Lookup { user_id },
                find_message(conversation_id, message_id),
            ),
        }
    }
}

/// First step of recalling a message.
pub open spec fn recall_start(user_id: Id, conversation_id: Id, message_id: Id) -> Step<
    RecallMessage,
    ActionSpec,
    message::Model,
> {
    RecallMessage::accessing(
        user_id,
        conversation_id,
        message_id,
        access_start(conversation_id, user_id),
    )
}

/// Starts to recall a message. Only its sender may, and only for a while; recalling it again
/// changes nothing.
pub fn recall_message(user_id: Id, conversation_id: Id, message_id: Id) -> (r: Step<
    RecallMessage,
    Action,
    message::Model,
>)
    ensures
        r@ == recall_start(user_id, conversation_id, message_id),
{
    RecallMessage::on_access(
        user_id,
        conversation_id,
        message_id,
        get_conversation_for_member(conversation_id, user_id),
    )
}

impl Flow for RecallMessage {
    type Output = message::Model;

    open spec fn step(state: RecallMessage, env: Env, event: Event) -> Step<
        RecallMessage,
        ActionSpec,
        message::Model,
    > {
        match state {
            RecallMessage::Access { user_id, conversation_id, message_id, access } =>
                RecallMessage::accessing(
                user_id,
                conversation_id,
                message_id,
                Access::step(access, env, event),
            ),
            RecallMessage::Lookup { user_id } => match event.spec_message() {
                Err(e) => Step::Done(Err(e)),
                Ok(None) => Step::Done(Err(AppError::MessageNotFound)),
                Ok(Some(row)) => if row.sender_id != Some(user_id) {
                    Step::Done(Err(AppError::NotSender))
                } else if row.status is Recalled {
                    Step::Done(Ok(row))
                } else if !recallable_at(row, env.now) {
                    Step::Done(Err(AppError::RecallExpired))
                } else {
                    Step::Ask(
                        RecallMessage::Written,
                        ActionOf::RecallMessage { message_id: row.id, at: env.now },
                    )
                },
            },
            RecallMessage::Written => Step::Done(written_message(event)),
        }
    }

    fn next(self, env: Env, event: Event) -> (r: Step<RecallMessage, Action, message::Model>)
        ensures
            r@ == RecallMessage::step(self@, env, event),
    {
        match self {
            RecallMessage::Access { user_id, conversation_id, message_id, access } =>
                RecallMessage::on_access(
                user_id,
                conversation_id,
                message_id,
                access.next(env, event),
            ),
            RecallMessage::Lookup { user_id } => match event.message() {
                Err(e) => Step::Done(Err(e)),
                Ok(None) => Step::Done(Err(AppError::MessageNotFound)),
                Ok(Some(row)) => {
                    let own = match row.sender_id {
                        Some(sender_id) => sender_id == user_id,
                        None => false,
                    };
                    if !own {
                        return Step::Done(Err(AppError::NotSender));
                    }
                    if let Status::Recalled = row.status {
                        return Step::Done(Ok(row));
                    }
                    if env.now.exceeds(row.created_at, RECALL_WINDOW_SECONDS) {
                        return Step::Done(Err(AppError::RecallExpired));
                    }
                    Step::Ask(RecallMessage::Written, mark_recalled(&row, env.now))
                },
            },
            RecallMessage::Written => Step::Done(message_as_written(event)),
        }
    }
}

/// Whether a member has read a message: the document of it.
pub open spec fn receipt_json(member: conversation_member::Model, seq: i64) -> Json {
    Json::Obj(
        map![
            "userId"@ => id_json(member.user_id),
            "read"@ => Json::Bool(member.last_read_seq >= seq),
            "lastReadSeq"@ => Json::Int(member.last_read_seq as int),
        ],
    )
}

/// The members but for one user.
pub open spec fn is_other_member(user_id: Id) -> spec_fn(conversation_member::Model) -> bool {
    |member: conversation_member::Model| member.user_id != user_id
}

/// Which of the other members have read a message.
pub open spec fn receipts_json(
    members: Seq<conversation_member::Model>,
    user_id: Id,
    seq: i64,
) -> Seq<Json> {
    members.filter(is_other_member(user_id)).map_values(
        |member: conversation_member::Model| receipt_json(member, seq),
    )
}

fn receipt_value(member: &conversation_member::Model, seq: i64) -> (r: Value)
    ensures
        json_of(r) == receipt_json(*member, seq),
{
    let mut receipt = json::new_map();
    json::put(&mut receipt, "userId", id_value(member.user_id));
    json::put(&mut receipt, "read", json::boolean(member.last_read_seq >= seq));
    json::put(&mut receipt, "lastReadSeq", json::integer(member.last_read_seq));
    json::object(receipt)
}

/// Which of the other members have read a message with a given sequence number.
pub fn receipts_of(members: &Vec<conversation_member::Model>, user_id: Id, seq: i64) -> (r: Value)
    ensures
        json_of(r) == Json::Arr(receipts_json(members@, user_id, seq)),
{
    let ghost other = is_other_member(user_id);
    let mut items: Vec<Value> = Vec::new();
    assert(members@.take(0).filter(other) == Seq::<conversation_member::Model>::empty()) by {
        reveal(Seq::filter);
    }
    assert(json_all(items@) == receipts_json(members@.take(0), user_id, seq));
    for i in 0..members.len()
        invariant
            other == is_other_member(user_id),
            json_all(items@) == receipts_json(members@.take(i as int), user_id, seq),
    {
        let ghost before = items@;
        proof {
            assert(members@.take(i + 1) == members@.take(i as int).push(members@[i as int]));
            members@.take(i as int).lemma_filter_push(members@[i as int], other);
        }
        if members[i].user_id != user_id {
            items.push(receipt_value(&members[i], seq));
            assert(json_all(items@) == json_all(before).push(
                receipt_json(members@[i as int], seq),
            ));
            assert(receipts_json(members@.take(i + 1), user_id, seq) == receipts_json(
                members@.take(i as int),
                user_id,
                seq,
            ).push(receipt_json(members@[i as int], seq)));
        }
    }
    assert(members@.take(members@.len() as int) == members@);
    json::array(items)
}

/// Tells who has read a message.
#[derive(Debug)]
pub enum ReadReceipts {
    /// Looking the conversation up.
    Access { user_id: Id, conversation_id: Id, message_id: Id, access: Access },
    /// Waiting for the message.
    Lookup { user_id: Id, conversation_id: Id },
    /// Waiting for the members.
    Members { user_id: Id, seq: i64 },
}

impl View for ReadReceipts {
    type V = ReadReceipts;

    open spec fn view(&self) -> ReadReceipts {
        *self
    }
}

impl ReadReceipts {
    /// The step that goes on with looking the conversation up.
    pub open spec fn accessing(
        user_id: Id,
        conversation_id: Id,
        message_id: Id,
        step: Step<Access, ActionSpec, ConversationWithMember>,
    ) -> Step<ReadReceipts, ActionSpec, Json> {
        match step {
            Step::Ask(access, action) => Step::Ask(
                ReadReceipts::Access { user_id, conversation_id, message_id, access },
                action,
            ),
            Step::Done(Err(e)) => Step::Done(Err(e)),
            Step::Done(Ok(_)) => Step::Ask(
                ReadReceipts::Lookup { user_id, conversation_id },
                ActionOf::FindMessage { conversation_id, message_id },
            ),
        }
    }

    fn on_access(
        user_id: Id,
        conversation_id: Id,
        message_id: Id,
        step: Step<Access, Action, ConversationWithMember>,
    ) -> (r: Step<ReadReceipts, Action, Document>)
        ensures
            r@ == ReadReceipts::accessing(user_id, conversation_id, message_id, step@),
    {
        match step {
            Step::Ask(access, action) => Step::Ask(
                ReadReceipts::Access { user_id, conversation_id, message_id, access },
                action,
            ),
            Step::Done(Err(e)) => Step::Done(Err(e)),
            Step::Done(Ok(_)) => Step::Ask(
                ReadReceipts::Lookup { user_id, conversation_id },
                find_message(conversation_id, message_id),
            ),
        }
    }
}

/// First step of telling who has read a message.
pub open spec fn receipts_start(user_id: Id, conversation_id: Id, message_id: Id) -> Step<
    ReadReceipts,
    ActionSpec,
    Json,
> {
    ReadReceipts::accessing(
        user_id,
        conversation_id,
        message_id,
        access_start(conversation_id, user_id),
    )
}

/// Starts to tell which of the other members have read a message.
pub fn read_receipts(user_id: Id, conversation_id: Id, message_id: Id) -> (r: Step<
    ReadReceipts,
    Action,
    Document,
>)
    ensures
        r@ == receipts_start(user_id, conversation_id, message_id),
{
    ReadReceipts::on_access(
        user_id,
        conversation_id,
        message_id,
        get_conversation_for_member(conversation_id, user_id),
    )
}

impl Flow for ReadReceipts {
    type Output = Document;

    open spec fn step(state: ReadReceipts, env: Env, event: Event) -> Step<
        ReadReceipts,
        ActionSpec,
        Json,
    > {
        match state {
            ReadReceipts::Access { user_id, conversation_id, message_id, access } =>
                ReadReceipts::accessing(
                user_id,
                conversation_id,
                message_id,
                Access::step(access, env, event),
            ),
            ReadReceipts::Lookup { user_id, conversation_id } => match event.spec_message() {
                Err(e) => Step::Done(Err(e)),
                Ok(None) => Step::Done(Err(AppError::MessageNotFound)),
                Ok(Some(row)) => Step::Ask(
                    ReadReceipts::Members { user_id, seq: row.seq },
                    ActionOf::MembersOf { conversation_id },
                ),
            },
            ReadReceipts::Members { user_id, seq } => match event.spec_members() {
                Err(e) => Step::Done(Err(e)),
                Ok(members) => Step::Done(Ok(Json::Arr(receipts_json(members@, user_id, seq)))),
            },
        }
    }

    fn next(self, env: Env, event: Event) -> (r: Step<ReadReceipts, Action, Document>)
        ensures
            r@ == ReadReceipts::step(self@, env, event),
    {
        match self {
            ReadReceipts::Access { user_id, conversation_id, message_id, access } =>
                ReadReceipts::on_access(
                user_id,
                conversation_id,
                message_id,
                access.next(env, event),
            ),
            ReadReceipts::Lookup { user_id, conversation_id } => match event.message() {
                Err(e) => Step::Done(Err(e)),
                Ok(None) => Step::Done(Err(AppError::MessageNotFound)),
                Ok(Some(row)) => Step::Ask(
                    ReadReceipts::Members { user_id, seq: row.seq },
                    list_members(conversation_id),
                ),
            },
            ReadReceipts::Members { user_id, seq } => match event.members() {
                Err(e) => Step::Done(Err(e)),
                Ok(members) => Step::Done(Ok(Document(receipts_of(&members, user_id, seq)))),
            },
        }
    }
}

} // verus!
