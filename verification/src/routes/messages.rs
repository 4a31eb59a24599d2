//! Messages: history, sending, reading, recalling and receipts.

use vstd::prelude::*;

use crate::clock::Timestamp;
use crate::entity::conversation::Kind;
use crate::entity::{conversation_member, message};
use crate::error::AppError;
use crate::flow::{Action, ActionOf, ActionSpec, Env, Event, Flow, Step};
use crate::ids::Id;
use crate::json::{self, Document, Json};
use crate::realtime::broadcast::{broadcast_message, broadcast_start, Broadcast};
use crate::realtime::protocol::{event_line, event_text};
use crate::repo::membership::{access_start, last_read_start, Access, UpdateLastRead};
use crate::repo::{
    self, get_conversation_for_member, messages_in_order, ConversationWithMember, NewMessage,
};
use crate::routes::dto::{
    id_json, id_value, message_json, messages_json, messages_value, user_ids, users_of, MessageDto,
};
use crate::routes::{
    created_or_ok, ok, MessageQuery, ReadRequest, Reply, ReplyOf, ReplySpec, SendMessageRequest,
};
use crate::service::{
    apply_read, create_message, create_message_start, read_receipts, recall_start, receipts_start,
    CreateMessage, ReadReceipts, RecallMessage,
};

verus! {

/// How many messages are shown where the request does not say.
pub const DEFAULT_PAGE: u64 = 50;

/// How many messages are shown at most.
pub const MAX_PAGE: u64 = 200;

/// How many messages a request is shown: at least one, at most the maximum.
pub open spec fn page_size(limit: Option<u64>) -> u64 {
    let wanted = match limit {
        Some(limit) => limit,
        None => DEFAULT_PAGE,
    };
    if wanted < 1 {
        1
    } else if wanted > MAX_PAGE {
        MAX_PAGE
    } else {
        wanted
    }
}

/// How many messages a request is shown.
pub fn page_limit(limit: Option<u64>) -> (r: u64)
    ensures
        r == page_size(limit),
{
    let wanted: u64 = match limit {
        Some(limit) => limit,
        None => DEFAULT_PAGE,
    };
    if wanted < 1 {
        1
    } else if wanted > MAX_PAGE {
        MAX_PAGE
    } else {
        wanted
    }
}

/// Shows a part of the history of a conversation.
#[derive(Debug)]
pub enum ListMessages {
    /// Looking the conversation up.
    Access { conversation_id: Id, query: MessageQuery, access: Access },
    /// Waiting for the messages.
    Messages,
}

impl View for ListMessages {
    type V = ListMessages;

    open spec fn view(&self) -> ListMessages {
        *self
    }
}

impl ListMessages {
    /// The step that goes on with looking the conversation up.
    pub open spec fn accessing(
        conversation_id: Id,
        query: MessageQuery,
        step: Step<Access, ActionSpec, ConversationWithMember>,
    ) -> Step<ListMessages, ActionSpec, ReplySpec> {
        match step {
            Step::Ask(access, action) => Step::Ask(
                ListMessages::Access { conversation_id, query, access },
                action,
            ),
            Step::Done(Err(e)) => Step::Done(Err(e)),
            Step::Done(Ok(_)) => Step::Ask(
                ListMessages::Messages,
                ActionOf::MessagesBefore {
                    conversation_id,
                    before_seq: query.before_seq,
                    limit: page_size(query.limit),
                },
            ),
        }
    }

    fn on_access(
        conversation_id: Id,
        query: MessageQuery,
        step: Step<Access, Action, ConversationWithMember>,
    ) -> (r: Step<ListMessages, Action, Reply>)
        ensures
            r@ == ListMessages::accessing(conversation_id, query, step@),
    {
        match step {
            Step::Ask(access, action) => Step::Ask(
                ListMessages::Access { conversation_id, query, access },
                action,
            ),
            Step::Done(Err(e)) => Step::Done(Err(e)),
            Step::Done(Ok(_)) => Step::Ask(
                ListMessages::Messages,
                repo::list_messages(conversation_id, query.before_seq, page_limit(query.limit)),
            ),
        }
    }
}

/// First step of showing a part of the history.
pub open spec fn list_messages_start(user_id: Id, conversation_id: Id, query: MessageQuery) -> Step<
    ListMessages,
    ActionSpec,
    ReplySpec,
> {
    ListMessages::accessing(conversation_id, query, access_start(conversation_id, user_id))
}

/// Starts to show a part of the history of a conversation to one of its members, the oldest
/// message first.
pub fn list_messages(user_id: Id, conversation_id: Id, query: MessageQuery) -> (r: Step<
    ListMessages,
    Action,
    Reply,
>)
    ensures
        r@ == list_messages_start(user_id, conversation_id, query),
{
    ListMessages::on_access(
        conversation_id,
        query,
        get_conversation_for_member(conversation_id, user_id),
    )
}

impl Flow for ListMessages {
    type Output = Reply;

    open spec fn step(state: ListMessages, env: Env, event: Event) -> Step<
        ListMessages,
        ActionSpec,
        ReplySpec,
    > {
        match state {
            ListMessages::Access { conversation_id, query, access } => ListMessages::accessing(
                conversation_id,
                query,
                Access::step(access, env, event),
            ),
            ListMessages::Messages => match event.spec_messages() {
                Err(e) => Step::Done(Err(e)),
                Ok(rows) => Step::Done(Ok(ok(Json::Arr(messages_json(rows@.reverse()))))),
            },
        }
    }

    fn next(self, env: Env, event: Event) -> (r: Step<ListMessages, Action, Reply>)
        ensures
            r@ == ListMessages::step(self@, env, event),
    {
        match self {
            ListMessages::Access { conversation_id, query, access } => ListMessages::on_access(
                conversation_id,
                query,
                access.next(env, event),
            ),
            ListMessages::Messages => match messages_in_order(event) {
                Err(e) => Step::Done(Err(e)),
                Ok(rows) => Step::Done(
                    Ok(ReplyOf { status: 200, body: Some(messages_value(&rows)) }),
                ),
            },
        }
    }
}

/// The verdict on speaking in a conversation: in a group, muted members may not, and where only
/// administrators speak, others need leave.
pub open spec fn speech_verdict(found: ConversationWithMember, now: Timestamp) -> Result<
    (),
    AppError,
> {
    if !(found.conversation.kind is Group) {
        Ok(())
    } else if found.member.muted_until is Some && found.member.muted_until->0.total()
        > now.total() {
        Err(AppError::Muted)
    } else if found.conversation.only_admins_speak && !found.member.role.spec_manages()
        && !found.member.can_speak {
        Err(AppError::ReadonlyGroup)
    } else {
        Ok(())
    }
}

/// The verdict on speaking in a conversation.
pub fn check_speech(found: &ConversationWithMember, now: Timestamp) -> (r: Result<(), AppError>)
    ensures
        r == speech_verdict(*found, now),
{
    match &found.conversation.kind {
        Kind::Group => {},
        _ => {
            return Ok(());
        },
    }
    if let Some(until) = found.member.muted_until {
        if until.after(now) {
            return Err(AppError::Muted);
        }
    }
    if found.conversation.only_admins_speak && !found.member.role.manages()
        && !found.member.can_speak {
        return Err(AppError::ReadonlyGroup);
    }
    Ok(())
}

/// Sends a message and tells the members.
#[derive(Debug)]
pub enum SendMessage {
    /// Looking the conversation up.
    Access { new: NewMessage, access: Access },
    /// Sending the message.
    Create { conversation_id: Id, create: CreateMessage },
    /// Telling the members.
    Broadcast { broadcast: Broadcast },
}

impl View for SendMessage {
    type V = SendMessage;

    open spec fn view(&self) -> SendMessage {
        *self
    }
}

impl SendMessage {
    /// The step that goes on with looking the conversation up.
    pub open spec fn accessing(
        new: NewMessage,
        env: Env,
        step: Step<Access, ActionSpec, ConversationWithMember>,
    ) -> Step<SendMessage, ActionSpec, ReplySpec> {
        match step {
            Step::Ask(access, action) => Step::Ask(SendMessage::Access { new, access }, action),
            Step::Done(Err(e)) => Step::Done(Err(e)),
            Step::Done(Ok(found)) => match speech_verdict(found, env.now) {
                Err(e) => Step::Done(Err(e)),
                Ok(_) => SendMessage::creating(
                    new.conversation_id,
                    create_message_start(new, env),
                ),
            },
        }
    }

    fn on_access(
        new: NewMessage,
        env: Env,
        step: Step<Access, Action, ConversationWithMember>,
    ) -> (r: Step<SendMessage, Action, Reply>)
        ensures
            r@ == SendMessage::accessing(new, env, step@),
    {
        match step {
            Step::Ask(access, action) => Step::Ask(SendMessage::Access { new, access }, action),
            Step::Done(Err(e)) => Step::Done(Err(e)),
            Step::Done(Ok(found)) => match check_speech(&found, env.now) {
                Err(e) => Step::Done(Err(e)),
                Ok(_) => {
                    let conversation_id = new.conversation_id;
                    SendMessage::on_create(conversation_id, create_message(new, env))
                },
            },
        }
    }

    /// The step that goes on with sending: the members are told of a new message, and not of one
    /// that was there before.
    pub open spec fn creating(
        conversation_id: Id,
        step: Step<CreateMessage, ActionSpec, (message::Model, bool)>,
    ) -> Step<SendMessage, ActionSpec, ReplySpec> {
        match step {
            Step::Ask(create, action) => Step::Ask(
                SendMessage::Create { conversation_id, create },
                action,
            ),
            Step::Done(Err(e)) => Step::Done(Err(e)),
            Step::Done(Ok((row, created))) => if created {
                SendMessage::telling(broadcast_start(conversation_id, row))
            } else {
                Step::Done(Ok(created_or_ok(false, message_json(row))))
            },
        }
    }

    fn on_create(
        conversation_id: Id,
        step: Step<CreateMessage, Action, (message::Model, bool)>,
    ) -> (r: Step<SendMessage, Action, Reply>)
        ensures
            r@ == SendMessage::creating(conversation_id, step@),
    {
        match step {
            Step::Ask(create, action) => Step::Ask(
                SendMessage::Create { conversation_id, create },
                action,
            ),
            Step::Done(Err(e)) => Step::Done(Err(e)),
            Step::Done(Ok((row, created))) => {
                if created {
                    SendMessage::on_told(broadcast_message(conversation_id, row))
                } else {
                    let body = MessageDto::from(&row).to_json();
                    Step::Done(Ok(ReplyOf { status: 200, body: Some(body) }))
                }
            },
        }
    }

    /// The step that goes on with telling the members.
    pub open spec fn telling(step: Step<Broadcast, ActionSpec, message::Model>) -> Step<
        SendMessage,
        ActionSpec,
        ReplySpec,
    > {
        match step {
            Step::Ask(broadcast, action) => Step::Ask(SendMessage::Broadcast { broadcast }, action),
            Step::Done(Err(e)) => Step::Done(Err(e)),
            Step::Done(Ok(row)) => Step::Done(Ok(created_or_ok(true, message_json(row)))),
        }
    }

    fn on_told(step: Step<Broadcast, Action, message::Model>) -> (r: Step<
        SendMessage,
        Action,
        Reply,
    >)
        ensures
            r@ == SendMessage::telling(step@),
    {
        match step {
            Step::Ask(broadcast, action) => Step::Ask(SendMessage::Broadcast { broadcast }, action),
            Step::Done(Err(e)) => Step::Done(Err(e)),
            Step::Done(Ok(row)) => {
                let body = MessageDto::from(&row).to_json();
                Step::Done(Ok(ReplyOf { status: 201, body: Some(body) }))
            },
        }
    }
}

/// The message that a request wants to send.
pub open spec fn requested_message(
    user_id: Id,
    conversation_id: Id,
    input: SendMessageRequest,
) -> NewMessage {
    NewMessage {
        conversation_id,
        sender_id: user_id,
        kind: input.kind,
        content: input.content,
        reply_to_id: input.reply_to_id,
        client_msg_id: input.client_msg_id,
    }
}

/// First step of sending a message.
pub open spec fn send_message_start(
    user_id: Id,
    conversation_id: Id,
    input: SendMessageRequest,
    env: Env,
) -> Step<SendMessage, ActionSpec, ReplySpec> {
    SendMessage::accessing(
        requested_message(user_id, conversation_id, input),
        env,
        access_start(conversation_id, user_id),
    )
}

/// Starts to send a message, for a member who may speak, and to tell the members.
pub fn send_message(user_id: Id, conversation_id: Id, input: SendMessageRequest, env: Env) -> (r:
    Step<SendMessage, Action, Reply>)
    ensures
        r@ == send_message_start(user_id, conversation_id, input, env),
{
    let new = NewMessage {
        conversation_id,
        sender_id: user_id,
        kind: input.kind,
        content: input.content,
        reply_to_id: input.reply_to_id,
        client_msg_id: input.client_msg_id,
    };
    SendMessage::on_access(new, env, get_conversation_for_member(conversation_id, user_id))
}

impl Flow for SendMessage {
    type Output = Reply;

    open spec fn step(state: SendMessage, env: Env, event: Event) -> Step<
        SendMessage,
        ActionSpec,
        ReplySpec,
    > {
        match state {
            SendMessage::Access { new, access } => SendMessage::accessing(
                new,
                env,
                Access::step(access, env, event),
            ),
            SendMessage::Create { conversation_id, create } => SendMessage::creating(
                conversation_id,
                CreateMessage::step(create, env, event),
            ),
            SendMessage::Broadcast { broadcast } => SendMessage::telling(
                Broadcast::step(broadcast, env, event),
            ),
        }
    }

    fn next(self, env: Env, event: Event) -> (r: Step<SendMessage, Action, Reply>)
        ensures
            r@ == SendMessage::step(self@, env, event),
    {
        match self {
            SendMessage::Access { new, access } => SendMessage::on_access(
                new,
                env,
                access.next(env, event),
            ),
            SendMessage::Create { conversation_id, create } => SendMessage::on_create(
                conversation_id,
                create.next(env, event),
            ),
            SendMessage::Broadcast { broadcast } => SendMessage::on_told(
                broadcast.next(env, event),
            ),
        }
    }
}

/// Moves a read mark.
#[derive(Debug)]
pub struct MarkRead {
    /// Moving it.
    pub update: UpdateLastRead,
}

impl View for MarkRead {
    type V = MarkRead;

    open spec fn view(&self) -> MarkRead {
        *self
    }
}

impl MarkRead {
    /// The step that goes on with moving the read mark.
    pub open spec fn updating(
        step: Step<UpdateLastRead, ActionSpec, conversation_member::Model>,
    ) -> Step<MarkRead, ActionSpec, ReplySpec> {
        match step {
            Step::Ask(update, action) => Step::Ask(MarkRead { update }, action),
            Step::Done(Err(e)) => Step::Done(Err(e)),
            Step::Done(Ok(member)) => Step::Done(
                Ok(
                    ok(
                        Json::Obj(
                            map!["lastReadSeq"@ => Json::Int(member.last_read_seq as int)],
                        ),
                    ),
                ),
            ),
        }
    }

    fn on_update(step: Step<UpdateLastRead, Action, conversation_member::Model>) -> (r: Step<
        MarkRead,
        Action,
        Reply,
    >)
        ensures
            r@ == MarkRead::updating(step@),
    {
        match step {
            Step::Ask(update, action) => Step::Ask(MarkRead { update }, action),
            Step::Done(Err(e)) => Step::Done(Err(e)),
            Step::Done(Ok(member)) => {
                let mut body = json::new_map();
                json::put(&mut body, "lastReadSeq", json::integer(member.last_read_seq));
                Step::Done(Ok(ReplyOf { status: 200, body: Some(json::object(body)) }))
            },
        }
    }
}

/// First step of moving a read mark.
pub open spec fn mark_read_start(user_id: Id, conversation_id: Id, input: ReadRequest) -> Step<
    MarkRead,
    ActionSpec,
    ReplySpec,
> {
    MarkRead::updating(last_read_start(conversation_id, user_id, input.seq))
}

/// Starts to move the read mark of a member.
pub fn mark_read(user_id: Id, conversation_id: Id, input: ReadRequest) -> (r: Step<
    MarkRead,
    Action,
    Reply,
>)
    ensures
        r@ == mark_read_start(user_id, conversation_id, input),
{
    MarkRead::on_update(apply_read(user_id, conversation_id, input.seq))
}

impl Flow for MarkRead {
    type Output = Reply;

    open spec fn step(state: MarkRead, env: Env, event: Event) -> Step<
        MarkRead,
        ActionSpec,
        ReplySpec,
    > {
        MarkRead::updating(UpdateLastRead::step(state.update, env, event))
    }

    fn next(self, env: Env, event: Event) -> (r: Step<MarkRead, Action, Reply>)
        ensures
            r@ == MarkRead::step(self@, env, event),
    {
        MarkRead::on_update(self.update.next(env, event))
    }
}

/// Recalls a message and tells the members.
#[derive(Debug)]
pub enum Recall {
    /// Recalling it.
    Recall { conversation_id: Id, message_id: Id, recall: RecallMessage },
    /// Waiting for the members.
    Members { conversation_id: Id, message_id: Id, row: message::Model },
    /// Waiting for the members to be told.
    Pushed { row: message::Model },
}

impl View for Recall {
    type V = Recall;

    open spec fn view(&self) -> Recall {
        *self
    }
}

/// What the members are told of a recalled message.
pub open spec fn recalled_text(conversation_id: Id, message_id: Id) -> Seq<char> {
    event_text(
        "message_recalled"@,
        Json::Obj(
            map![
                "conversationId"@ => id_json(conversation_id),
                "messageId"@ => id_json(message_id),
            ],
        ),
    )
}

impl Recall {
    /// The step that goes on with recalling the message.
    pub open spec fn recalling(
        conversation_id: Id,
        message_id: Id,
        step: Step<RecallMessage, ActionSpec, message::Model>,
    ) -> Step<Recall, ActionSpec, ReplySpec> {
        match step {
            Step::Ask(recall, action) => Step::Ask(
                Recall::Recall { conversation_id, message_id, recall },
                action,
            ),
            Step::Done(Err(e)) => Step::Done(Err(e)),
            Step::Done(Ok(row)) => Step::Ask(
                Recall::Members { conversation_id, message_id, row },
                ActionOf::MembersOf { conversation_id },
            ),
        }
    }

    fn on_recall(
        conversation_id: Id,
        message_id: Id,
        step: Step<RecallMessage, Action, message::Model>,
    ) -> (r: Step<Recall, Action, Reply>)
        ensures
            r@ == Recall::recalling(conversation_id, message_id, step@),
    {
        match step {
            Step::Ask(recall, action) => Step::Ask(
                Recall::Recall { conversation_id, message_id, recall },
                action,
            ),
            Step::Done(Err(e)) => Step::Done(Err(e)),
            Step::Done(Ok(row)) => Step::Ask(
                Recall::Members { conversation_id, message_id, row },
                repo::list_members(conversation_id),
            ),
        }
    }
}

/// First step of recalling a message and telling the members.
pub open spec fn recall_message_start(user_id: Id, conversation_id: Id, message_id: Id) -> Step<
    Recall,
    ActionSpec,
    ReplySpec,
> {
    Recall::recalling(
        conversation_id,
        message_id,
        recall_start(user_id, conversation_id, message_id),
    )
}

/// Starts to recall a message, for its sender, and to tell the members.
pub fn recall_message(user_id: Id, conversation_id: Id, message_id: Id) -> (r: Step<
    Recall,
    Action,
    Reply,
>)
    ensures
        r@ == recall_message_start(user_id, conversation_id, message_id),
{
    Recall::on_recall(
        conversation_id,
        message_id,
        crate::service::recall_message(user_id, conversation_id, message_id),
    )
}

impl Flow for Recall {
    type Output = Reply;

    open spec fn step(state: Recall, env: Env, event: Event) -> Step<
        Recall,
        ActionSpec,
        ReplySpec,
    > {
        match state {
            Recall::Recall { conversation_id, message_id, recall } => Recall::recalling(
                conversation_id,
                message_id,
                RecallMessage::step(recall, env, event),
            ),
            Recall::Members { conversation_id, message_id, row } => match event.spec_members() {
                Err(e) => Step::Done(Err(e)),
                Ok(members) => Step::Ask(
                    Recall::Pushed { row },
                    ActionOf::Push {
                        user_ids: users_of(members@),
                        text: recalled_text(conversation_id, message_id),
                    },
                ),
            },
            Recall::Pushed { row } => Step::Done(Ok(ok(message_json(row)))),
        }
    }

    fn next(self, env: Env, event: Event) -> (r: Step<Recall, Action, Reply>)
        ensures
            r@ == Recall::step(self@, env, event),
    {
        match self {
            Recall::Recall { conversation_id, message_id, recall } => Recall::on_recall(
                conversation_id,
                message_id,
                recall.next(env, event),
            ),
            Recall::Members { conversation_id, message_id, row } => match event.members() {
                Err(e) => Step::Done(Err(e)),
                Ok(members) => {
                    let mut payload = json::new_map();
                    json::put(&mut payload, "conversationId", id_value(conversation_id));
                    json::put(&mut payload, "messageId", id_value(message_id));
                    let text = event_line("message_recalled", json::object(payload));
                    Step::Ask(
                        Recall::Pushed { row },
                        ActionOf::Push { user_ids: user_ids(&members), text },
                    )
                },
            },
            Recall::Pushed { row } => {
                let body = MessageDto::from(&row).to_json();
                Step::Done(Ok(ReplyOf { status: 200, body: Some(body) }))
            },
        }
    }
}

/// Shows who has read a message.
#[derive(Debug)]
pub struct MessageReceipts {
    /// Finding out.
    pub receipts: ReadReceipts,
}

impl View for MessageReceipts {
    type V = MessageReceipts;

    open spec fn view(&self) -> MessageReceipts {
        *self
    }
}

impl MessageReceipts {
    /// The step that goes on with finding out.
    pub open spec fn reading(step: Step<ReadReceipts, ActionSpec, Json>) -> Step<
        MessageReceipts,
        ActionSpec,
        ReplySpec,
    > {
        match step {
            Step::Ask(receipts, action) => Step::Ask(MessageReceipts { receipts }, action),
            Step::Done(Err(e)) => Step::Done(Err(e)),
            Step::Done(Ok(body)) => Step::Done(Ok(ok(body))),
        }
    }

    fn on_read(step: Step<ReadReceipts, Action, Document>) -> (r: Step<
        MessageReceipts,
        Action,
        Reply,
    >)
        ensures
            r@ == MessageReceipts::reading(step@),
    {
        match step {
            Step::Ask(receipts, action) => Step::Ask(MessageReceipts { receipts }, action),
            Step::Done(Err(e)) => Step::Done(Err(e)),
            Step::Done(Ok(document)) => Step::Done(
                Ok(ReplyOf { status: 200, body: Some(document.0) }),
            ),
        }
    }
}

/// First step of showing who has read a message.
pub open spec fn message_receipts_start(user_id: Id, conversation_id: Id, message_id: Id) -> Step<
    MessageReceipts,
    ActionSpec,
    ReplySpec,
> {
    MessageReceipts::reading(receipts_start(user_id, conversation_id, message_id))
}

/// Starts to show a member which of the others have read a message.
pub fn message_receipts(user_id: Id, conversation_id: Id, message_id: Id) -> (r: Step<
    MessageReceipts,
    Action,
    Reply,
>)
    ensures
        r@ == message_receipts_start(user_id, conversation_id, message_id),
{
    MessageReceipts::on_read(read_receipts(user_id, conversation_id, message_id))
}

impl Flow for MessageReceipts {
    type Output = Reply;

    open spec fn step(state: MessageReceipts, env: Env, event: Event) -> Step<
        MessageReceipts,
        ActionSpec,
        ReplySpec,
    > {
        MessageReceipts::reading(ReadReceipts::step(state.receipts, env, event))
    }

    fn next(self, env: Env, event: Event) -> (r: Step<MessageReceipts, Action, Reply>)
        ensures
            r@ == MessageReceipts::step(self@, env, event),
    {
        MessageReceipts::on_read(self.receipts.next(env, event))
    }
}

} // verus!
