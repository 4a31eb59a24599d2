//! Storing messages.

use serde_json::Value;
use vstd::prelude::*;

use crate::clock::Timestamp;
use crate::entity::message::{self, Status};
use crate::flow::{Action, ActionOf, ActionSpec, Env, Event, Flow, Step};
use crate::ids::Id;
use crate::repo::{allocate_seq, allocated, allocated_seq, message_as_written, written_message};

verus! {

/// A message to be stored.
#[derive(Clone, Debug)]
pub struct NewMessage {
    /// The conversation.
    pub conversation_id: Id,
    /// Who sends it.
    pub sender_id: Id,
    /// The message type.
    pub kind: String,
    pub content: Value,
    /// The message it replies to.
    pub reply_to_id: Option<Id>,
    /// The sender's own identifier for the message.
    pub client_msg_id: Option<String>,
}

/// The row of a new message.
pub open spec fn new_message(new: NewMessage, id: Id, seq: i64, now: Timestamp) -> message::Model {
    message::Model {
        id,
        conversation_id: new.conversation_id,
        seq,
        sender_id: Some(new.sender_id),
        kind: new.kind,
        content: new.content,
        reply_to_id: new.reply_to_id,
        client_msg_id: new.client_msg_id,
        status: Status::Normal,
        recalled_at: None,
        created_at: now,
    }
}

/// Stores a message.
#[derive(Debug)]
pub enum InsertMessage {
    /// Waiting for a message that the sender gave the same identifier.
    Lookup { new: NewMessage, now: Timestamp },
    /// Waiting for a sequence number.
    Allocate { new: NewMessage, now: Timestamp },
    /// Waiting for the row as written.
    Written,
}

impl View for InsertMessage {
    type V = InsertMessage;

    open spec fn view(&self) -> InsertMessage {
        *self
    }
}

/// The step that asks for a sequence number.
pub open spec fn allocating(new: NewMessage, now: Timestamp) -> Step<
    InsertMessage,
    ActionSpec,
    (message::Model, bool),
> {
    Step::Ask(
        InsertMessage::Allocate { new, now },
        ActionOf::AllocateSeq { conversation_id: new.conversation_id, at: now },
    )
}

/// First step of storing a message.
pub open spec fn sending_start(new: NewMessage, now: Timestamp) -> Step<
    InsertMessage,
    ActionSpec,
    (message::Model, bool),
> {
    match new.client_msg_id {
        Some(client_msg_id) => Step::Ask(
            InsertMessage::Lookup { new, now },
            ActionOf::FindClientMessage {
                conversation_id: new.conversation_id,
                sender_id: new.sender_id,
                client_msg_id: client_msg_id@,
            },
        ),
        None => allocating(new, now),
    }
}

fn allocate(new: NewMessage, now: Timestamp) -> (r: Step<
    InsertMessage,
    Action,
    (message::Model, bool),
>)
    ensures
        r@ == allocating(new, now),
{
    let action = allocate_seq(new.conversation_id, now);
    Step::Ask(InsertMessage::Allocate { new, now }, action)
}

/// Starts to store a message. Where the sender has given the same identifier to a message of the
/// conversation before, the result is that message and `false`.
pub fn insert_message(new: NewMessage, now: Timestamp) -> (r: Step<
    InsertMessage,
    Action,
    (message::Model, bool),
>)
    ensures
        r@ == sending_start(new, now),
{
    let client_msg_id = match &new.client_msg_id {
        Some(client_msg_id) => client_msg_id.clone(),
        None => {
            return allocate(new, now);
        },
    };
    let action = ActionOf::FindClientMessage {
        conversation_id: new.conversation_id,
        sender_id: new.sender_id,
        client_msg_id,
    };
    Step::Ask(InsertMessage::Lookup { new, now }, action)
}

impl Flow for InsertMessage {
    type Output = (message::Model, bool);

    open spec fn step(state: InsertMessage, env: Env, event: Event) -> Step<
        InsertMessage,
        ActionSpec,
        (message::Model, bool),
    > {
        match state {
            InsertMessage::Lookup { new, now } => match event.spec_message() {
                Err(e) => Step::Done(Err(e)),
                Ok(Some(existing)) => Step::Done(Ok((existing, false))),
                Ok(None) => allocating(new, now),
            },
            InsertMessage::Allocate { new, now } => match allocated(event) {
                Err(e) => Step::Done(Err(e)),
                Ok(seq) => Step::Ask(
                    InsertMessage::Written,
                    ActionOf::InsertMessage(new_message(new, env.fresh_id, seq, now)),
                ),
            },
            InsertMessage::Written => match written_message(event) {
                Err(e) => Step::Done(Err(e)),
                Ok(row) => Step::Done(Ok((row, true))),
            },
        }
    }

    fn next(self, env: Env, event: Event) -> (r: Step<
        InsertMessage,
        Action,
        (message::Model, bool),
    >)
        ensures
            r@ == InsertMessage::step(self@, env, event),
    {
        match self {
            InsertMessage::Lookup { new, now } => match event.message() {
                Err(e) => Step::Done(Err(e)),
                Ok(Some(existing)) => Step::Done(Ok((existing, false))),
                Ok(None) => allocate(new, now),
            },
            InsertMessage::Allocate { new, now } => match allocated_seq(event) {
                Err(e) => Step::Done(Err(e)),
                Ok(seq) => Step::Ask(
                    InsertMessage::Written,
                    ActionOf::InsertMessage(
                        message::Model {
                            id: env.fresh_id,
                            conversation_id: new.conversation_id,
                            seq,
                            sender_id: Some(new.sender_id),
                            kind: new.kind,
                            content: new.content,
                            reply_to_id: new.reply_to_id,
                            client_msg_id: new.client_msg_id,
                            status: Status::Normal,
                            recalled_at: None,
                            created_at: now,
                        },
                    ),
                ),
            },
            InsertMessage::Written => match message_as_written(event) {
                Err(e) => Step::Done(Err(e)),
                Ok(row) => Step::Done(Ok((row, true))),
            },
        }
    }
}

} // verus!
