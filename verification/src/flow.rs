//! Requests as step-by-step dialogues with the environment.
//!
//! A request never touches the database, the message bus or a connection itself. It is a state
//! machine: each step either asks the environment for one [`Action`] and waits for the [`Event`]
//! that answers it, or is done with a result.

use serde_json::Value;
use vstd::prelude::*;

use crate::clock::Timestamp;
use crate::entity::conversation_member::Role;
use crate::entity::{conversation, conversation_member, message};
use crate::error::AppError;
use crate::ids::Id;
use crate::json::{json_of, Json};

verus! {

/// What a step may use of its surroundings.
#[derive(Clone, Copy, Debug)]
pub struct Env {
    /// The current time.
    pub now: Timestamp,
    /// An identifier for a row to be created.
    pub fresh_id: Id,
    /// Whether there is a message bus to announce new messages on.
    pub bus: bool,
}

/// A change of one membership; columns that are not named stay as they are.
#[derive(Debug)]
pub enum MemberChange {
    /// The membership is active again, in the given role.
    Rejoin(Role),
    /// Everything up to this sequence number has been read.
    LastRead(i64),
    /// The member may not speak until then.
    MutedUntil(Option<Timestamp>),
    /// Whether the member may speak where only administrators may.
    CanSpeak(bool),
    /// The member's role.
    Role(Role),
}

/// A change of one conversation; columns that are not named stay as they are.
#[derive(Debug)]
pub enum ConversationChange {
    /// New settings, where given, and the time of the change.
    Settings {
        only_admins_speak: Option<bool>,
        notice: Option<Option<String>>,
        at: Timestamp,
    },
    /// The new owner, and the time of the change.
    Owner { owner_id: Id, at: Timestamp },
}

/// What the environment is asked to do, over the representation of lists of identifiers, of
/// texts and of documents.
#[derive(Debug)]
pub enum ActionOf<Ids, Text, Doc> {
    /// The active membership of a user in a conversation. Answer: `Member`.
    FindMember { conversation_id: Id, user_id: Id },
    /// The membership row of a user in a conversation, active or not. Answer: `Member`.
    FindMemberRow { conversation_id: Id, user_id: Id },
    /// The active memberships of a user. Answer: `Members`.
    MembershipsOf { user_id: Id },
    /// The active memberships in a conversation. Answer: `Members`.
    MembersOf { conversation_id: Id },
    /// The active memberships of a user in any of the conversations. Answer: `Members`.
    MembershipsIn { conversation_ids: Ids, user_id: Id },
    /// A conversation. Answer: `Conversation`.
    FindConversation { conversation_id: Id },
    /// Those of the conversations that are direct ones. Answer: `Conversations`.
    DirectAmong { conversation_ids: Ids },
    /// A message of a conversation. Answer: `Message`.
    FindMessage { conversation_id: Id, message_id: Id },
    /// The message that a sender gave this identifier in a conversation. Answer: `Message`.
    FindClientMessage { conversation_id: Id, sender_id: Id, client_msg_id: Text },
    /// The last messages of a conversation, or the last ones before a sequence number, at most
    /// `limit` of them, the newest first. Answer: `Messages`.
    MessagesBefore { conversation_id: Id, before_seq: Option<i64>, limit: u64 },
    /// Create a conversation. Answer: `Conversation` with the row.
    InsertConversation(conversation::Model),
    /// Create a membership. Answer: `Member` with the row.
    InsertMember(conversation_member::Model),
    /// Create a message. Answer: `Message` with the row.
    InsertMessage(message::Model),
    /// Change a membership. Answer: `Member` with the row as changed.
    UpdateMember { conversation_id: Id, user_id: Id, change: MemberChange },
    /// Change a conversation. Answer: `Conversation` with the row as changed.
    UpdateConversation { conversation_id: Id, change: ConversationChange },
    /// Mark a message as recalled. Answer: `Message` with the row as changed.
    RecallMessage { message_id: Id, at: Timestamp },
    /// End an active membership. Answer: `Affected`.
    EndMembership { conversation_id: Id, user_id: Id, at: Timestamp },
    /// Raise the sequence number of a conversation by one, in one indivisible step. Answer:
    /// `Allocated` with the new number, or without one where there is no such conversation.
    AllocateSeq { conversation_id: Id, at: Timestamp },
    /// Delete the messages of a conversation. Answer: `Affected`.
    DeleteMessages { conversation_id: Id },
    /// Delete the memberships of a conversation. Answer: `Affected`.
    DeleteMembers { conversation_id: Id },
    /// Delete a conversation. Answer: `Affected`.
    DeleteConversation { conversation_id: Id },
    /// Announce something on the message bus. Answer: `Done`.
    Announce { topic: Text, payload: Doc, at: Timestamp },
    /// Push a text to every connection of the users, one user after the other. Answer: `Done`.
    Push { user_ids: Ids, text: Text },
}

/// What the environment is asked to do.
pub type Action = ActionOf<Vec<Id>, String, Value>;

/// An action by its contents.
pub type ActionSpec = ActionOf<Seq<Id>, Seq<char>, Json>;

impl View for ActionOf<Vec<Id>, String, Value> {
    type V = ActionSpec;

    open spec fn view(&self) -> ActionSpec {
        match *self {
            ActionOf::FindMember { conversation_id, user_id } => ActionOf::FindMember {
                conversation_id,
                user_id,
            },
            ActionOf::FindMemberRow { conversation_id, user_id } => ActionOf::FindMemberRow {
                conversation_id,
                user_id,
            },
            ActionOf::MembershipsOf { user_id } => ActionOf::MembershipsOf { user_id },
            ActionOf::MembersOf { conversation_id } => ActionOf::MembersOf { conversation_id },
            ActionOf::MembershipsIn { conversation_ids, user_id } => ActionOf::MembershipsIn {
                conversation_ids: conversation_ids@,
                user_id,
            },
            ActionOf::FindConversation { conversation_id } => ActionOf::FindConversation {
                conversation_id,
            },
            ActionOf::DirectAmong { conversation_ids } => ActionOf::DirectAmong {
                conversation_ids: conversation_ids@,
            },
            ActionOf::FindMessage { conversation_id, message_id } => ActionOf::FindMessage {
                conversation_id,
                message_id,
            },
            ActionOf::FindClientMessage { conversation_id, sender_id, client_msg_id } =>
                ActionOf::FindClientMessage {
                conversation_id,
                sender_id,
                client_msg_id: client_msg_id@,
            },
            ActionOf::MessagesBefore { conversation_id, before_seq, limit } =>
                ActionOf::MessagesBefore { conversation_id, before_seq, limit },
            ActionOf::InsertConversation(row) => ActionOf::InsertConversation(row),
            ActionOf::InsertMember(row) => ActionOf::InsertMember(row),
            ActionOf::InsertMessage(row) => ActionOf::InsertMessage(row),
            ActionOf::UpdateMember { conversation_id, user_id, change } => ActionOf::UpdateMember {
                conversation_id,
                user_id,
                change,
            },
            ActionOf::UpdateConversation { conversation_id, change } =>
                ActionOf::UpdateConversation { conversation_id, change },
            ActionOf::RecallMessage { message_id, at } => ActionOf::RecallMessage {
                message_id,
                at,
            },
            ActionOf::EndMembership { conversation_id, user_id, at } => ActionOf::EndMembership {
                conversation_id,
                user_id,
                at,
            },
            ActionOf::AllocateSeq { conversation_id, at } => ActionOf::AllocateSeq {
                conversation_id,
                at,
            },
            ActionOf::DeleteMessages { conversation_id } => ActionOf::DeleteMessages {
                conversation_id,
            },
            ActionOf::DeleteMembers { conversation_id } => ActionOf::DeleteMembers {
                conversation_id,
            },
            ActionOf::DeleteConversation { conversation_id } => ActionOf::DeleteConversation {
                conversation_id,
            },
            ActionOf::Announce { topic, payload, at } => ActionOf::Announce {
                topic: topic@,
                payload: json_of(payload),
                at,
            },
            ActionOf::Push { user_ids, text } => ActionOf::Push {
                user_ids: user_ids@,
                text: text@,
            },
        }
    }
}

/// What the environment answers.
#[derive(Debug)]
pub enum Event {
    Member(Option<conversation_member::Model>),
    Members(Vec<conversation_member::Model>),
    Conversation(Option<conversation::Model>),
    Conversations(Vec<conversation::Model>),
    Message(Option<message::Model>),
    Messages(Vec<message::Model>),
    Allocated(Option<i64>),
    Affected(u64),
    Done,
    /// The action failed.
    Failed(AppError),
}

impl Event {
    pub open spec fn spec_member(self) -> Result<Option<conversation_member::Model>, AppError> {
        match self {
            Event::Member(row) => Ok(row),
            Event::Failed(e) => Err(e),
            _ => Err(AppError::UnexpectedReply),
        }
    }

    pub open spec fn spec_members(self) -> Result<Vec<conversation_member::Model>, AppError> {
        match self {
            Event::Members(rows) => Ok(rows),
            Event::Failed(e) => Err(e),
            _ => Err(AppError::UnexpectedReply),
        }
    }

    pub open spec fn spec_conversation(self) -> Result<Option<conversation::Model>, AppError> {
        match self {
            Event::Conversation(row) => Ok(row),
            Event::Failed(e) => Err(e),
            _ => Err(AppError::UnexpectedReply),
        }
    }

    pub open spec fn spec_conversations(self) -> Result<Vec<conversation::Model>, AppError> {
        match self {
            Event::Conversations(rows) => Ok(rows),
            Event::Failed(e) => Err(e),
            _ => Err(AppError::UnexpectedReply),
        }
    }

    pub open spec fn spec_message(self) -> Result<Option<message::Model>, AppError> {
        match self {
            Event::Message(row) => Ok(row),
            Event::Failed(e) => Err(e),
            _ => Err(AppError::UnexpectedReply),
        }
    }

    pub open spec fn spec_messages(self) -> Result<Vec<message::Model>, AppError> {
        match self {
            Event::Messages(rows) => Ok(rows),
            Event::Failed(e) => Err(e),
            _ => Err(AppError::UnexpectedReply),
        }
    }

    pub open spec fn spec_seq(self) -> Result<Option<i64>, AppError> {
        match self {
            Event::Allocated(seq) => Ok(seq),
            Event::Failed(e) => Err(e),
            _ => Err(AppError::UnexpectedReply),
        }
    }

    pub open spec fn spec_affected(self) -> Result<u64, AppError> {
        match self {
            Event::Affected(n) => Ok(n),
            Event::Failed(e) => Err(e),
            _ => Err(AppError::UnexpectedReply),
        }
    }

    /// The membership that was answered.
    pub fn member(self) -> (r: Result<Option<conversation_member::Model>, AppError>)
        ensures
            r == self.spec_member(),
    {
        match self {
            Event::Member(row) => Ok(row),
            Event::Failed(e) => Err(e),
            _ => Err(AppError::UnexpectedReply),
        }
    }

    /// The memberships that were answered.
    pub fn members(self) -> (r: Result<Vec<conversation_member::Model>, AppError>)
        ensures
            r == self.spec_members(),
    {
        match self {
            Event::Members(rows) => Ok(rows),
            Event::Failed(e) => Err(e),
            _ => Err(AppError::UnexpectedReply),
        }
    }

    /// The conversation that was answered.
    pub fn conversation(self) -> (r: Result<Option<conversation::Model>, AppError>)
        ensures
            r == self.spec_conversation(),
    {
        match self {
            Event::Conversation(row) => Ok(row),
            Event::Failed(e) => Err(e),
            _ => Err(AppError::UnexpectedReply),
        }
    }

    /// The conversations that were answered.
    pub fn conversations(self) -> (r: Result<Vec<conversation::Model>, AppError>)
        ensures
            r == self.spec_conversations(),
    {
        match self {
            Event::Conversations(rows) => Ok(rows),
            Event::Failed(e) => Err(e),
            _ => Err(AppError::UnexpectedReply),
        }
    }

    /// The message that was answered.
    pub fn message(self) -> (r: Result<Option<message::Model>, AppError>)
        ensures
            r == self.spec_message(),
    {
        match self {
            Event::Message(row) => Ok(row),
            Event::Failed(e) => Err(e),
            _ => Err(AppError::UnexpectedReply),
        }
    }

    /// The messages that were answered.
    pub fn messages(self) -> (r: Result<Vec<message::Model>, AppError>)
        ensures
            r == self.spec_messages(),
    {
        match self {
            Event::Messages(rows) => Ok(rows),
            Event::Failed(e) => Err(e),
            _ => Err(AppError::UnexpectedReply),
        }
    }

    /// The sequence number that was answered.
    pub fn seq(self) -> (r: Result<Option<i64>, AppError>)
        ensures
            r == self.spec_seq(),
    {
        match self {
            Event::Allocated(seq) => Ok(seq),
            Event::Failed(e) => Err(e),
            _ => Err(AppError::UnexpectedReply),
        }
    }

    /// The number of rows that was answered.
    pub fn affected(self) -> (r: Result<u64, AppError>)
        ensures
            r == self.spec_affected(),
    {
        match self {
            Event::Affected(n) => Ok(n),
            Event::Failed(e) => Err(e),
            _ => Err(AppError::UnexpectedReply),
        }
    }
}

/// One step of a request: an action to be carried out and the state to go on from, or the result.
#[derive(Debug)]
pub enum Step<S, A, T> {
    Ask(S, A),
    Done(Result<T, AppError>),
}

impl<S: View, A: View, T: View> View for Step<S, A, T> {
    type V = Step<S::V, A::V, T::V>;

    open spec fn view(&self) -> Step<S::V, A::V, T::V> {
        match *self {
            Step::Ask(state, action) => Step::Ask(state@, action@),
            Step::Done(Ok(value)) => Step::Done(Ok(value@)),
            Step::Done(Err(e)) => Step::Done(Err(e)),
        }
    }
}

/// A request that has asked for an action and waits for the answer.
pub trait Flow: Sized + View {
    /// What the request ends with.
    type Output: View;

    /// The step that follows a state once the answer to its action is there.
    spec fn step(state: Self::V, env: Env, event: Event) -> Step<
        Self::V,
        ActionSpec,
        <Self::Output as View>::V,
    >;

    /// Takes the answer and goes on.
    fn next(self, env: Env, event: Event) -> (r: Step<Self, Action, Self::Output>)
        ensures
            r@ == Self::step(self@, env, event),
    ;
}

} // verus!
