//! Access to the data of conversations.

use vstd::prelude::*;

use crate::clock::Timestamp;
use crate::domain::{unread, unread_of};
use crate::entity::{conversation, conversation_member, message};
use crate::error::AppError;
use crate::flow::{Action, ActionOf, ActionSpec, ConversationChange, Event};
use crate::ids::Id;

pub mod creation;
pub mod listing;
pub mod membership;
pub mod ownership;
pub mod sending;

pub use creation::{create_direct_conversation, create_group_conversation};
pub use listing::list_conversations;
pub use membership::{
    get_conversation_for_member, insert_member, set_member_mute, set_member_role,
    set_member_speak, update_last_read,
};
pub use ownership::{dissolve_conversation, transfer_owner};
pub use sending::{insert_message, NewMessage};

verus! {

/// The error for a failure of the database, with the text that says what failed.
pub fn map_db_err(detail: String) -> (r: AppError)
    ensures
        r == AppError::Internal(detail),
{
    AppError::Internal(detail)
}

/// A conversation together with the membership through which it was reached.
#[derive(Clone, Debug)]
pub struct ConversationWithMember {
    pub conversation: conversation::Model,
    pub member: conversation_member::Model,
}

impl View for ConversationWithMember {
    type V = ConversationWithMember;

    open spec fn view(&self) -> ConversationWithMember {
        *self
    }
}

/// The number of unread messages of a member.
pub fn unread_for(
    conversation: &conversation::Model,
    member: &conversation_member::Model,
) -> (r: i64)
    requires
        i64::MIN <= conversation.next_seq - member.last_read_seq <= i64::MAX,
    ensures
        r == unread(conversation.next_seq, member.last_read_seq),
{
    unread_of(conversation.next_seq, member.last_read_seq)
}

/// Asks for the active membership of a user in a conversation.
pub fn find_member(conversation_id: Id, user_id: Id) -> (r: Action)
    ensures
        r@ == (ActionSpec::FindMember { conversation_id, user_id }),
{
    ActionOf::FindMember { conversation_id, user_id }
}

/// Asks for the active members of a conversation.
pub fn list_members(conversation_id: Id) -> (r: Action)
    ensures
        r@ == (ActionSpec::MembersOf { conversation_id }),
{
    ActionOf::MembersOf { conversation_id }
}

/// Asks for a message of a conversation.
pub fn find_message(conversation_id: Id, message_id: Id) -> (r: Action)
    ensures
        r@ == (ActionSpec::FindMessage { conversation_id, message_id }),
{
    ActionOf::FindMessage { conversation_id, message_id }
}

/// Asks for the last messages of a conversation, the newest first.
pub fn list_messages(conversation_id: Id, before_seq: Option<i64>, limit: u64) -> (r: Action)
    ensures
        r@ == (ActionSpec::MessagesBefore { conversation_id, before_seq, limit }),
{
    ActionOf::MessagesBefore { conversation_id, before_seq, limit }
}

/// Asks to end an active membership.
pub fn remove_member(conversation_id: Id, user_id: Id, now: Timestamp) -> (r: Action)
    ensures
        r@ == (ActionSpec::EndMembership { conversation_id, user_id, at: now }),
{
    ActionOf::EndMembership { conversation_id, user_id, at: now }
}

/// Asks for the next sequence number of a conversation.
pub fn allocate_seq(conversation_id: Id, now: Timestamp) -> (r: Action)
    ensures
        r@ == (ActionSpec::AllocateSeq { conversation_id, at: now }),
{
    ActionOf::AllocateSeq { conversation_id, at: now }
}

/// Asks to mark a message as recalled.
pub fn mark_recalled(model: &message::Model, now: Timestamp) -> (r: Action)
    ensures
        r@ == (ActionSpec::RecallMessage { message_id: model.id, at: now }),
{
    ActionOf::RecallMessage { message_id: model.id, at: now }
}

/// Asks to change the settings of a group: each of them only where it is given.
pub fn update_group_settings(
    conversation: &conversation::Model,
    only_admins_speak: Option<bool>,
    notice: Option<Option<String>>,
    now: Timestamp,
) -> (r: Action)
    ensures
        r@ == (ActionSpec::UpdateConversation {
            conversation_id: conversation.id,
            change: ConversationChange::Settings { only_admins_speak, notice, at: now },
        }),
{
    ActionOf::UpdateConversation {
        conversation_id: conversation.id,
        change: ConversationChange::Settings { only_admins_speak, notice, at: now },
    }
}

/// The sequence number that was asked for.
pub open spec fn allocated(event: Event) -> Result<i64, AppError> {
    match event.spec_seq() {
        Err(e) => Err(e),
        Ok(None) => Err(AppError::ConversationNotFound),
        Ok(Some(seq)) => Ok(seq),
    }
}

/// The sequence number that was asked for; there is none without a conversation.
pub fn allocated_seq(event: Event) -> (r: Result<i64, AppError>)
    ensures
        r == allocated(event),
{
    match event.seq() {
        Err(e) => Err(e),
        Ok(None) => Err(AppError::ConversationNotFound),
        Ok(Some(seq)) => Ok(seq),
    }
}

/// Whether a membership was ended, and not just found to be over.
pub open spec fn ended(event: Event) -> Result<bool, AppError> {
    match event.spec_affected() {
        Err(e) => Err(e),
        Ok(rows) => Ok(rows > 0),
    }
}

/// Whether a membership was ended, and not just found to be over.
pub fn membership_ended(event: Event) -> (r: Result<bool, AppError>)
    ensures
        r == ended(event),
{
    match event.affected() {
        Err(e) => Err(e),
        Ok(rows) => Ok(rows > 0),
    }
}

/// The messages that were asked for, the oldest first.
pub fn messages_in_order(event: Event) -> (r: Result<Vec<message::Model>, AppError>)
    ensures
        match event.spec_messages() {
            Err(e) => r == Err::<Vec<message::Model>, AppError>(e),
            Ok(rows) => r is Ok && r->Ok_0@ == rows@.reverse(),
        },
{
    match event.messages() {
        Err(e) => Err(e),
        Ok(rows) => Ok(oldest_first(rows)),
    }
}

/// Messages that came newest first, oldest first.
fn oldest_first(rows: Vec<message::Model>) -> (r: Vec<message::Model>)
    ensures
        r@ == rows@.reverse(),
{
    let mut rest = rows;
    let mut r: Vec<message::Model> = Vec::new();
    while rest.len() > 0
        invariant
            rest@.len() <= rows@.len(),
            rest@ == rows@.subrange(0, rest@.len() as int),
            r@ == rows@.reverse().subrange(0, rows@.len() - rest@.len()),
        decreases rest@.len(),
    {
        if let Some(row) = rest.pop() {
            r.push(row);
        }
    }
    r
}

/// The row that a write of a membership answered with.
pub open spec fn written_member(event: Event) -> Result<conversation_member::Model, AppError> {
    match event.spec_member() {
        Err(e) => Err(e),
        Ok(None) => Err(AppError::UnexpectedReply),
        Ok(Some(row)) => Ok(row),
    }
}

/// The row that a write of a conversation answered with.
pub open spec fn written_conversation(event: Event) -> Result<conversation::Model, AppError> {
    match event.spec_conversation() {
        Err(e) => Err(e),
        Ok(None) => Err(AppError::UnexpectedReply),
        Ok(Some(row)) => Ok(row),
    }
}

/// The row that a write of a message answered with.
pub open spec fn written_message(event: Event) -> Result<message::Model, AppError> {
    match event.spec_message() {
        Err(e) => Err(e),
        Ok(None) => Err(AppError::UnexpectedReply),
        Ok(Some(row)) => Ok(row),
    }
}

pub(crate) fn member_as_written(event: Event) -> (r: Result<conversation_member::Model, AppError>)
    ensures
        r == written_member(event),
{
    match event.member() {
        Err(e) => Err(e),
        Ok(None) => Err(AppError::UnexpectedReply),
        Ok(Some(row)) => Ok(row),
    }
}

pub(crate) fn conversation_as_written(event: Event) -> (r: Result<conversation::Model, AppError>)
    ensures
        r == written_conversation(event),
{
    match event.conversation() {
        Err(e) => Err(e),
        Ok(None) => Err(AppError::UnexpectedReply),
        Ok(Some(row)) => Ok(row),
    }
}

pub(crate) fn message_as_written(event: Event) -> (r: Result<message::Model, AppError>)
    ensures
        r == written_message(event),
{
    match event.message() {
        Err(e) => Err(e),
        Ok(None) => Err(AppError::UnexpectedReply),
        Ok(Some(row)) => Ok(row),
    }
}

} // verus!
