//! What new rows hold.

use vstd::prelude::*;

use crate::clock::Timestamp;
use crate::entity::conversation_member::Role;
use crate::ids::Id;
use crate::repo::creation::{new_direct, new_group};
use crate::repo::membership::new_member;
use crate::repo::sending::new_message;
use crate::repo::NewMessage;
use crate::routes::messages::requested_message;
use crate::routes::SendMessageRequest;

verus! {

/// A new message holds what was sent, under the identifier and in the place it is given: nothing
/// of it is lost or changed, and it is not recalled.
pub proof fn law_new_messages_hold_what_was_sent(
    new: NewMessage,
    id: Id,
    seq: i64,
    now: Timestamp,
)
    ensures
        ({
            let row = new_message(new, id, seq, now);
            &&& row.id == id
            &&& row.seq == seq
            &&& row.conversation_id == new.conversation_id
            &&& row.sender_id == Some(new.sender_id)
            &&& row.kind == new.kind
            &&& row.content == new.content
            &&& row.reply_to_id == new.reply_to_id
            &&& row.client_msg_id == new.client_msg_id
            &&& row.status is Normal
            &&& row.recalled_at is None
            &&& row.created_at == now
        }),
{
}

/// What is sent is what the request holds, by the user who makes it and to the conversation it is
/// made for.
pub proof fn law_requests_send_what_they_hold(
    user_id: Id,
    conversation_id: Id,
    input: SendMessageRequest,
)
    ensures
        ({
            let new = requested_message(user_id, conversation_id, input);
            &&& new.conversation_id == conversation_id
            &&& new.sender_id == user_id
            &&& new.kind == input.kind
            &&& new.content == input.content
            &&& new.reply_to_id == input.reply_to_id
            &&& new.client_msg_id == input.client_msg_id
        }),
{
}

/// A new member is active from now on, in the role given; they have read nothing, are not muted
/// and may speak, and have neither silenced nor pinned the conversation.
pub proof fn law_new_members_start_afresh(
    conversation_id: Id,
    user_id: Id,
    role: Role,
    now: Timestamp,
)
    ensures
        ({
            let row = new_member(conversation_id, user_id, role, now);
            &&& row.conversation_id == conversation_id
            &&& row.user_id == user_id
            &&& row.role == role
            &&& row.last_read_seq == 0
            &&& row.muted_until is None
            &&& row.can_speak
            &&& !row.muted
            &&& !row.pinned
            &&& row.joined_at == now
            &&& row.left_at is None
        }),
{
}

/// A new direct conversation has neither name nor owner nor notice, and no message yet.
pub proof fn law_new_direct_conversations_are_bare(id: Id, now: Timestamp)
    ensures
        ({
            let row = new_direct(id, now);
            &&& row.id == id
            &&& row.kind is Direct
            &&& row.name is None
            &&& row.owner_id is None
            &&& row.notice is None
            &&& row.next_seq == 0
            &&& !row.only_admins_speak
            &&& row.created_at == now
            &&& row.updated_at == now
        }),
{
}

/// A new group has the name and the owner it was created with; it has no notice and no message
/// yet, and everybody may speak.
pub proof fn law_new_groups_are_as_asked_for(id: Id, name: String, owner_id: Id, now: Timestamp)
    ensures
        ({
            let row = new_group(id, name, owner_id, now);
            &&& row.id == id
            &&& row.kind is Group
            &&& row.name == Some(name)
            &&& row.owner_id == Some(owner_id)
            &&& row.notice is None
            &&& row.next_seq == 0
            &&& !row.only_admins_speak
            &&& row.created_at == now
            &&& row.updated_at == now
        }),
{
}

} // verus!
