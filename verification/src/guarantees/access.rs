//! Who may use a conversation.

use vstd::prelude::*;

use crate::error::AppError;
use crate::flow::{Env, Event};
use crate::ids::Id;
use crate::repo::membership::{access_start, Access};
use crate::repo::ConversationWithMember;
use crate::routes::groups::{
    dissolve_group_start, hand_over_start, settings_start, ChangeSettings, DissolveGroup, HandOver,
};
use crate::routes::members::{
    add_members_start, list_members_start, mute_start, remove_member_start, role_start, speak_start,
    AddMembers, ListMembers, MuteMember, RemoveMember, SetRole, SetSpeak,
};
use crate::routes::messages::{
    list_messages_start, mark_read_start, message_receipts_start, recall_message_start,
    send_message_start, ListMessages, MarkRead, MessageReceipts, Recall, SendMessage,
};
use crate::routes::{
    AddMembersRequest, GroupSettingsRequest, MessageQuery, MuteRequest, ReadRequest, RoleRequest,
    SendMessageRequest, SpeakRequest, TransferRequest,
};
use crate::store::{outcome, Store};

verus! {

/// What a user who asks for a conversation is given.
pub open spec fn access_result(store: Store, conversation_id: Id, user_id: Id) -> Result<
    ConversationWithMember,
    AppError,
> {
    if !store.is_active(conversation_id, user_id) {
        Err(AppError::NotMember)
    } else if !store.conversations.contains_key(conversation_id) {
        Err(AppError::ConversationNotFound)
    } else {
        Ok(
            ConversationWithMember {
                conversation: store.conversations[conversation_id],
                member: store.members[(conversation_id, user_id)],
            },
        )
    }
}

/// Looking a conversation up gives its active members the conversation, refuses everybody else,
/// and changes nothing.
pub proof fn law_access_is_for_active_members(
    store: Store,
    conversation_id: Id,
    user_id: Id,
    answers: Seq<(Env, Event)>,
)
    ensures
        outcome::<Access>(access_start(conversation_id, user_id), store, answers) matches Some(
            (end, result),
        ) ==> end == store && result == access_result(store, conversation_id, user_id),
{
    reveal_with_fuel(outcome, 4);
}

/// Looking a conversation up always comes to an end.
pub proof fn law_access_comes_to_an_end(store: Store, conversation_id: Id, user_id: Id, env: Env)
    ensures
        exists|answers: Seq<(Env, Event)>| #[trigger]
            outcome::<Access>(access_start(conversation_id, user_id), store, answers) is Some,
{
    reveal_with_fuel(outcome, 4);
    let first = (env, Event::Member(store.active(conversation_id, user_id)));
    let second = (
        env,
        Event::Conversation(
            if store.conversations.contains_key(conversation_id) {
                Some(store.conversations[conversation_id])
            } else {
                None
            },
        ),
    );
    let answers = if store.is_active(conversation_id, user_id) {
        seq![first, second]
    } else {
        seq![first]
    };
    assert(answers.drop_first().len() == answers.len() - 1);
    assert(outcome::<Access>(access_start(conversation_id, user_id), store, answers) is Some);
}

/// Whether an outcome, if there is one, is that somebody was refused for not being a member, with
/// the tables as they were.
pub open spec fn refused_as_outsider<T>(
    outcome: Option<(Store, Result<T, AppError>)>,
    store: Store,
) -> bool {
    outcome matches Some((end, result)) ==> end == store && result == Err::<T, AppError>(
        AppError::NotMember,
    )
}

/// Somebody who is no active member of a conversation cannot see its history, and the attempt
/// changes nothing.
pub proof fn law_outsiders_cannot_read(
    store: Store,
    conversation_id: Id,
    user_id: Id,
    query: MessageQuery,
    answers: Seq<(Env, Event)>,
)
    requires
        !store.is_active(conversation_id, user_id),
    ensures
        refused_as_outsider(
            outcome::<ListMessages>(
                list_messages_start(user_id, conversation_id, query),
                store,
                answers,
            ),
            store,
        ),
{
    reveal_with_fuel(outcome, 3);
}

/// Somebody who is no active member of a conversation cannot send to it, and the attempt changes
/// nothing.
pub proof fn law_outsiders_cannot_send(
    store: Store,
    conversation_id: Id,
    user_id: Id,
    message: SendMessageRequest,
    env: Env,
    answers: Seq<(Env, Event)>,
)
    requires
        !store.is_active(conversation_id, user_id),
    ensures
        refused_as_outsider(
            outcome::<SendMessage>(
                send_message_start(user_id, conversation_id, message, env),
                store,
                answers,
            ),
            store,
        ),
{
    reveal_with_fuel(outcome, 3);
}

/// Somebody who is no active member of a conversation cannot move a read mark in it, and the
/// attempt changes nothing.
pub proof fn law_outsiders_cannot_mark_read(
    store: Store,
    conversation_id: Id,
    user_id: Id,
    read: ReadRequest,
    answers: Seq<(Env, Event)>,
)
    requires
        !store.is_active(conversation_id, user_id),
    ensures
        refused_as_outsider(
            outcome::<MarkRead>(
                mark_read_start(user_id, conversation_id, read),
                store,
                answers,
            ),
            store,
        ),
{
    reveal_with_fuel(outcome, 3);
}

/// Somebody who is no active member of a conversation cannot recall a message of it, and the
/// attempt changes nothing.
pub proof fn law_outsiders_cannot_recall(
    store: Store,
    conversation_id: Id,
    user_id: Id,
    message_id: Id,
    answers: Seq<(Env, Event)>,
)
    requires
        !store.is_active(conversation_id, user_id),
    ensures
        refused_as_outsider(
            outcome::<Recall>(
                recall_message_start(user_id, conversation_id, message_id),
                store,
                answers,
            ),
            store,
        ),
{
    reveal_with_fuel(outcome, 3);
}

/// Somebody who is no active member of a conversation cannot see receipts of it, and the attempt
/// changes nothing.
pub proof fn law_outsiders_cannot_see_receipts(
    store: Store,
    conversation_id: Id,
    user_id: Id,
    message_id: Id,
    answers: Seq<(Env, Event)>,
)
    requires
        !store.is_active(conversation_id, user_id),
    ensures
        refused_as_outsider(
            outcome::<MessageReceipts>(
                message_receipts_start(user_id, conversation_id, message_id),
                store,
                answers,
            ),
            store,
        ),
{
    reveal_with_fuel(outcome, 3);
}

/// Somebody who is no active member of a conversation cannot see its members, and the attempt
/// changes nothing.
pub proof fn law_outsiders_cannot_see_members(
    store: Store,
    conversation_id: Id,
    user_id: Id,
    answers: Seq<(Env, Event)>,
)
    requires
        !store.is_active(conversation_id, user_id),
    ensures
        refused_as_outsider(
            outcome::<ListMembers>(
                list_members_start(user_id, conversation_id),
                store,
                answers,
            ),
            store,
        ),
{
    reveal_with_fuel(outcome, 3);
}

/// Somebody who is no active member of a conversation cannot invite to it, and the attempt changes
/// nothing.
pub proof fn law_outsiders_cannot_invite(
    store: Store,
    conversation_id: Id,
    user_id: Id,
    added: AddMembersRequest,
    env: Env,
    answers: Seq<(Env, Event)>,
)
    requires
        !store.is_active(conversation_id, user_id),
    ensures
        refused_as_outsider(
            outcome::<AddMembers>(
                add_members_start(user_id, conversation_id, added, env),
                store,
                answers,
            ),
            store,
        ),
{
    reveal_with_fuel(outcome, 3);
}

/// Somebody who is no active member of a conversation cannot remove members of it, and the attempt
/// changes nothing.
pub proof fn law_outsiders_cannot_remove(
    store: Store,
    conversation_id: Id,
    user_id: Id,
    target_id: Id,
    env: Env,
    answers: Seq<(Env, Event)>,
)
    requires
        !store.is_active(conversation_id, user_id),
    ensures
        refused_as_outsider(
            outcome::<RemoveMember>(
                remove_member_start(user_id, conversation_id, target_id, env),
                store,
                answers,
            ),
            store,
        ),
{
    reveal_with_fuel(outcome, 3);
}

/// Somebody who is no active member of a conversation cannot mute members of it, and the attempt
/// changes nothing.
pub proof fn law_outsiders_cannot_mute(
    store: Store,
    conversation_id: Id,
    user_id: Id,
    target_id: Id,
    mute: MuteRequest,
    answers: Seq<(Env, Event)>,
)
    requires
        !store.is_active(conversation_id, user_id),
    ensures
        refused_as_outsider(
            outcome::<MuteMember>(
                mute_start(user_id, conversation_id, target_id, mute),
                store,
                answers,
            ),
            store,
        ),
{
    reveal_with_fuel(outcome, 3);
}

/// Somebody who is no active member of a conversation cannot let members of it speak, and the
/// attempt changes nothing.
pub proof fn law_outsiders_cannot_grant_speech(
    store: Store,
    conversation_id: Id,
    user_id: Id,
    target_id: Id,
    speak: SpeakRequest,
    answers: Seq<(Env, Event)>,
)
    requires
        !store.is_active(conversation_id, user_id),
    ensures
        refused_as_outsider(
            outcome::<SetSpeak>(
                speak_start(user_id, conversation_id, target_id, speak),
                store,
                answers,
            ),
            store,
        ),
{
    reveal_with_fuel(outcome, 3);
}

/// Somebody who is no active member of a conversation cannot appoint members of it, and the attempt
/// changes nothing.
pub proof fn law_outsiders_cannot_appoint(
    store: Store,
    conversation_id: Id,
    user_id: Id,
    target_id: Id,
    role: RoleRequest,
    answers: Seq<(Env, Event)>,
)
    requires
        !store.is_active(conversation_id, user_id),
    ensures
        refused_as_outsider(
            outcome::<SetRole>(
                role_start(user_id, conversation_id, target_id, role),
                store,
                answers,
            ),
            store,
        ),
{
    reveal_with_fuel(outcome, 3);
}

/// Somebody who is no active member of a conversation cannot change its settings, and the attempt
/// changes nothing.
pub proof fn law_outsiders_cannot_configure(
    store: Store,
    conversation_id: Id,
    user_id: Id,
    settings: GroupSettingsRequest,
    env: Env,
    answers: Seq<(Env, Event)>,
)
    requires
        !store.is_active(conversation_id, user_id),
    ensures
        refused_as_outsider(
            outcome::<ChangeSettings>(
                settings_start(user_id, conversation_id, settings, env),
                store,
                answers,
            ),
            store,
        ),
{
    reveal_with_fuel(outcome, 3);
}

/// Somebody who is no active member of a conversation cannot hand it over, and the attempt changes
/// nothing.
pub proof fn law_outsiders_cannot_hand_over(
    store: Store,
    conversation_id: Id,
    user_id: Id,
    transfer: TransferRequest,
    env: Env,
    answers: Seq<(Env, Event)>,
)
    requires
        !store.is_active(conversation_id, user_id),
    ensures
        refused_as_outsider(
            outcome::<HandOver>(
                hand_over_start(user_id, conversation_id, transfer, env),
                store,
                answers,
            ),
            store,
        ),
{
    reveal_with_fuel(outcome, 3);
}

/// Somebody who is no active member of a conversation cannot dissolve it, and the attempt changes
/// nothing.
pub proof fn law_outsiders_cannot_dissolve(
    store: Store,
    conversation_id: Id,
    user_id: Id,
    answers: Seq<(Env, Event)>,
)
    requires
        !store.is_active(conversation_id, user_id),
    ensures
        refused_as_outsider(
            outcome::<DissolveGroup>(
                dissolve_group_start(user_id, conversation_id),
                store,
                answers,
            ),
            store,
        ),
{
    reveal_with_fuel(outcome, 3);
}

} // verus!
