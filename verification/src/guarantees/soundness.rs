//! What every request keeps true of the tables.

use vstd::prelude::*;

use crate::clock::Timestamp;
use crate::entity::conversation::{self, TYPE_DIRECT, TYPE_GROUP};
use crate::entity::conversation_member::Role;
use crate::entity::message;
use crate::error::AppError;
use crate::flow::{ConversationChange, Env, Event, MemberChange};
use crate::guarantees::access::access_result;
use crate::guarantees::creation::{
    direct_result, group_created, is_direct_between, is_shown_to_creator,
    law_direct_conversations_are_requested, law_direct_conversations_stay_unique,
    law_groups_are_requested, members_are_placed, one_direct_per_pair, share_direct,
    with_conversation,
};
use crate::guarantees::groups::{
    admin_result, is_dissolved, law_groups_are_dissolved_by_the_owner,
    law_groups_are_handed_over_by_the_owner, law_members_are_appointed_by_the_owner,
    law_members_are_muted_by_managers, law_settings_are_changed_by_managers,
    law_speech_is_granted_by_managers, promoted, with_conversation_changed, with_member_changed,
};
use crate::guarantees::membership::{
    all_joined, joined, law_members_are_invited_by_managers,
    law_members_leave_or_are_removed_by_managers, left,
};
use crate::guarantees::reading::{
    counters_are_natural, law_read_marks_move_forward, law_read_marks_move_without_an_answer,
    law_typing_leaves_no_trace, read_up_to,
};
use crate::guarantees::recall::{law_messages_are_recalled_by_their_sender, with_recalled};
use crate::guarantees::sending::{
    law_clients_are_answered, law_new_messages_come_last, law_only_those_who_may_speak_send, sent,
    seqs_are_reached, stored,
};
use crate::ids::Id;
use crate::realtime::commands::{Command, CommandOf};
use crate::realtime::dialogue::{dialogue_start, Dialogue};
use crate::repo::creation::new_group;
use crate::repo::NewMessage;
use crate::routes::conversations::{create_conversation_start, CreateConversation};
use crate::routes::dto::is_other;
use crate::routes::groups::{
    dissolve_group_start, hand_over_start, settings_start, ChangeSettings, DissolveGroup, HandOver,
};
use crate::routes::members::{
    add_members_start, mute_start, remove_member_start, role_start, speak_start, AddMembers,
    MuteMember, RemoveMember, SetRole, SetSpeak,
};
use crate::routes::messages::{
    mark_read_start, recall_message_start, requested_message, send_message_start, MarkRead, Recall,
    SendMessage,
};
use crate::routes::{
    AddMembersRequest, GroupSettingsRequest, MuteRequest, ReadRequest, RoleRequest,
    SendMessageRequest, SpeakRequest, TransferRequest,
};
use crate::store::{outcome, Store};

verus! {

/// Every message belongs to a conversation.
pub open spec fn messages_are_placed(store: Store) -> bool {
    forall|id: Id| #[trigger]
        store.messages.contains_key(id) ==> store.conversations.contains_key(
            store.messages[id].conversation_id,
        )
}

/// What every request keeps true: keys are in order and unique, memberships and messages belong to
/// conversations, no counter is negative, no message has a sequence number that its conversation
/// has not reached, and two users share one direct conversation at most.
pub open spec fn is_sound(store: Store) -> bool {
    &&& store.keyed()
    &&& members_are_placed(store)
    &&& messages_are_placed(store)
    &&& counters_are_natural(store)
    &&& seqs_are_reached(store)
    &&& one_direct_per_pair(store)
}

/// Empty tables are sound.
pub proof fn law_empty_tables_are_sound()
    ensures
        is_sound(
            Store { conversations: Map::empty(), members: Map::empty(), messages: Map::empty() },
        ),
{
}

/// Whether every active membership in a direct conversation was one before.
spec fn directs_shrink(store: Store, end: Store) -> bool {
    forall|id: Id, user_id: Id|
        end.conversations.contains_key(id) && end.conversations[id].kind is Direct
            && #[trigger] end.is_active(id, user_id) ==> store.conversations.contains_key(id)
            && store.conversations[id].kind is Direct && store.is_active(id, user_id)
}

proof fn lemma_directs_shrink(store: Store, end: Store)
    requires
        store.keyed(),
        end.keyed(),
        one_direct_per_pair(store),
        directs_shrink(store, end),
    ensures
        one_direct_per_pair(end),
{
    assert forall|r: conversation::Model, s: conversation::Model, a: Id, b: Id| #[trigger]
        is_direct_between(end, r, a, b) && #[trigger] is_direct_between(end, s, a, b) && a
            != b implies r == s by {
        assert(end.is_active(r.id, a) && end.is_active(r.id, b));
        assert(end.is_active(s.id, a) && end.is_active(s.id, b));
        assert(is_direct_between(store, store.conversations[r.id], a, b));
        assert(is_direct_between(store, store.conversations[s.id], a, b));
    }
}

proof fn lemma_same_messages(store: Store, end: Store)
    requires
        store.keyed(),
        end.messages == store.messages,
        forall|id: Id| #[trigger]
            end.conversations.contains_key(id) ==> end.conversations[id].id == id,
        forall|key: (Id, Id)| #[trigger]
            end.members.contains_key(key) ==> end.members[key].conversation_id == key.0
                && end.members[key].user_id == key.1,
    ensures
        end.keyed(),
        forall|row: message::Model| #[trigger] end.has_message(row) <==> store.has_message(row),
{
    assert forall|row: message::Model| #[trigger] end.has_message(row) <==> store.has_message(
        row,
    ) by {}
    assert forall|a: message::Model, b: message::Model| #[trigger]
        end.has_message(a) && #[trigger] end.has_message(b) && a.conversation_id
            == b.conversation_id && a.id != b.id implies a.seq != b.seq && !(a.sender_id is Some
        && a.sender_id == b.sender_id && a.client_msg_id is Some && b.client_msg_id is Some
        && a.client_msg_id->0@ == b.client_msg_id->0@) by {
        assert(store.has_message(a) && store.has_message(b));
    }
}

proof fn lemma_member_changed(store: Store, conversation_id: Id, user_id: Id, change: MemberChange)
    requires
        is_sound(store),
        store.is_active(conversation_id, user_id),
        !(change is Rejoin),
        change matches MemberChange::LastRead(seq) ==> seq >= 0,
    ensures
        is_sound(with_member_changed(store, conversation_id, user_id, change)),
{
    let end = with_member_changed(store, conversation_id, user_id, change);
    lemma_same_messages(store, end);
    lemma_directs_shrink(store, end);
}

proof fn lemma_conversation_changed(store: Store, conversation_id: Id, change: ConversationChange)
    requires
        is_sound(store),
        store.conversations.contains_key(conversation_id),
    ensures
        is_sound(with_conversation_changed(store, conversation_id, change)),
{
    let end = with_conversation_changed(store, conversation_id, change);
    lemma_same_messages(store, end);
    assert forall|id: Id, user_id: Id|
        end.conversations.contains_key(id) && end.conversations[id].kind is Direct
            && #[trigger] end.is_active(id, user_id) implies store.conversations.contains_key(id)
        && store.conversations[id].kind is Direct && store.is_active(id, user_id) by {}
    lemma_directs_shrink(store, end);
}

proof fn lemma_joined(store: Store, conversation_id: Id, user_id: Id, role: Role, now: Timestamp)
    requires
        is_sound(store),
        store.conversations.contains_key(conversation_id),
        store.conversations[conversation_id].kind is Group,
    ensures
        is_sound(joined(store, conversation_id, user_id, role, now)),
{
    let end = joined(store, conversation_id, user_id, role, now);
    lemma_same_messages(store, end);
    assert forall|id: Id, other: Id|
        end.conversations.contains_key(id) && end.conversations[id].kind is Direct
            && #[trigger] end.is_active(id, other) implies store.conversations.contains_key(id)
        && store.conversations[id].kind is Direct && store.is_active(id, other) by {
        assert(id != conversation_id);
    }
    lemma_directs_shrink(store, end);
}

proof fn lemma_all_joined(store: Store, conversation_id: Id, users: Seq<Id>, now: Timestamp)
    requires
        is_sound(store),
        store.conversations.contains_key(conversation_id),
        store.conversations[conversation_id].kind is Group,
    ensures
        is_sound(all_joined(store, conversation_id, users, now)),
    decreases users.len(),
{
    if users.len() > 0 {
        lemma_joined(store, conversation_id, users[0], Role::Member, now);
        lemma_all_joined(
            joined(store, conversation_id, users[0], Role::Member, now),
            conversation_id,
            users.drop_first(),
            now,
        );
    }
}

proof fn lemma_left(store: Store, conversation_id: Id, user_id: Id, now: Timestamp)
    requires
        is_sound(store),
    ensures
        is_sound(left(store, conversation_id, user_id, now)),
{
    let end = left(store, conversation_id, user_id, now);
    lemma_same_messages(store, end);
    lemma_directs_shrink(store, end);
}

proof fn lemma_dissolved(store: Store, conversation_id: Id, end: Store)
    requires
        is_sound(store),
        is_dissolved(end, store, conversation_id),
    ensures
        is_sound(end),
{
    assert forall|row: message::Model| #[trigger] end.has_message(row) implies store.has_message(
        row,
    ) && row.conversation_id != conversation_id by {}
    assert(end.keyed()) by {
        assert forall|a: message::Model, b: message::Model| #[trigger]
            end.has_message(a) && #[trigger] end.has_message(b) && a.conversation_id
                == b.conversation_id && a.id != b.id implies a.seq != b.seq && !(a.sender_id is Some
            && a.sender_id == b.sender_id && a.client_msg_id is Some && b.client_msg_id is Some
            && a.client_msg_id->0@ == b.client_msg_id->0@) by {
            assert(store.has_message(a) && store.has_message(b));
        }
    }
    assert forall|id: Id, user_id: Id|
        end.conversations.contains_key(id) && end.conversations[id].kind is Direct
            && #[trigger] end.is_active(id, user_id) implies store.conversations.contains_key(id)
        && store.conversations[id].kind is Direct && store.is_active(id, user_id) by {
        assert(end.members.contains_key((id, user_id)));
    }
    lemma_directs_shrink(store, end);
}

proof fn lemma_with_conversation(store: Store, row: conversation::Model)
    requires
        is_sound(store),
        !store.conversations.contains_key(row.id),
        row.next_seq == 0,
    ensures
        is_sound(with_conversation(store, row)),
{
    let end = with_conversation(store, row);
    lemma_same_messages(store, end);
    assert forall|id: Id, user_id: Id|
        end.conversations.contains_key(id) && end.conversations[id].kind is Direct
            && #[trigger] end.is_active(id, user_id) implies store.conversations.contains_key(id)
        && store.conversations[id].kind is Direct && store.is_active(id, user_id) by {
        assert(store.members.contains_key((id, user_id)));
    }
    lemma_directs_shrink(store, end);
    assert forall|m: message::Model| #[trigger]
        end.has_message(m) && end.conversations.contains_key(m.conversation_id) implies m.seq
        <= end.conversations[m.conversation_id].next_seq by {
        assert(store.has_message(m));
        assert(store.messages.contains_key(m.id));
    }
}

proof fn lemma_direct(
    store: Store,
    self_id: Id,
    other_id: Id,
    now: Timestamp,
    end: Store,
    result: Result<(conversation::Model, bool), AppError>,
)
    requires
        is_sound(store),
        self_id != other_id,
        direct_result(store, self_id, other_id, now, end, result),
    ensures
        is_sound(end),
{
    law_direct_conversations_stay_unique(store, self_id, other_id, now, end, result);
    if !share_direct(store, self_id, other_id) {
        let row = result->Ok_0.0;
        lemma_with_conversation(store, row);
        lemma_same_messages(with_conversation(store, row), end);
    }
}

proof fn lemma_group(
    store: Store,
    row: conversation::Model,
    owner_id: Id,
    member_ids: Seq<Id>,
    now: Timestamp,
)
    requires
        is_sound(store),
        !store.conversations.contains_key(row.id),
        row.next_seq == 0,
        row.kind is Group,
    ensures
        is_sound(group_created(store, row, owner_id, member_ids, now)),
{
    lemma_with_conversation(store, row);
    lemma_joined(with_conversation(store, row), row.id, owner_id, Role::Owner, now);
    lemma_all_joined(
        joined(with_conversation(store, row), row.id, owner_id, Role::Owner, now),
        row.id,
        member_ids.filter(is_other(owner_id)),
        now,
    );
}

proof fn lemma_stored(
    store: Store,
    new: NewMessage,
    end: Store,
    result: Result<(message::Model, bool), AppError>,
)
    requires
        is_sound(store),
        stored(store, new, end, result),
    ensures
        is_sound(end),
{
    law_new_messages_come_last(store, new, end, result);
    if result is Ok && result->Ok_0.1 {
        assert forall|id: Id, user_id: Id|
            end.conversations.contains_key(id) && end.conversations[id].kind is Direct
                && #[trigger] end.is_active(id, user_id) implies store.conversations.contains_key(
            id,
        ) && store.conversations[id].kind is Direct && store.is_active(id, user_id) by {
            assert(store.is_active(id, user_id));
        }
        lemma_directs_shrink(store, end);
        assert forall|id: Id| #[trigger]
            end.messages.contains_key(id) implies end.conversations.contains_key(
            end.messages[id].conversation_id,
        ) by {
            if id != result->Ok_0.0.id {
                assert(store.messages.contains_key(id));
            }
        }
    }
}

proof fn lemma_recalled(store: Store, message_id: Id, now: Timestamp)
    requires
        is_sound(store),
        store.messages.contains_key(message_id),
    ensures
        is_sound(with_recalled(store, message_id, now)),
{
    let end = with_recalled(store, message_id, now);
    assert forall|row: message::Model| #[trigger] end.has_message(row) implies store.has_message(
        store.messages[row.id],
    ) && store.messages[row.id].seq == row.seq && store.messages[row.id].conversation_id
        == row.conversation_id && store.messages[row.id].sender_id == row.sender_id
        && store.messages[row.id].client_msg_id == row.client_msg_id by {}
    assert(end.keyed()) by {
        assert forall|a: message::Model, b: message::Model| #[trigger]
            end.has_message(a) && #[trigger] end.has_message(b) && a.conversation_id
                == b.conversation_id && a.id != b.id implies a.seq != b.seq && !(a.sender_id is Some
            && a.sender_id == b.sender_id && a.client_msg_id is Some && b.client_msg_id is Some
            && a.client_msg_id->0@ == b.client_msg_id->0@) by {
            assert(store.has_message(store.messages[a.id]));
            assert(store.has_message(store.messages[b.id]));
        }
    }
    assert(one_direct_per_pair(end)) by {
        assert forall|id: Id, user_id: Id|
            end.conversations.contains_key(id) && end.conversations[id].kind is Direct
                && #[trigger] end.is_active(id, user_id) implies store.conversations.contains_key(
            id,
        ) && store.conversations[id].kind is Direct && store.is_active(id, user_id) by {
            assert(store.is_active(id, user_id));
        }
        lemma_directs_shrink(store, end);
    }
    assert(messages_are_placed(end)) by {
        assert forall|id: Id| #[trigger]
            end.messages.contains_key(id) implies end.conversations.contains_key(
            end.messages[id].conversation_id,
        ) by {
            assert(store.messages.contains_key(id));
        }
    }
}

/// Creating a conversation keeps the tables sound.
pub proof fn law_creating_keeps_the_tables_sound(
    store: Store,
    user_id: Id,
    kind: Seq<char>,
    member_ids: Vec<Id>,
    name: Option<String>,
    env: Env,
    answers: Seq<(Env, Event)>,
)
    requires
        is_sound(store),
    ensures
        outcome::<CreateConversation>(
            create_conversation_start(user_id, kind, member_ids, name, env),
            store,
            answers,
        ) matches Some((end, _)) ==> is_sound(end),
{
    let run = outcome::<CreateConversation>(
        create_conversation_start(user_id, kind, member_ids, name, env),
        store,
        answers,
    );
    if run is Some {
        let (end, result) = run->0;
        if kind == TYPE_DIRECT@ {
            law_direct_conversations_are_requested(store, user_id, member_ids, name, env, answers);
            if member_ids@.len() > 0 && member_ids@[0] != user_id {
                let (row, is_new) = choose|row: conversation::Model, is_new: bool|
                    #![trigger is_shown_to_creator(end, row, user_id, is_new, result)]
                    is_shown_to_creator(
                        end,
                        row,
                        user_id,
                        is_new,
                        result,
                    ) && direct_result(
                        store,
                        user_id,
                        member_ids@[0],
                        env.now,
                        end,
                        Ok((row, is_new)),
                    );
                lemma_direct(
                    store,
                    user_id,
                    member_ids@[0],
                    env.now,
                    end,
                    Ok((row, is_new)),
                );
            }
        } else if kind == TYPE_GROUP@ {
            law_groups_are_requested(store, user_id, member_ids, name, env, answers);
            if name is Some && member_ids@.len() > 0 {
                let row = new_group(
                    env.fresh_id,
                    name->0,
                    user_id,
                    env.now,
                );
                lemma_group(store, row, user_id, member_ids@, env.now);
            }
        }
    }
}

/// Sending a message keeps the tables sound.
pub proof fn law_sending_keeps_the_tables_sound(
    store: Store,
    conversation_id: Id,
    user_id: Id,
    input: SendMessageRequest,
    env: Env,
    answers: Seq<(Env, Event)>,
)
    requires
        is_sound(store),
    ensures
        outcome::<SendMessage>(
            send_message_start(user_id, conversation_id, input, env),
            store,
            answers,
        ) matches Some((end, _)) ==> is_sound(end),
{
    law_only_those_who_may_speak_send(store, conversation_id, user_id, input, env, answers);
    let run = outcome::<SendMessage>(
        send_message_start(user_id, conversation_id, input, env),
        store,
        answers,
    );
    let new = requested_message(user_id, conversation_id, input);
    if run is Some {
        let (end, _) = run->0;
        assert forall|created: Result<(message::Model, bool), AppError>| #[trigger]
            sent(store, new, end, created) implies is_sound(end) by {
            if end != store {
                lemma_stored(store, new, end, created);
            }
        }
    }
}

/// Whatever a client asks for over a connection keeps the tables sound.
pub proof fn law_clients_keep_the_tables_sound(
    store: Store,
    user_id: Id,
    command: Command,
    env: Env,
    answers: Seq<(Env, Event)>,
)
    requires
        is_sound(store),
    ensures
        outcome::<Dialogue>(dialogue_start(user_id, command, env), store, answers) matches Some(
            (end, _),
        ) ==> is_sound(end),
{
    let run = outcome::<Dialogue>(dialogue_start(user_id, command, env), store, answers);
    match command {
        CommandOf::Send {
            request_id,
            conversation_id,
            kind,
            content,
            reply_to_id,
            client_msg_id,
        } => {
            law_clients_are_answered(store, user_id, command, env, answers);
            let new = NewMessage {
                conversation_id,
                sender_id: user_id,
                kind,
                content,
                reply_to_id,
                client_msg_id,
            };
            if run is Some {
                let (end, _) = run->0;
                assert forall|created: Result<(message::Model, bool), AppError>| #[trigger]
                    sent(store, new, end, created) implies is_sound(end) by {
                    if end != store {
                        lemma_stored(store, new, end, created);
                    }
                }
            }
        },
        CommandOf::Read { conversation_id, seq } => {
            law_read_marks_move_without_an_answer(
                store,
                user_id,
                conversation_id,
                seq,
                env,
                answers,
            );
            lemma_read(store, conversation_id, user_id, seq);
        },
        CommandOf::Typing { conversation_id, started } => {
            law_typing_leaves_no_trace(
                store,
                user_id,
                conversation_id,
                started,
                env,
                answers,
            );
        },
        _ => {},
    }
}

proof fn lemma_read(store: Store, conversation_id: Id, user_id: Id, seq: i64)
    requires
        is_sound(store),
    ensures
        store.is_active(conversation_id, user_id) ==> is_sound(
            read_up_to(store, conversation_id, user_id, seq),
        ),
{
    if store.is_active(conversation_id, user_id)
        && store.members[(conversation_id, user_id)].last_read_seq < seq {
        assert(store.members.contains_key((conversation_id, user_id)));
        lemma_member_changed(store, conversation_id, user_id, MemberChange::LastRead(seq));
    }
}

/// Moving a read mark keeps the tables sound.
pub proof fn law_reading_keeps_the_tables_sound(
    store: Store,
    conversation_id: Id,
    user_id: Id,
    input: ReadRequest,
    answers: Seq<(Env, Event)>,
)
    requires
        is_sound(store),
    ensures
        outcome::<MarkRead>(
            mark_read_start(user_id, conversation_id, input),
            store,
            answers,
        ) matches Some((end, _)) ==> is_sound(end),
{
    law_read_marks_move_forward(store, conversation_id, user_id, input, answers);
    lemma_read(store, conversation_id, user_id, input.seq);
}

/// Recalling a message keeps the tables sound.
pub proof fn law_recalling_keeps_the_tables_sound(
    store: Store,
    conversation_id: Id,
    user_id: Id,
    message_id: Id,
    answers: Seq<(Env, Event)>,
)
    requires
        is_sound(store),
    ensures
        outcome::<Recall>(
            recall_message_start(user_id, conversation_id, message_id),
            store,
            answers,
        ) matches Some((end, _)) ==> is_sound(end),
{
    law_messages_are_recalled_by_their_sender(
        store,
        conversation_id,
        user_id,
        message_id,
        answers,
    );
    if store.messages.contains_key(message_id) {
        lemma_recalled(store, message_id, answers[2].0.now);
    }
}

/// Inviting members keeps the tables sound.
pub proof fn law_inviting_keeps_the_tables_sound(
    store: Store,
    conversation_id: Id,
    user_id: Id,
    input: AddMembersRequest,
    env: Env,
    answers: Seq<(Env, Event)>,
)
    requires
        is_sound(store),
    ensures
        outcome::<AddMembers>(
            add_members_start(user_id, conversation_id, input, env),
            store,
            answers,
        ) matches Some((end, _)) ==> is_sound(end),
{
    law_members_are_invited_by_managers(store, conversation_id, user_id, input, env, answers);
    if access_result(store, conversation_id, user_id) is Ok
        && store.conversations[conversation_id].kind is Group {
        lemma_all_joined(store, conversation_id, input.user_ids@, answers[1].0.now);
    }
}

/// Removing a member keeps the tables sound.
pub proof fn law_removing_keeps_the_tables_sound(
    store: Store,
    conversation_id: Id,
    user_id: Id,
    target_id: Id,
    env: Env,
    answers: Seq<(Env, Event)>,
)
    requires
        is_sound(store),
    ensures
        outcome::<RemoveMember>(
            remove_member_start(user_id, conversation_id, target_id, env),
            store,
            answers,
        ) matches Some((end, _)) ==> is_sound(end),
{
    law_members_leave_or_are_removed_by_managers(
        store,
        conversation_id,
        user_id,
        target_id,
        env,
        answers,
    );
    lemma_left(store, conversation_id, target_id, answers[1].0.now);
}

/// Muting a member keeps the tables sound.
pub proof fn law_muting_keeps_the_tables_sound(
    store: Store,
    conversation_id: Id,
    user_id: Id,
    target_id: Id,
    input: MuteRequest,
    answers: Seq<(Env, Event)>,
)
    requires
        is_sound(store),
    ensures
        outcome::<MuteMember>(
            mute_start(user_id, conversation_id, target_id, input),
            store,
            answers,
        ) matches Some((end, _)) ==> is_sound(end),
{
    law_members_are_muted_by_managers(
        store,
        conversation_id,
        user_id,
        target_id,
        input,
        answers,
    );
    if store.is_active(conversation_id, target_id) {
        lemma_member_changed(
            store,
            conversation_id,
            target_id,
            MemberChange::MutedUntil(input.muted_until),
        );
    }
}

/// Giving leave to speak keeps the tables sound.
pub proof fn law_granting_speech_keeps_the_tables_sound(
    store: Store,
    conversation_id: Id,
    user_id: Id,
    target_id: Id,
    input: SpeakRequest,
    answers: Seq<(Env, Event)>,
)
    requires
        is_sound(store),
    ensures
        outcome::<SetSpeak>(
            speak_start(user_id, conversation_id, target_id, input),
            store,
            answers,
        ) matches Some((end, _)) ==> is_sound(end),
{
    law_speech_is_granted_by_managers(
        store,
        conversation_id,
        user_id,
        target_id,
        input,
        answers,
    );
    if store.is_active(conversation_id, target_id) {
        lemma_member_changed(
            store,
            conversation_id,
            target_id,
            MemberChange::CanSpeak(input.can_speak),
        );
    }
}

/// Appointing a member keeps the tables sound.
pub proof fn law_appointing_keeps_the_tables_sound(
    store: Store,
    conversation_id: Id,
    user_id: Id,
    target_id: Id,
    input: RoleRequest,
    answers: Seq<(Env, Event)>,
)
    requires
        is_sound(store),
    ensures
        outcome::<SetRole>(
            role_start(user_id, conversation_id, target_id, input),
            store,
            answers,
        ) matches Some((end, _)) ==> is_sound(end),
{
    law_members_are_appointed_by_the_owner(
        store,
        conversation_id,
        user_id,
        target_id,
        input,
        answers,
    );
    if store.is_active(conversation_id, target_id) {
        lemma_member_changed(
            store,
            conversation_id,
            target_id,
            MemberChange::Role(Role::of(input.role)),
        );
    }
}

/// Changing the settings of a group keeps the tables sound.
pub proof fn law_configuring_keeps_the_tables_sound(
    store: Store,
    conversation_id: Id,
    user_id: Id,
    input: GroupSettingsRequest,
    env: Env,
    answers: Seq<(Env, Event)>,
)
    requires
        is_sound(store),
    ensures
        outcome::<ChangeSettings>(
            settings_start(user_id, conversation_id, input, env),
            store,
            answers,
        ) matches Some((end, _)) ==> is_sound(end),
{
    law_settings_are_changed_by_managers(store, conversation_id, user_id, input, env, answers);
    if store.conversations.contains_key(conversation_id) {
        lemma_conversation_changed(
            store,
            conversation_id,
            ConversationChange::Settings {
                only_admins_speak: input.only_admins_speak,
                notice: input.notice,
                at: answers[1].0.now,
            },
        );
    }
}

/// Handing a group over keeps the tables sound, even where it fails half-way.
pub proof fn law_handing_over_keeps_the_tables_sound(
    store: Store,
    conversation_id: Id,
    user_id: Id,
    input: TransferRequest,
    env: Env,
    answers: Seq<(Env, Event)>,
)
    requires
        is_sound(store),
    ensures
        outcome::<HandOver>(
            hand_over_start(user_id, conversation_id, input, env),
            store,
            answers,
        ) matches Some((end, _)) ==> is_sound(end),
{
    law_groups_are_handed_over_by_the_owner(store, conversation_id, user_id, input, env, answers);
    let new_owner = input.user_id;
    let now = answers[1].0.now;
    if admin_result(store, conversation_id, user_id) is Ok {
        let demoted = match store.conversations[conversation_id].owner_id {
            Some(old_owner) => with_member_changed(
                store,
                conversation_id,
                old_owner,
                MemberChange::Role(Role::Admin),
            ),
            None => store,
        };
        match store.conversations[conversation_id].owner_id {
            Some(old_owner) => {
                if store.is_active(conversation_id, old_owner) {
                    lemma_member_changed(
                        store,
                        conversation_id,
                        old_owner,
                        MemberChange::Role(Role::Admin),
                    );
                    if store.is_active(conversation_id, new_owner) {
                        lemma_promoted(demoted, conversation_id, new_owner, now);
                    }
                }
            },
            None => {
                if store.is_active(conversation_id, new_owner) {
                    lemma_promoted(store, conversation_id, new_owner, now);
                }
            },
        }
    }
}

proof fn lemma_promoted(store: Store, conversation_id: Id, new_owner: Id, now: Timestamp)
    requires
        is_sound(store),
        store.is_active(conversation_id, new_owner),
        store.conversations.contains_key(conversation_id),
    ensures
        is_sound(promoted(store, conversation_id, new_owner, now)),
{
    lemma_member_changed(store, conversation_id, new_owner, MemberChange::Role(Role::Owner));
    lemma_conversation_changed(
        with_member_changed(store, conversation_id, new_owner, MemberChange::Role(Role::Owner)),
        conversation_id,
        ConversationChange::Owner { owner_id: new_owner, at: now },
    );
}

/// Dissolving a group keeps the tables sound.
pub proof fn law_dissolving_keeps_the_tables_sound(
    store: Store,
    conversation_id: Id,
    user_id: Id,
    answers: Seq<(Env, Event)>,
)
    requires
        is_sound(store),
    ensures
        outcome::<DissolveGroup>(
            dissolve_group_start(user_id, conversation_id),
            store,
            answers,
        ) matches Some((end, _)) ==> is_sound(end),
{
    law_groups_are_dissolved_by_the_owner(store, conversation_id, user_id, answers);
    let run = outcome::<DissolveGroup>(
        dissolve_group_start(user_id, conversation_id),
        store,
        answers,
    );
    if run is Some {
        let (end, _) = run->0;
        if is_dissolved(end, store, conversation_id) {
            lemma_dissolved(store, conversation_id, end);
        }
    }
}

} // verus!
