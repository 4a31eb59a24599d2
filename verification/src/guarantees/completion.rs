//! Requests come to an end.
//!
//! The other promises are about requests that have ended. Here it is shown that there are answers
//! of the tables that lead a request to its end. Where a request asks for lists, they are an
//! argument: values that the tables may answer with.

use vstd::prelude::*;

use crate::clock::Timestamp;
use crate::entity::conversation::{self, TYPE_DIRECT, TYPE_GROUP};
use crate::entity::conversation_member::{self, Role};
use crate::entity::message;
use crate::flow::{ActionOf, ActionSpec, Env, Event, Flow, MemberChange, Step};
use crate::guarantees::creation::{direct_created, group_created, lemma_filter_from};
use crate::guarantees::groups::{handed_over, with_member_changed};
use crate::guarantees::membership::{all_joined, joined};
use crate::guarantees::sending::{is_repeated, seqs_are_reached};
use crate::ids::Id;
use crate::json::Json;
use crate::realtime::commands::{Command, CommandOf};
use crate::realtime::dialogue::{dialogue_start, Dialogue};
use crate::repo::creation::{
    conversations_of, direct_start, first_with_id, group_start, ids_of, new_direct, new_group,
    next_invitee, CreateDirect, CreateGroup,
};
use crate::repo::listing::{latest_first, law_latest_first_is_a_stable_sort, listing_next};
use crate::repo::sending::new_message;
use crate::repo::{ConversationWithMember, NewMessage};
use crate::routes::conversations::{
    create_conversation_start, list_conversations_start, looking_up, oldest, seen_by_member,
    show_next, CreateConversation, Listing,
};
use crate::routes::dto::is_other;
use crate::routes::groups::{
    dissolve_group_start, hand_over_start, settings_start, ChangeSettings, DissolveGroup, HandOver,
};
use crate::routes::members::{
    add_members_start, list_members_start, mute_start, remove_member_start, role_start,
    speak_start, AddMembers, ListMembers, MuteMember, RemoveMember, SetRole, SetSpeak,
};
use crate::routes::messages::{
    list_messages_start, mark_read_start, message_receipts_start, page_size, recall_message_start,
    requested_message, send_message_start, ListMessages, MarkRead, MessageReceipts, Recall,
    SendMessage,
};
use crate::routes::{
    AddMembersRequest, GroupSettingsRequest, MessageQuery, MuteRequest, ReadRequest, RoleRequest,
    SendMessageRequest, SpeakRequest, TransferRequest,
};
use crate::service::{create_message_start, recall_start, CreateMessage, RecallMessage};
use crate::store::{
    changed_conversation, changed_member, in_conversation, outcome, recalled, Store,
};

verus! {

/// Whether there are answers of the tables that lead a request to its end.
pub open spec fn ends<F: Flow>(
    step: Step<F::V, ActionSpec, <F::Output as View>::V>,
    store: Store,
) -> bool {
    exists|answers: Seq<(Env, Event)>| #[trigger] outcome::<F>(step, store, answers) is Some
}

/// The lists that the tables answer with.
pub struct Lists {
    /// The active memberships of the user whose request it is.
    pub own: Vec<conversation_member::Model>,
    /// Those of that user's conversations that are direct.
    pub direct: Vec<conversation::Model>,
    /// The other user's memberships in these.
    pub peer: Vec<conversation_member::Model>,
    /// The active memberships in a conversation, by what the table of memberships holds.
    pub members: spec_fn(Map<(Id, Id), conversation_member::Model>, Id) -> Vec<
        conversation_member::Model,
    >,
    /// The messages of a conversation before a sequence number, up to a limit.
    pub messages: spec_fn(Id, Option<i64>, u64) -> Vec<message::Model>,
}

impl Lists {
    /// Whether the tables may answer with the list of a conversation's members.
    pub open spec fn has_members(self, store: Store, conversation_id: Id) -> bool {
        store.lists_members(
            (self.members)(store.members, conversation_id)@,
            in_conversation(conversation_id),
        )
    }

    /// Whether the tables may answer with the page of a conversation's messages.
    pub open spec fn has_page(
        self,
        store: Store,
        conversation_id: Id,
        before_seq: Option<i64>,
        limit: u64,
    ) -> bool {
        store.is_page(
            (self.messages)(conversation_id, before_seq, limit)@,
            conversation_id,
            before_seq,
            limit,
        )
    }

    /// Whether the tables may answer with the three lists that tell whether two users share a
    /// direct conversation.
    pub open spec fn has_directs(self, store: Store, self_id: Id, other_id: Id) -> bool {
        &&& store.admits(ActionOf::MembershipsOf { user_id: self_id }, Event::Members(self.own))
        &&& store.admits(
            ActionOf::DirectAmong { conversation_ids: conversations_of(self.own@) },
            Event::Conversations(self.direct),
        )
        &&& store.admits(
            ActionOf::MembershipsIn {
                conversation_ids: ids_of(self.direct@),
                user_id: other_id,
            },
            Event::Members(self.peer),
        )
    }

    /// What the tables answer an action with.
    spec fn reply(self, store: Store, action: ActionSpec) -> Event {
        match action {
            ActionOf::FindMember { conversation_id, user_id } => Event::Member(
                store.active(conversation_id, user_id),
            ),
            ActionOf::FindMemberRow { conversation_id, user_id } => Event::Member(
                if store.members.contains_key((conversation_id, user_id)) {
                    Some(store.members[(conversation_id, user_id)])
                } else {
                    None
                },
            ),
            ActionOf::MembershipsOf { .. } => Event::Members(self.own),
            ActionOf::MembersOf { conversation_id } => Event::Members(
                (self.members)(store.members, conversation_id),
            ),
            ActionOf::MembershipsIn { .. } => Event::Members(self.peer),
            ActionOf::FindConversation { conversation_id } => Event::Conversation(
                if store.conversations.contains_key(conversation_id) {
                    Some(store.conversations[conversation_id])
                } else {
                    None
                },
            ),
            ActionOf::DirectAmong { .. } => Event::Conversations(self.direct),
            ActionOf::FindMessage { conversation_id, message_id } => Event::Message(
                if store.messages.contains_key(message_id)
                    && store.messages[message_id].conversation_id == conversation_id {
                    Some(store.messages[message_id])
                } else {
                    None
                },
            ),
            ActionOf::FindClientMessage { conversation_id, sender_id, client_msg_id } =>
                Event::Message(
                if exists|row: message::Model| #[trigger]
                    store.has_message(row) && Store::is_client_message(
                        row,
                        conversation_id,
                        sender_id,
                        client_msg_id,
                    ) {
                    Some(
                        choose|row: message::Model| #[trigger]
                            store.has_message(row) && Store::is_client_message(
                                row,
                                conversation_id,
                                sender_id,
                                client_msg_id,
                            ),
                    )
                } else {
                    None
                },
            ),
            ActionOf::MessagesBefore { conversation_id, before_seq, limit } => Event::Messages(
                (self.messages)(conversation_id, before_seq, limit),
            ),
            ActionOf::InsertConversation(row) => Event::Conversation(Some(row)),
            ActionOf::InsertMember(row) => Event::Member(Some(row)),
            ActionOf::InsertMessage(row) => Event::Message(Some(row)),
            ActionOf::UpdateMember { conversation_id, user_id, change } => Event::Member(
                Some(changed_member(store.members[(conversation_id, user_id)], change)),
            ),
            ActionOf::UpdateConversation { conversation_id, change } => Event::Conversation(
                Some(changed_conversation(store.conversations[conversation_id], change)),
            ),
            ActionOf::RecallMessage { message_id, at } => Event::Message(
                Some(recalled(store.messages[message_id], at)),
            ),
            ActionOf::EndMembership { conversation_id, user_id, .. } => Event::Affected(
                if store.is_active(conversation_id, user_id) {
                    1
                } else {
                    0
                },
            ),
            ActionOf::AllocateSeq { conversation_id, .. } => Event::Allocated(
                if store.conversations.contains_key(conversation_id) {
                    Some((store.conversations[conversation_id].next_seq + 1) as i64)
                } else {
                    None
                },
            ),
            ActionOf::DeleteMessages { .. } | ActionOf::DeleteMembers { .. }
            | ActionOf::DeleteConversation { .. } => Event::Affected(0),
            ActionOf::Announce { .. } | ActionOf::Push { .. } => Event::Done,
        }
    }
}

/// Whether a request ends after at most `n` answers.
spec fn runs<F: Flow>(
    step: Step<F::V, ActionSpec, <F::Output as View>::V>,
    store: Store,
    env: Env,
    lists: Lists,
    n: nat,
) -> bool
    decreases n,
{
    match step {
        Step::Done(_) => true,
        Step::Ask(state, action) => {
            let event = lists.reply(store, action);
            n > 0 && store.admits(action, event) && runs::<F>(
                F::step(state, env, event),
                store.after(action),
                env,
                lists,
                (n - 1) as nat,
            )
        },
    }
}

proof fn lemma_runs<F: Flow>(
    step: Step<F::V, ActionSpec, <F::Output as View>::V>,
    store: Store,
    env: Env,
    lists: Lists,
    n: nat,
)
    requires
        runs::<F>(step, store, env, lists, n),
    ensures
        ends::<F>(step, store),
    decreases n,
{
    match step {
        Step::Done(_) => {
            assert(outcome::<F>(step, store, Seq::empty()) is Some);
        },
        Step::Ask(state, action) => {
            let event = lists.reply(store, action);
            let next = F::step(state, env, event);
            lemma_runs::<F>(next, store.after(action), env, lists, (n - 1) as nat);
            let rest = choose|rest: Seq<(Env, Event)>| #[trigger]
                outcome::<F>(next, store.after(action), rest) is Some;
            let answers = seq![(env, event)] + rest;
            assert(answers.drop_first() == rest);
            assert(outcome::<F>(step, store, answers) is Some);
        },
    }
}

/// Creating a direct conversation comes to an end, with a new identifier at hand.
pub proof fn law_direct_creation_comes_to_an_end(
    store: Store,
    self_id: Id,
    other_id: Id,
    now: Timestamp,
    env: Env,
    lists: Lists,
)
    requires
        !store.conversations.contains_key(env.fresh_id),
        self_id != other_id ==> lists.has_directs(store, self_id, other_id),
    ensures
        ends::<CreateDirect>(direct_start(self_id, other_id, now), store),
{
    reveal_with_fuel(runs, 9);
    lemma_runs::<CreateDirect>(direct_start(self_id, other_id, now), store, env, lists, 9);
}

proof fn lemma_inviting_runs(
    store: Store,
    row: conversation::Model,
    owner_id: Id,
    member_ids: Vec<Id>,
    from: int,
    now: Timestamp,
    env: Env,
    lists: Lists,
)
    requires
        0 <= from <= member_ids@.len(),
    ensures
        runs::<CreateGroup>(
            CreateGroup::add_next(row, owner_id, member_ids, from, now),
            store,
            env,
            lists,
            (2 * (member_ids@.len() - from)) as nat,
        ),
    decreases member_ids@.len() - from,
{
    reveal_with_fuel(runs, 3);
    assert(member_ids.len() == member_ids@.len());
    lemma_filter_from(member_ids@, owner_id, from);
    let i = next_invitee(member_ids@, owner_id, from);
    if i < member_ids@.len() {
        let then = joined(store, row.id, member_ids@[i], Role::Member, now);
        lemma_inviting_runs(then, row, owner_id, member_ids, i + 1, now, env, lists);
        lemma_runs_longer::<CreateGroup>(
            CreateGroup::add_next(row, owner_id, member_ids, i + 1, now),
            then,
            env,
            lists,
            (2 * (member_ids@.len() - i - 1)) as nat,
            (2 * (member_ids@.len() - from - 1)) as nat,
        );
    }
}

proof fn lemma_runs_longer<F: Flow>(
    step: Step<F::V, ActionSpec, <F::Output as View>::V>,
    store: Store,
    env: Env,
    lists: Lists,
    n: nat,
    m: nat,
)
    requires
        runs::<F>(step, store, env, lists, n),
        n <= m,
    ensures
        runs::<F>(step, store, env, lists, m),
    decreases n,
{
    match step {
        Step::Done(_) => {},
        Step::Ask(state, action) => {
            lemma_runs_longer::<F>(
                F::step(state, env, lists.reply(store, action)),
                store.after(action),
                env,
                lists,
                (n - 1) as nat,
                (m - 1) as nat,
            );
        },
    }
}

/// Creating a group comes to an end, whoever is named, with an identifier that is new.
pub proof fn law_group_creation_comes_to_an_end(
    store: Store,
    owner_id: Id,
    member_ids: Vec<Id>,
    name: String,
    now: Timestamp,
    fresh_id: Id,
    env: Env,
    lists: Lists,
)
    requires
        !store.conversations.contains_key(fresh_id),
    ensures
        ends::<CreateGroup>(group_start(owner_id, member_ids, name, now, fresh_id), store),
{
    reveal_with_fuel(runs, 4);
    let row = new_group(fresh_id, name, owner_id, now);
    let then = joined(
        store.after(ActionOf::InsertConversation(row)),
        fresh_id,
        owner_id,
        Role::Owner,
        now,
    );
    lemma_inviting_runs(then, row, owner_id, member_ids, 0, now, env, lists);
    lemma_runs::<CreateGroup>(
        group_start(owner_id, member_ids, name, now, fresh_id),
        store,
        env,
        lists,
        (2 * member_ids@.len() + 3) as nat,
    );
}

proof fn lemma_message_is_taken(store: Store, new: NewMessage, env: Env)
    requires
        store.keyed(),
        seqs_are_reached(store),
        store.conversations.contains_key(new.conversation_id)
            ==> store.conversations[new.conversation_id].next_seq < i64::MAX,
        !store.messages.contains_key(env.fresh_id),
    ensures
        ({
            let seq = (store.conversations[new.conversation_id].next_seq + 1) as i64;
            let then = store.after(
                ActionOf::AllocateSeq { conversation_id: new.conversation_id, at: env.now },
            );
            store.conversations.contains_key(new.conversation_id) && !is_repeated(store, new)
                ==> then.takes_message(new_message(new, env.fresh_id, seq, env.now))
        }),
{
    let seq = (store.conversations[new.conversation_id].next_seq + 1) as i64;
    let row = new_message(new, env.fresh_id, seq, env.now);
    let then = store.after(
        ActionOf::AllocateSeq { conversation_id: new.conversation_id, at: env.now },
    );
    if store.conversations.contains_key(new.conversation_id) && !is_repeated(store, new) {
        assert forall|other: message::Model| #[trigger]
            then.has_message(other) && other.conversation_id
                == row.conversation_id implies other.seq != row.seq && !(row.sender_id is Some
            && row.client_msg_id is Some && Store::is_client_message(
            other,
            row.conversation_id,
            row.sender_id->0,
            row.client_msg_id->0@,
        )) by {
            assert(store.has_message(other));
        }
    }
}

/// Sending a message comes to an end, whether it is sent or refused, as long as its conversation
/// has sequence numbers left and with a new identifier at hand.
pub proof fn law_sending_comes_to_an_end(
    store: Store,
    new: NewMessage,
    env: Env,
    lists: Lists,
)
    requires
        store.keyed(),
        seqs_are_reached(store),
        store.conversations.contains_key(new.conversation_id)
            ==> store.conversations[new.conversation_id].next_seq < i64::MAX,
        !store.messages.contains_key(env.fresh_id),
        env.bus ==> lists.has_members(store, new.conversation_id),
    ensures
        ends::<CreateMessage>(create_message_start(new, env), store),
{
    lemma_message_is_taken(store, new, env);
    reveal_with_fuel(runs, 9);
    lemma_runs::<CreateMessage>(create_message_start(new, env), store, env, lists, 9);
}

/// Recalling a message comes to an end, whether it is recalled or refused.
pub proof fn law_recalling_comes_to_an_end(
    store: Store,
    user_id: Id,
    conversation_id: Id,
    message_id: Id,
    env: Env,
    lists: Lists,
)
    requires
        store.keyed(),
    ensures
        ends::<RecallMessage>(recall_start(user_id, conversation_id, message_id), store),
{
    reveal_with_fuel(runs, 5);
    lemma_runs::<RecallMessage>(
        recall_start(user_id, conversation_id, message_id),
        store,
        env,
        lists,
        5,
    );
}

/// Showing the history of a conversation comes to an end.
pub proof fn law_showing_history_comes_to_an_end(
    store: Store,
    user_id: Id,
    conversation_id: Id,
    query: MessageQuery,
    env: Env,
    lists: Lists,
)
    requires
        lists.has_page(store, conversation_id, query.before_seq, page_size(query.limit)),
    ensures
        ends::<ListMessages>(list_messages_start(user_id, conversation_id, query), store),
{
    reveal_with_fuel(runs, 5);
    lemma_runs::<ListMessages>(
        list_messages_start(user_id, conversation_id, query),
        store,
        env,
        lists,
        5,
    );
}

proof fn lemma_storing_runs(
    store: Store,
    row: conversation::Model,
    new: NewMessage,
    env: Env,
    lists: Lists,
    n: nat,
)
    requires
        store.keyed(),
        seqs_are_reached(store),
        store.conversations.contains_key(new.conversation_id),
        store.conversations[new.conversation_id].next_seq < i64::MAX,
        !store.messages.contains_key(env.fresh_id),
        lists.has_members(store, new.conversation_id),
        n >= 7,
    ensures
        runs::<SendMessage>(
            SendMessage::creating(
                new.conversation_id,
                CreateMessage::store(new, row, env),
            ),
            store,
            env,
            lists,
            n,
        ),
{
    lemma_message_is_taken(store, new, env);
    let step = SendMessage::creating(
        new.conversation_id,
        CreateMessage::store(new, row, env),
    );
    assert(runs::<SendMessage>(step, store, env, lists, 7)) by {
        reveal_with_fuel(runs, 8);
    }
    lemma_runs_longer::<SendMessage>(step, store, env, lists, 7, n);
}

/// A request to send a message comes to an end, the members being told of a new one.
pub proof fn law_requests_to_send_come_to_an_end(
    store: Store,
    user_id: Id,
    conversation_id: Id,
    input: SendMessageRequest,
    env: Env,
    lists: Lists,
)
    requires
        store.keyed(),
        seqs_are_reached(store),
        store.conversations.contains_key(conversation_id)
            ==> store.conversations[conversation_id].next_seq < i64::MAX,
        !store.messages.contains_key(env.fresh_id),
        lists.has_members(store, conversation_id),
    ensures
        ends::<SendMessage>(send_message_start(user_id, conversation_id, input, env), store),
{
    let new = requested_message(user_id, conversation_id, input);
    if store.conversations.contains_key(conversation_id) {
        let row = store.conversations[conversation_id];
        lemma_storing_runs(store, row, new, env, lists, 7);
        lemma_storing_runs(store, row, new, env, lists, 8);
    }
    let start = send_message_start(user_id, conversation_id, input, env);
    assert(runs::<SendMessage>(start, store, env, lists, 12)) by {
        reveal_with_fuel(runs, 6);
    }
    lemma_runs::<SendMessage>(start, store, env, lists, 12);
}

proof fn lemma_dialogue_storing_runs(
    store: Store,
    request_id: Option<String>,
    client_msg_id: Option<String>,
    row: conversation::Model,
    new: NewMessage,
    env: Env,
    lists: Lists,
    n: nat,
)
    requires
        store.keyed(),
        seqs_are_reached(store),
        store.conversations.contains_key(new.conversation_id),
        store.conversations[new.conversation_id].next_seq < i64::MAX,
        !store.messages.contains_key(env.fresh_id),
        lists.has_members(store, new.conversation_id),
        n >= 7,
    ensures
        runs::<Dialogue>(
            Dialogue::sending(
                request_id,
                client_msg_id,
                new.conversation_id,
                CreateMessage::store(new, row, env),
            ),
            store,
            env,
            lists,
            n,
        ),
{
    lemma_message_is_taken(store, new, env);
    let step = Dialogue::sending(
        request_id,
        client_msg_id,
        new.conversation_id,
        CreateMessage::store(new, row, env),
    );
    assert(runs::<Dialogue>(step, store, env, lists, 7)) by {
        reveal_with_fuel(runs, 8);
    }
    lemma_runs_longer::<Dialogue>(step, store, env, lists, 7, n);
}

/// What a client asks for over a connection comes to an end.
pub proof fn law_dialogues_come_to_an_end(
    store: Store,
    user_id: Id,
    command: Command,
    env: Env,
    lists: Lists,
)
    requires
        store.keyed(),
        seqs_are_reached(store),
        !store.messages.contains_key(env.fresh_id),
        command matches CommandOf::Send { conversation_id, .. } ==> lists.has_members(
            store,
            conversation_id,
        ) && (store.conversations.contains_key(conversation_id)
            ==> store.conversations[conversation_id].next_seq < i64::MAX),
        command matches CommandOf::Read { conversation_id, seq } ==> lists.has_members(
            store,
            conversation_id,
        ) && lists.has_members(
            with_member_changed(store, conversation_id, user_id, MemberChange::LastRead(seq)),
            conversation_id,
        ),
        command matches CommandOf::Typing { conversation_id, .. } ==> lists.has_members(
            store,
            conversation_id,
        ),
    ensures
        ends::<Dialogue>(dialogue_start(user_id, command, env), store),
{
    let start = dialogue_start(user_id, command, env);
    match command {
        CommandOf::Send {
            request_id,
            conversation_id,
            kind,
            content,
            reply_to_id,
            client_msg_id,
        } => {
            let new = NewMessage {
                conversation_id,
                sender_id: user_id,
                kind,
                content,
                reply_to_id,
                client_msg_id,
            };
            if store.conversations.contains_key(conversation_id) {
                let row = store.conversations[conversation_id];
                lemma_dialogue_storing_runs(
                    store,
                    request_id,
                    client_msg_id,
                    row,
                    new,
                    env,
                    lists,
                    7,
                );
                lemma_dialogue_storing_runs(
                    store,
                    request_id,
                    client_msg_id,
                    row,
                    new,
                    env,
                    lists,
                    8,
                );
            }
            assert(runs::<Dialogue>(start, store, env, lists, 10)) by {
                reveal_with_fuel(runs, 4);
            }
        },
        _ => {
            assert(runs::<Dialogue>(start, store, env, lists, 10)) by {
                reveal_with_fuel(runs, 5);
            }
        },
    }
    lemma_runs::<Dialogue>(start, store, env, lists, 10);
}

/// Moving a read mark comes to an end.
pub proof fn law_marking_as_read_comes_to_an_end(
    store: Store,
    user_id: Id,
    conversation_id: Id,
    input: ReadRequest,
    env: Env,
    lists: Lists,
)
    ensures
        ends::<MarkRead>(mark_read_start(user_id, conversation_id, input), store),
{
    reveal_with_fuel(runs, 4);
    lemma_runs::<MarkRead>(mark_read_start(user_id, conversation_id, input), store, env, lists, 4);
}

/// A request to recall a message comes to an end, the members being told of it.
pub proof fn law_requests_to_recall_come_to_an_end(
    store: Store,
    user_id: Id,
    conversation_id: Id,
    message_id: Id,
    env: Env,
    lists: Lists,
)
    requires
        store.keyed(),
        lists.has_members(store, conversation_id),
    ensures
        ends::<Recall>(recall_message_start(user_id, conversation_id, message_id), store),
{
    reveal_with_fuel(runs, 8);
    lemma_runs::<Recall>(
        recall_message_start(user_id, conversation_id, message_id),
        store,
        env,
        lists,
        8,
    );
}

/// Showing who has read a message comes to an end.
pub proof fn law_showing_receipts_comes_to_an_end(
    store: Store,
    user_id: Id,
    conversation_id: Id,
    message_id: Id,
    env: Env,
    lists: Lists,
)
    requires
        lists.has_members(store, conversation_id),
    ensures
        ends::<MessageReceipts>(
            message_receipts_start(user_id, conversation_id, message_id),
            store,
        ),
{
    reveal_with_fuel(runs, 6);
    lemma_runs::<MessageReceipts>(
        message_receipts_start(user_id, conversation_id, message_id),
        store,
        env,
        lists,
        6,
    );
}

/// Showing the members of a conversation comes to an end.
pub proof fn law_showing_members_comes_to_an_end(
    store: Store,
    user_id: Id,
    conversation_id: Id,
    env: Env,
    lists: Lists,
)
    requires
        lists.has_members(store, conversation_id),
    ensures
        ends::<ListMembers>(list_members_start(user_id, conversation_id), store),
{
    reveal_with_fuel(runs, 5);
    lemma_runs::<ListMembers>(list_members_start(user_id, conversation_id), store, env, lists, 5);
}

/// Leaving a conversation, or removing a member, comes to an end.
pub proof fn law_removing_comes_to_an_end(
    store: Store,
    user_id: Id,
    conversation_id: Id,
    target_id: Id,
    env: Env,
    lists: Lists,
)
    ensures
        ends::<RemoveMember>(remove_member_start(user_id, conversation_id, target_id, env), store),
{
    reveal_with_fuel(runs, 5);
    lemma_runs::<RemoveMember>(
        remove_member_start(user_id, conversation_id, target_id, env),
        store,
        env,
        lists,
        5,
    );
}

/// Muting a member comes to an end.
pub proof fn law_muting_comes_to_an_end(
    store: Store,
    user_id: Id,
    conversation_id: Id,
    target_id: Id,
    input: MuteRequest,
    env: Env,
    lists: Lists,
)
    ensures
        ends::<MuteMember>(mute_start(user_id, conversation_id, target_id, input), store),
{
    reveal_with_fuel(runs, 8);
    lemma_runs::<MuteMember>(
        mute_start(user_id, conversation_id, target_id, input),
        store,
        env,
        lists,
        8,
    );
}

/// Granting a member leave to speak comes to an end.
pub proof fn law_granting_speech_comes_to_an_end(
    store: Store,
    user_id: Id,
    conversation_id: Id,
    target_id: Id,
    input: SpeakRequest,
    env: Env,
    lists: Lists,
)
    ensures
        ends::<SetSpeak>(speak_start(user_id, conversation_id, target_id, input), store),
{
    reveal_with_fuel(runs, 7);
    lemma_runs::<SetSpeak>(
        speak_start(user_id, conversation_id, target_id, input),
        store,
        env,
        lists,
        7,
    );
}

/// Appointing a member comes to an end.
pub proof fn law_appointing_comes_to_an_end(
    store: Store,
    user_id: Id,
    conversation_id: Id,
    target_id: Id,
    input: RoleRequest,
    env: Env,
    lists: Lists,
)
    requires
        lists.has_members(
            with_member_changed(
                store,
                conversation_id,
                target_id,
                MemberChange::Role(Role::of(input.role)),
            ),
            conversation_id,
        ),
    ensures
        ends::<SetRole>(role_start(user_id, conversation_id, target_id, input), store),
{
    reveal_with_fuel(runs, 8);
    lemma_runs::<SetRole>(
        role_start(user_id, conversation_id, target_id, input),
        store,
        env,
        lists,
        8,
    );
}

/// Changing the settings of a group comes to an end.
pub proof fn law_configuring_comes_to_an_end(
    store: Store,
    user_id: Id,
    conversation_id: Id,
    input: GroupSettingsRequest,
    env: Env,
    lists: Lists,
)
    requires
        store.keyed(),
    ensures
        ends::<ChangeSettings>(settings_start(user_id, conversation_id, input, env), store),
{
    reveal_with_fuel(runs, 6);
    lemma_runs::<ChangeSettings>(
        settings_start(user_id, conversation_id, input, env),
        store,
        env,
        lists,
        6,
    );
}

/// Handing a group over comes to an end.
pub proof fn law_handing_over_comes_to_an_end(
    store: Store,
    user_id: Id,
    conversation_id: Id,
    input: TransferRequest,
    env: Env,
    lists: Lists,
)
    requires
        store.keyed(),
        lists.has_members(
            handed_over(store, conversation_id, input.user_id, env.now).0,
            conversation_id,
        ),
    ensures
        ends::<HandOver>(hand_over_start(user_id, conversation_id, input, env), store),
{
    reveal_with_fuel(runs, 11);
    lemma_runs::<HandOver>(
        hand_over_start(user_id, conversation_id, input, env),
        store,
        env,
        lists,
        11,
    );
}

/// Dissolving a group comes to an end.
pub proof fn law_dissolving_comes_to_an_end(
    store: Store,
    user_id: Id,
    conversation_id: Id,
    env: Env,
    lists: Lists,
)
    requires
        lists.has_members(store, conversation_id),
    ensures
        ends::<DissolveGroup>(dissolve_group_start(user_id, conversation_id), store),
{
    reveal_with_fuel(runs, 9);
    lemma_runs::<DissolveGroup>(
        dissolve_group_start(user_id, conversation_id),
        store,
        env,
        lists,
        9,
    );
}

proof fn lemma_adding_runs(
    store: Store,
    conversation_id: Id,
    user_ids: Vec<Id>,
    from: int,
    now: Timestamp,
    env: Env,
    lists: Lists,
)
    requires
        0 <= from <= user_ids@.len(),
    ensures
        runs::<AddMembers>(
            AddMembers::add_next(conversation_id, user_ids, from, now),
            store,
            env,
            lists,
            (2 * (user_ids@.len() - from)) as nat,
        ),
    decreases user_ids@.len() - from,
{
    reveal_with_fuel(runs, 3);
    assert(user_ids.len() == user_ids@.len());
    if from < user_ids@.len() {
        let then = joined(store, conversation_id, user_ids@[from], Role::Member, now);
        lemma_adding_runs(then, conversation_id, user_ids, from + 1, now, env, lists);
    }
}

/// Inviting members comes to an end, whoever is named.
pub proof fn law_inviting_comes_to_an_end(
    store: Store,
    user_id: Id,
    conversation_id: Id,
    input: AddMembersRequest,
    env: Env,
    lists: Lists,
)
    ensures
        ends::<AddMembers>(add_members_start(user_id, conversation_id, input, env), store),
{
    reveal_with_fuel(runs, 3);
    lemma_adding_runs(store, conversation_id, input.user_ids, 0, env.now, env, lists);
    lemma_runs::<AddMembers>(
        add_members_start(user_id, conversation_id, input, env),
        store,
        env,
        lists,
        (2 * input.user_ids@.len() + 2) as nat,
    );
}

proof fn lemma_showing_runs(
    store: Store,
    pending: Seq<ConversationWithMember>,
    items: Seq<Json>,
    env: Env,
    lists: Lists,
)
    requires
        forall|id: Id| #[trigger] lists.has_members(store, id),
        forall|id: Id| #[trigger] lists.has_page(store, id, None, 1),
    ensures
        runs::<Listing>(show_next(pending, items), store, env, lists, 2 * pending.len()),
    decreases pending.len(),
{
    reveal_with_fuel(runs, 3);
    if pending.len() > 0 {
        let id = pending[0].conversation.id;
        assert(lists.has_members(store, id));
        assert(lists.has_page(store, id, None, 1));
        let members = (lists.members)(store.members, id);
        let last = (lists.messages)(id, None, 1);
        let rest = pending.drop_first();
        match seen_by_member(pending[0], members@, oldest(last@)) {
            Ok(item) => {
                lemma_showing_runs(store, rest, items.push(item), env, lists);
            },
            Err(_) => {},
        }
    }
}

proof fn lemma_looking_up_runs(
    store: Store,
    pending: Seq<conversation_member::Model>,
    rows: Seq<ConversationWithMember>,
    env: Env,
    lists: Lists,
)
    requires
        forall|id: Id| #[trigger] lists.has_members(store, id),
        forall|id: Id| #[trigger] lists.has_page(store, id, None, 1),
    ensures
        runs::<Listing>(
            looking_up(listing_next(pending, rows)),
            store,
            env,
            lists,
            3 * pending.len() + 2 * rows.len(),
        ),
    decreases pending.len(),
{
    reveal_with_fuel(runs, 2);
    if pending.len() == 0 {
        law_latest_first_is_a_stable_sort(rows);
        lemma_showing_runs(store, latest_first(rows), seq![], env, lists);
    } else {
        let rest = pending.drop_first();
        let id = pending[0].conversation_id;
        if store.conversations.contains_key(id) {
            let row = ConversationWithMember {
                conversation: store.conversations[id],
                member: pending[0],
            };
            lemma_looking_up_runs(store, rest, rows.push(row), env, lists);
        } else {
            lemma_looking_up_runs(store, rest, rows, env, lists);
            lemma_runs_longer::<Listing>(
                looking_up(listing_next(rest, rows)),
                store,
                env,
                lists,
                3 * rest.len() + 2 * rows.len(),
                (3 * pending.len() + 2 * rows.len() - 1) as nat,
            );
        }
    }
}

/// Listing the conversations of a user comes to an end.
pub proof fn law_listing_comes_to_an_end(store: Store, user_id: Id, env: Env, lists: Lists)
    requires
        store.admits(ActionOf::MembershipsOf { user_id }, Event::Members(lists.own)),
        forall|id: Id| #[trigger] lists.has_members(store, id),
        forall|id: Id| #[trigger] lists.has_page(store, id, None, 1),
    ensures
        ends::<Listing>(list_conversations_start(user_id), store),
{
    reveal_with_fuel(runs, 2);
    lemma_looking_up_runs(store, lists.own@, seq![], env, lists);
    lemma_runs::<Listing>(
        list_conversations_start(user_id),
        store,
        env,
        lists,
        3 * lists.own@.len() + 1,
    );
}

proof fn lemma_group_is_shown(
    store: Store,
    user_id: Id,
    row: conversation::Model,
    member_ids: Vec<Id>,
    from: int,
    now: Timestamp,
    env: Env,
    lists: Lists,
)
    requires
        0 <= from <= member_ids@.len(),
        lists.has_members(
            all_joined(
                store,
                row.id,
                member_ids@.skip(from).filter(is_other(user_id)),
                now,
            ),
            row.id,
        ),
    ensures
        runs::<CreateConversation>(
            CreateConversation::creating_group(
                user_id,
                CreateGroup::add_next(row, user_id, member_ids, from, now),
            ),
            store,
            env,
            lists,
            (2 * (member_ids@.len() - from) + 2) as nat,
        ),
    decreases member_ids@.len() - from,
{
    reveal_with_fuel(runs, 3);
    assert(member_ids.len() == member_ids@.len());
    lemma_filter_from(member_ids@, user_id, from);
    let i = next_invitee(member_ids@, user_id, from);
    if i < member_ids@.len() {
        let then = joined(store, row.id, member_ids@[i], Role::Member, now);
        let rest = member_ids@.skip(i + 1).filter(is_other(user_id));
        assert((seq![member_ids@[i]] + rest).drop_first() == rest);
        lemma_group_is_shown(then, user_id, row, member_ids, i + 1, now, env, lists);
        lemma_runs_longer::<CreateConversation>(
            CreateConversation::creating_group(
                user_id,
                CreateGroup::add_next(row, user_id, member_ids, i + 1, now),
            ),
            then,
            env,
            lists,
            (2 * (member_ids@.len() - i - 1) + 2) as nat,
            (2 * (member_ids@.len() - from - 1) + 2) as nat,
        );
    }
}

proof fn lemma_direct_is_shown(
    store: Store,
    user_id: Id,
    other_id: Id,
    env: Env,
    lists: Lists,
    n: nat,
)
    requires
        !store.conversations.contains_key(env.fresh_id),
        lists.has_members(
            direct_created(
                store,
                new_direct(env.fresh_id, env.now),
                user_id,
                other_id,
                env.now,
            ),
            env.fresh_id,
        ),
        n >= 7,
    ensures
        runs::<CreateConversation>(
            CreateConversation::creating_direct(
                user_id,
                CreateDirect::create(user_id, other_id, env.now, env.fresh_id),
            ),
            store,
            env,
            lists,
            n,
        ),
{
    let step = CreateConversation::creating_direct(
        user_id,
        CreateDirect::create(user_id, other_id, env.now, env.fresh_id),
    );
    assert(runs::<CreateConversation>(step, store, env, lists, 7)) by {
        reveal_with_fuel(runs, 8);
    }
    lemma_runs_longer::<CreateConversation>(step, store, env, lists, 7, n);
}

proof fn lemma_conversation_is_shown(
    store: Store,
    user_id: Id,
    row: conversation::Model,
    created: bool,
    env: Env,
    lists: Lists,
    n: nat,
)
    requires
        lists.has_members(store, row.id),
        n >= 2,
    ensures
        runs::<CreateConversation>(
            CreateConversation::creating_direct(user_id, Step::Done(Ok((row, created)))),
            store,
            env,
            lists,
            n,
        ),
{
    reveal_with_fuel(runs, 3);
}

/// Creating a conversation comes to an end, the conversation being shown to its creator, with a
/// new identifier at hand.
pub proof fn law_creating_comes_to_an_end(
    store: Store,
    user_id: Id,
    kind: Seq<char>,
    member_ids: Vec<Id>,
    name: Option<String>,
    env: Env,
    lists: Lists,
)
    requires
        !store.conversations.contains_key(env.fresh_id),
        kind == TYPE_DIRECT@ && member_ids@.len() > 0 ==> {
            &&& forall|id: Id| #[trigger] lists.has_members(store, id)
            &&& lists.has_directs(store, user_id, member_ids@[0])
            &&& lists.has_members(
                direct_created(
                    store,
                    new_direct(env.fresh_id, env.now),
                    user_id,
                    member_ids@[0],
                    env.now,
                ),
                env.fresh_id,
            )
        },
        kind == TYPE_GROUP@ && name is Some ==> lists.has_members(
            group_created(
                store,
                new_group(env.fresh_id, name->0, user_id, env.now),
                user_id,
                member_ids@,
                env.now,
            ),
            env.fresh_id,
        ),
    ensures
        ends::<CreateConversation>(
            create_conversation_start(user_id, kind, member_ids, name, env),
            store,
        ),
{
    let start = create_conversation_start(user_id, kind, member_ids, name, env);
    if kind == TYPE_GROUP@ && kind != TYPE_DIRECT@ && name is Some {
        let row = new_group(env.fresh_id, name->0, user_id, env.now);
        let then = joined(
            store.after(ActionOf::InsertConversation(row)),
            env.fresh_id,
            user_id,
            Role::Owner,
            env.now,
        );
        assert(member_ids@.skip(0) == member_ids@);
        lemma_group_is_shown(then, user_id, row, member_ids, 0, env.now, env, lists);
        assert(runs::<CreateConversation>(start, store, env, lists, 2 * member_ids@.len() + 5)) by {
            reveal_with_fuel(runs, 4);
        }
        lemma_runs::<CreateConversation>(start, store, env, lists, 2 * member_ids@.len() + 5);
    } else {
        if kind == TYPE_DIRECT@ && member_ids@.len() > 0 {
            let other_id = member_ids@[0];
            lemma_direct_is_shown(store, user_id, other_id, env, lists, 7);
            lemma_direct_is_shown(store, user_id, other_id, env, lists, 8);
            lemma_direct_is_shown(store, user_id, other_id, env, lists, 9);
            if lists.peer@.len() > 0 {
                let id = lists.peer@[0].conversation_id;
                match first_with_id(lists.direct@, id) {
                    Some(row) => {
                        lemma_conversation_is_shown(store, user_id, row, false, env, lists, 7);
                    },
                    None => {},
                }
            }
        }
        assert(runs::<CreateConversation>(start, store, env, lists, 10)) by {
            reveal_with_fuel(runs, 4);
        }
        lemma_runs::<CreateConversation>(start, store, env, lists, 10);
    }
}

} // verus!
