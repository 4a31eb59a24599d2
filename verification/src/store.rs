//! What requests do to the tables.
//!
//! The tables are a mathematical value here, a [`Store`]. It says which answers an action may get
//! from them and how it changes them. A request that runs alone against the tables then has an
//! [`outcome`], and what is promised of requests is stated of their outcomes.

use vstd::prelude::*;

use crate::clock::Timestamp;
use crate::entity::message::Status;
use crate::entity::{conversation, conversation_member, message};
use crate::error::AppError;
use crate::flow::{ActionOf, ActionSpec, ConversationChange, Env, Event, Flow, MemberChange, Step};
use crate::ids::Id;

verus! {

/// The contents of the tables.
pub struct Store {
    /// The conversations, by their identifier.
    pub conversations: Map<Id, conversation::Model>,
    /// The memberships, by conversation and user.
    pub members: Map<(Id, Id), conversation_member::Model>,
    /// The messages, by their identifier.
    pub messages: Map<Id, message::Model>,
}

/// A membership after a change.
pub open spec fn changed_member(
    row: conversation_member::Model,
    change: MemberChange,
) -> conversation_member::Model {
    match change {
        MemberChange::Rejoin(role) => conversation_member::Model { role, left_at: None, ..row },
        MemberChange::LastRead(seq) => conversation_member::Model { last_read_seq: seq, ..row },
        MemberChange::MutedUntil(until) => conversation_member::Model { muted_until: until, ..row },
        MemberChange::CanSpeak(can_speak) => conversation_member::Model { can_speak, ..row },
        MemberChange::Role(role) => conversation_member::Model { role, ..row },
    }
}

/// A conversation after a change.
pub open spec fn changed_conversation(
    row: conversation::Model,
    change: ConversationChange,
) -> conversation::Model {
    match change {
        ConversationChange::Settings { only_admins_speak, notice, at } => conversation::Model {
            only_admins_speak: match only_admins_speak {
                Some(value) => value,
                None => row.only_admins_speak,
            },
            notice: match notice {
                Some(value) => value,
                None => row.notice,
            },
            updated_at: at,
            ..row
        },
        ConversationChange::Owner { owner_id, at } => conversation::Model {
            owner_id: Some(owner_id),
            updated_at: at,
            ..row
        },
    }
}

/// The memberships of a user.
pub open spec fn of_user(user_id: Id) -> spec_fn(conversation_member::Model) -> bool {
    |row: conversation_member::Model| row.user_id == user_id
}

/// The memberships in a conversation.
pub open spec fn in_conversation(
    conversation_id: Id,
) -> spec_fn(conversation_member::Model) -> bool {
    |row: conversation_member::Model| row.conversation_id == conversation_id
}

/// The memberships of a user in any of the conversations.
pub open spec fn of_user_in(
    user_id: Id,
    conversation_ids: Seq<Id>,
) -> spec_fn(conversation_member::Model) -> bool {
    |row: conversation_member::Model|
        row.user_id == user_id && conversation_ids.contains(row.conversation_id)
}

impl Store {
    /// Whether a user is an active member of a conversation.
    pub open spec fn is_active(self, conversation_id: Id, user_id: Id) -> bool {
        self.members.contains_key((conversation_id, user_id))
            && self.members[(conversation_id, user_id)].left_at is None
    }

    /// The active membership of a user in a conversation.
    pub open spec fn active(self, conversation_id: Id, user_id: Id) -> Option<
        conversation_member::Model,
    > {
        if self.is_active(conversation_id, user_id) {
            Some(self.members[(conversation_id, user_id)])
        } else {
            None
        }
    }

    /// Whether a row is among the active memberships.
    pub open spec fn has_active(self, row: conversation_member::Model) -> bool {
        self.active(row.conversation_id, row.user_id) == Some(row)
    }

    /// Whether a row is among the conversations.
    pub open spec fn has_conversation(self, row: conversation::Model) -> bool {
        self.conversations.contains_key(row.id) && self.conversations[row.id] == row
    }

    /// Whether a row is among the messages.
    pub open spec fn has_message(self, row: message::Model) -> bool {
        self.messages.contains_key(row.id) && self.messages[row.id] == row
    }

    /// Whether a message is the one that a sender gave an identifier in a conversation.
    pub open spec fn is_client_message(
        row: message::Model,
        conversation_id: Id,
        sender_id: Id,
        client_msg_id: Seq<char>,
    ) -> bool {
        row.conversation_id == conversation_id && row.sender_id == Some(sender_id)
            && row.client_msg_id is Some && row.client_msg_id->0@ == client_msg_id
    }

    /// Whether a message is in a conversation and, where a sequence number is given, before it.
    pub open spec fn is_before(
        row: message::Model,
        conversation_id: Id,
        before: Option<i64>,
    ) -> bool {
        row.conversation_id == conversation_id && (before is Some ==> row.seq < before->0)
    }

    /// Whether the rows are a page of the history: messages of the conversation before the given
    /// sequence number, the newest first, as many as the limit allows, and none left out that is
    /// newer than one shown.
    pub open spec fn is_page(
        self,
        rows: Seq<message::Model>,
        conversation_id: Id,
        before: Option<i64>,
        limit: u64,
    ) -> bool {
        &&& rows.len() <= limit
        &&& forall|i: int|
            0 <= i < rows.len() ==> self.has_message(#[trigger] rows[i]) && Store::is_before(
                rows[i],
                conversation_id,
                before,
            )
        &&& forall|i: int, j: int| 0 <= i < j < rows.len() ==> rows[i].seq > rows[j].seq
        &&& forall|row: message::Model| #[trigger]
            self.has_message(row) && Store::is_before(row, conversation_id, before)
                && !rows.contains(row) ==> rows.len() == limit && forall|i: int|
                0 <= i < rows.len() ==> row.seq < #[trigger] rows[i].seq
    }

    /// Whether the rows are the active memberships that belong to the given ones, each once.
    pub open spec fn lists_members(
        self,
        rows: Seq<conversation_member::Model>,
        wanted: spec_fn(conversation_member::Model) -> bool,
    ) -> bool {
        &&& rows.no_duplicates()
        &&& forall|row: conversation_member::Model|
            #![trigger rows.contains(row)]
            #![trigger self.has_active(row)]
            rows.contains(row) <==> self.has_active(row) && wanted(row)
    }

    /// Whether the tables may answer an action with an event.
    pub open spec fn admits(self, action: ActionSpec, event: Event) -> bool {
        match action {
            ActionOf::FindMember { conversation_id, user_id } => event == Event::Member(
                self.active(conversation_id, user_id),
            ),
            ActionOf::FindMemberRow { conversation_id, user_id } => event == Event::Member(
                if self.members.contains_key((conversation_id, user_id)) {
                    Some(self.members[(conversation_id, user_id)])
                } else {
                    None
                },
            ),
            ActionOf::MembershipsOf { user_id } => event is Members && self.lists_members(
                event->Members_0@,
                of_user(user_id),
            ),
            ActionOf::MembersOf { conversation_id } => event is Members && self.lists_members(
                event->Members_0@,
                in_conversation(conversation_id),
            ),
            ActionOf::MembershipsIn { conversation_ids, user_id } => event is Members
                && self.lists_members(
                event->Members_0@,
                of_user_in(user_id, conversation_ids),
            ),
            ActionOf::FindConversation { conversation_id } => event == Event::Conversation(
                if self.conversations.contains_key(conversation_id) {
                    Some(self.conversations[conversation_id])
                } else {
                    None
                },
            ),
            ActionOf::DirectAmong { conversation_ids } => event is Conversations && {
                let rows = event->Conversations_0@;
                &&& rows.no_duplicates()
                &&& forall|row: conversation::Model|
                    #![trigger rows.contains(row)]
                    #![trigger self.has_conversation(row)]
                    rows.contains(row) <==> self.has_conversation(row) && row.kind is Direct
                        && conversation_ids.contains(row.id)
            },
            ActionOf::FindMessage { conversation_id, message_id } => event == Event::Message(
                if self.messages.contains_key(message_id)
                    && self.messages[message_id].conversation_id == conversation_id {
                    Some(self.messages[message_id])
                } else {
                    None
                },
            ),
            ActionOf::FindClientMessage { conversation_id, sender_id, client_msg_id } =>
                match event {
                Event::Message(Some(row)) => self.has_message(row) && Store::is_client_message(
                    row,
                    conversation_id,
                    sender_id,
                    client_msg_id,
                ),
                Event::Message(None) => forall|row: message::Model| #[trigger]
                    self.has_message(row) ==> !Store::is_client_message(
                        row,
                        conversation_id,
                        sender_id,
                        client_msg_id,
                    ),
                _ => false,
            },
            ActionOf::MessagesBefore { conversation_id, before_seq, limit } => event is Messages
                && self.is_page(event->Messages_0@, conversation_id, before_seq, limit),
            ActionOf::InsertConversation(row) => !self.conversations.contains_key(row.id)
                && event == Event::Conversation(Some(row)),
            ActionOf::InsertMember(row) => !self.members.contains_key(
                (row.conversation_id, row.user_id),
            ) && event == Event::Member(Some(row)),
            ActionOf::InsertMessage(row) => self.takes_message(row) && event == Event::Message(
                Some(row),
            ),
            ActionOf::UpdateMember { conversation_id, user_id, change } =>
                self.members.contains_key((conversation_id, user_id)) && event == Event::Member(
                Some(changed_member(self.members[(conversation_id, user_id)], change)),
            ),
            ActionOf::UpdateConversation { conversation_id, change } =>
                self.conversations.contains_key(conversation_id) && event == Event::Conversation(
                Some(changed_conversation(self.conversations[conversation_id], change)),
            ),
            ActionOf::RecallMessage { message_id, at } => self.messages.contains_key(message_id)
                && event == Event::Message(Some(recalled(self.messages[message_id], at))),
            ActionOf::EndMembership { conversation_id, user_id, at } => event == Event::Affected(
                if self.is_active(conversation_id, user_id) {
                    1
                } else {
                    0
                },
            ),
            ActionOf::AllocateSeq { conversation_id, at } =>
                if self.conversations.contains_key(conversation_id) {
                self.conversations[conversation_id].next_seq < i64::MAX && event
                    == Event::Allocated(
                    Some((self.conversations[conversation_id].next_seq + 1) as i64),
                )
            } else {
                event == Event::Allocated(None)
            },
            ActionOf::DeleteMessages { conversation_id } => event is Affected,
            ActionOf::DeleteMembers { conversation_id } => event is Affected,
            ActionOf::DeleteConversation { conversation_id } => event is Affected,
            ActionOf::Announce { topic, payload, at } => event is Done || event is Failed,
            ActionOf::Push { user_ids, text } => event is Done,
        }
    }

    /// Whether a message can be added: its identifier is new, and so are its sequence number in
    /// the conversation and the sender's identifier for it.
    pub open spec fn takes_message(self, row: message::Model) -> bool {
        &&& !self.messages.contains_key(row.id)
        &&& forall|other: message::Model| #[trigger]
            self.has_message(other) && other.conversation_id == row.conversation_id ==> other.seq
                != row.seq && !(row.sender_id is Some && row.client_msg_id is Some
                && Store::is_client_message(
                other,
                row.conversation_id,
                row.sender_id->0,
                row.client_msg_id->0@,
            ))
    }

    /// The tables after an action.
    pub open spec fn after(self, action: ActionSpec) -> Store {
        match action {
            ActionOf::InsertConversation(row) => Store {
                conversations: self.conversations.insert(row.id, row),
                ..self
            },
            ActionOf::InsertMember(row) => Store {
                members: self.members.insert((row.conversation_id, row.user_id), row),
                ..self
            },
            ActionOf::InsertMessage(row) => Store {
                messages: self.messages.insert(row.id, row),
                ..self
            },
            ActionOf::UpdateMember { conversation_id, user_id, change } => Store {
                members: self.members.insert(
                    (conversation_id, user_id),
                    changed_member(self.members[(conversation_id, user_id)], change),
                ),
                ..self
            },
            ActionOf::UpdateConversation { conversation_id, change } => Store {
                conversations: self.conversations.insert(
                    conversation_id,
                    changed_conversation(self.conversations[conversation_id], change),
                ),
                ..self
            },
            ActionOf::RecallMessage { message_id, at } => Store {
                messages: self.messages.insert(message_id, recalled(self.messages[message_id], at)),
                ..self
            },
            ActionOf::EndMembership { conversation_id, user_id, at } =>
                if self.is_active(conversation_id, user_id) {
                Store {
                    members: self.members.insert(
                        (conversation_id, user_id),
                        conversation_member::Model {
                            left_at: Some(at),
                            ..self.members[(conversation_id, user_id)]
                        },
                    ),
                    ..self
                }
            } else {
                self
            },
            ActionOf::AllocateSeq { conversation_id, at } =>
                if self.conversations.contains_key(conversation_id) {
                Store {
                    conversations: self.conversations.insert(
                        conversation_id,
                        conversation::Model {
                            next_seq: (self.conversations[conversation_id].next_seq + 1) as i64,
                            updated_at: at,
                            ..self.conversations[conversation_id]
                        },
                    ),
                    ..self
                }
            } else {
                self
            },
            ActionOf::DeleteMessages { conversation_id } => Store {
                messages: Map::new(
                    |id: Id|
                        self.messages.contains_key(id) && self.messages[id].conversation_id
                            != conversation_id,
                    |id: Id| self.messages[id],
                ),
                ..self
            },
            ActionOf::DeleteMembers { conversation_id } => Store {
                members: Map::new(
                    |key: (Id, Id)| self.members.contains_key(key) && key.0 != conversation_id,
                    |key: (Id, Id)| self.members[key],
                ),
                ..self
            },
            ActionOf::DeleteConversation { conversation_id } => Store {
                conversations: self.conversations.remove(conversation_id),
                ..self
            },
            _ => self,
        }
    }

    /// The rows stand under their own keys, and no two messages of a conversation share a
    /// sequence number, or a sender's identifier.
    pub open spec fn keyed(self) -> bool {
        &&& forall|id: Id| #[trigger]
            self.conversations.contains_key(id) ==> self.conversations[id].id == id
        &&& forall|key: (Id, Id)| #[trigger]
            self.members.contains_key(key) ==> self.members[key].conversation_id == key.0
                && self.members[key].user_id == key.1
        &&& forall|id: Id| #[trigger] self.messages.contains_key(id) ==> self.messages[id].id == id
        &&& forall|a: message::Model, b: message::Model| #[trigger]
            self.has_message(a) && #[trigger] self.has_message(b) && a.conversation_id
                == b.conversation_id && a.id != b.id ==> a.seq != b.seq && !(a.sender_id is Some
                && a.sender_id == b.sender_id && a.client_msg_id is Some && b.client_msg_id is Some
                && a.client_msg_id->0@ == b.client_msg_id->0@)
    }
}

/// A message after it was recalled.
pub open spec fn recalled(row: message::Model, at: Timestamp) -> message::Model {
    message::Model { status: Status::Recalled, recalled_at: Some(at), ..row }
}

/// How a request that runs alone ends: with which tables, and with which result. Nothing where
/// the answers are not such as the tables give, or do not lead to the end.
pub open spec fn outcome<F: Flow>(
    step: Step<F::V, ActionSpec, <F::Output as View>::V>,
    store: Store,
    answers: Seq<(Env, Event)>,
) -> Option<(Store, Result<<F::Output as View>::V, AppError>)>
    decreases answers.len(),
{
    match step {
        Step::Done(result) => if answers.len() == 0 {
            Some((store, result))
        } else {
            None
        },
        Step::Ask(state, action) => if answers.len() > 0 && store.admits(action, answers[0].1) {
            outcome::<F>(
                F::step(state, answers[0].0, answers[0].1),
                store.after(action),
                answers.drop_first(),
            )
        } else {
            None
        },
    }
}

/// The sequence number of a conversation never goes back as long as the conversation is there,
/// whatever is done to the tables by whatever request; so a number that was given out is never
/// given out again.
pub proof fn law_sequence_numbers_only_grow(
    store: Store,
    action: ActionSpec,
    event: Event,
    conversation_id: Id,
)
    requires
        store.admits(action, event),
        store.conversations.contains_key(conversation_id),
        action != (ActionSpec::DeleteConversation { conversation_id }),
    ensures
        store.after(action).conversations.contains_key(conversation_id),
        store.after(action).conversations[conversation_id].next_seq
            >= store.conversations[conversation_id].next_seq,
        action matches ActionOf::AllocateSeq { conversation_id: asked, at } && asked
            == conversation_id ==> event == Event::Allocated(
            Some(store.after(action).conversations[conversation_id].next_seq),
        ) && store.after(action).conversations[conversation_id].next_seq
            == store.conversations[conversation_id].next_seq + 1,
{
}

/// Every action that the tables answer keeps the rows under their keys and the keys unique.
pub proof fn law_actions_keep_the_keys(store: Store, action: ActionSpec, event: Event)
    requires
        store.keyed(),
        store.admits(action, event),
    ensures
        store.after(action).keyed(),
{
    let next = store.after(action);
    assert forall|a: message::Model, b: message::Model| #[trigger]
        next.has_message(a) && #[trigger] next.has_message(b) && a.conversation_id
            == b.conversation_id && a.id != b.id implies a.seq != b.seq && !(a.sender_id is Some
        && a.sender_id == b.sender_id && a.client_msg_id is Some && b.client_msg_id is Some
        && a.client_msg_id->0@ == b.client_msg_id->0@) by {
        match action {
            ActionOf::RecallMessage { message_id, at } => {
                let a0 = store.messages[a.id];
                let b0 = store.messages[b.id];
                assert(store.has_message(a0) && store.has_message(b0));
            },
            ActionOf::InsertMessage(row) => {
                if a.id == row.id {
                    assert(store.has_message(b));
                } else if b.id == row.id {
                    assert(store.has_message(a));
                } else {
                    assert(store.has_message(a) && store.has_message(b));
                }
            },
            _ => {
                assert(store.has_message(a) && store.has_message(b));
            },
        }
    }
}

} // verus!
