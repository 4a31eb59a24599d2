//! Conversations: listing and creating them.

use serde_json::Value;
use vstd::prelude::*;

use crate::domain::unread;
use crate::entity::conversation::{self, TYPE_DIRECT, TYPE_GROUP};
use crate::entity::{conversation_member, message};
use crate::error::AppError;
use crate::flow::{Action, ActionOf, ActionSpec, Env, Event, Flow, Step};
use crate::ids::Id;
use crate::json::{self, json_all, json_of, Json};
use crate::repo::creation::{direct_start, group_start, CreateDirect, CreateGroup};
use crate::repo::listing::{listing_start, ListConversations, ListConversationsSpec};
use crate::repo::{
    self, create_direct_conversation, create_group_conversation, find_member, list_members,
    messages_in_order, unread_for, ConversationWithMember,
};
use crate::routes::dto::{conversation_json, user_ids, users_of, ConversationDto};
use crate::routes::{created_or_ok, ok, CreateConversationRequest, Reply, ReplyOf, ReplySpec};
use crate::text::{same_text, trim, trimmed};

verus! {

/// A conversation as one of its members sees it, where the number of unread messages can be told.
pub open spec fn seen_by_member(
    row: ConversationWithMember,
    members: Seq<conversation_member::Model>,
    last_message: Option<message::Model>,
) -> Result<Json, AppError> {
    if i64::MIN <= row.conversation.next_seq - row.member.last_read_seq <= i64::MAX {
        Ok(
            conversation_json(
                row,
                unread(row.conversation.next_seq, row.member.last_read_seq),
                users_of(members),
                last_message,
            ),
        )
    } else {
        Err(AppError::UnreadOverflow)
    }
}

fn show_to_member(
    conversation: &conversation::Model,
    member: &conversation_member::Model,
    members: &Vec<conversation_member::Model>,
    last_message: Option<&message::Model>,
) -> (r: Result<Value, AppError>)
    ensures
        seen_by_member(
            ConversationWithMember { conversation: *conversation, member: *member },
            members@,
            match last_message {
                Some(message) => Some(*message),
                None => None,
            },
        ) == match r {
            Ok(value) => Ok::<Json, AppError>(json_of(value)),
            Err(e) => Err(e),
        },
{
    if conversation.next_seq.checked_sub(member.last_read_seq).is_none() {
        return Err(AppError::UnreadOverflow);
    }
    let dto = ConversationDto::new(
        conversation,
        member,
        unread_for(conversation, member),
        &user_ids(members),
        last_message,
    );
    Ok(dto.to_json())
}

/// Lists the conversations of a user, over the representation of the rows that are looked up, of
/// rows, and of documents.
#[derive(Debug)]
pub enum ListingOf<Lookup, Rows, Docs> {
    /// Looking the rows up.
    Lookup { lookup: Lookup },
    /// Waiting for the members of one conversation; those in `pending` come after it.
    Members { row: ConversationWithMember, pending: Rows, items: Docs },
    /// Waiting for the last message of one conversation; those in `pending` come after it.
    LastMessage {
        row: ConversationWithMember,
        members: Vec<conversation_member::Model>,
        pending: Rows,
        items: Docs,
    },
}

/// Lists the conversations of a user.
pub type Listing = ListingOf<ListConversations, Vec<ConversationWithMember>, Vec<Value>>;

/// A state of listing the conversations of a user, by its contents.
pub type ListingSpec = ListingOf<ListConversationsSpec, Seq<ConversationWithMember>, Seq<Json>>;

impl View for ListingOf<ListConversations, Vec<ConversationWithMember>, Vec<Value>> {
    type V = ListingSpec;

    open spec fn view(&self) -> ListingSpec {
        match *self {
            ListingOf::Lookup { lookup } => ListingOf::Lookup { lookup: lookup@ },
            ListingOf::Members { row, pending, items } => ListingOf::Members {
                row,
                pending: pending@,
                items: json_all(items@),
            },
            ListingOf::LastMessage { row, members, pending, items } => ListingOf::LastMessage {
                row,
                members,
                pending: pending@,
                items: json_all(items@),
            },
        }
    }
}

/// The step that goes on with looking the rows up.
pub open spec fn looking_up(
    step: Step<ListConversationsSpec, ActionSpec, Seq<ConversationWithMember>>,
) -> Step<ListingSpec, ActionSpec, ReplySpec> {
    match step {
        Step::Ask(lookup, action) => Step::Ask(ListingOf::Lookup { lookup }, action),
        Step::Done(Err(e)) => Step::Done(Err(e)),
        Step::Done(Ok(rows)) => show_next(rows, seq![]),
    }
}

fn on_lookup(step: Step<ListConversations, Action, Vec<ConversationWithMember>>) -> (r: Step<
    Listing,
    Action,
    Reply,
>)
    ensures
        r@ == looking_up(step@),
{
    match step {
        Step::Ask(lookup, action) => Step::Ask(ListingOf::Lookup { lookup }, action),
        Step::Done(Err(e)) => Step::Done(Err(e)),
        Step::Done(Ok(rows)) => {
            let items: Vec<Value> = Vec::new();
            assert(json_all(items@) == Seq::<Json>::empty());
            on_next(rows, items)
        },
    }
}

/// The step that shows the next conversation, or ends where none is left.
pub open spec fn show_next(pending: Seq<ConversationWithMember>, items: Seq<Json>) -> Step<
    ListingSpec,
    ActionSpec,
    ReplySpec,
> {
    if pending.len() == 0 {
        Step::Done(Ok(ok(Json::Arr(items))))
    } else {
        Step::Ask(
            ListingOf::Members { row: pending[0], pending: pending.drop_first(), items },
            ActionOf::MembersOf { conversation_id: pending[0].conversation.id },
        )
    }
}

fn on_next(pending: Vec<ConversationWithMember>, items: Vec<Value>) -> (r: Step<
    Listing,
    Action,
    Reply,
>)
    ensures
        r@ == show_next(pending@, json_all(items@)),
{
    let mut pending = pending;
    if pending.len() == 0 {
        return Step::Done(Ok(ReplyOf { status: 200, body: Some(json::array(items)) }));
    }
    let ghost before = pending@;
    let row = pending.remove(0);
    assert(pending@ == before.drop_first());
    let conversation_id = row.conversation.id;
    Step::Ask(ListingOf::Members { row, pending, items }, list_members(conversation_id))
}

/// First step of listing the conversations of a user.
pub open spec fn list_conversations_start(user_id: Id) -> Step<ListingSpec, ActionSpec, ReplySpec> {
    looking_up(listing_start(user_id))
}

/// Starts to list the conversations of a user, the latest changed first, each with its members,
/// its last message and the number of unread messages.
pub fn list_conversations(user_id: Id) -> (r: Step<Listing, Action, Reply>)
    ensures
        r@ == list_conversations_start(user_id),
{
    on_lookup(repo::list_conversations(user_id))
}

/// The oldest of messages that came newest first.
pub open spec fn oldest(rows: Seq<message::Model>) -> Option<message::Model> {
    if rows.len() == 0 {
        None
    } else {
        Some(rows.reverse()[0])
    }
}

impl Flow for ListingOf<ListConversations, Vec<ConversationWithMember>, Vec<Value>> {
    type Output = Reply;

    open spec fn step(state: ListingSpec, env: Env, event: Event) -> Step<
        ListingSpec,
        ActionSpec,
        ReplySpec,
    > {
        match state {
            ListingOf::Lookup { lookup } => looking_up(
                ListConversations::step(lookup, env, event),
            ),
            ListingOf::Members { row, pending, items } => match event.spec_members() {
                Err(e) => Step::Done(Err(e)),
                Ok(members) => Step::Ask(
                    ListingOf::LastMessage { row, members, pending, items },
                    ActionOf::MessagesBefore {
                        conversation_id: row.conversation.id,
                        before_seq: None,
                        limit: 1,
                    },
                ),
            },
            ListingOf::LastMessage { row, members, pending, items } =>
                match event.spec_messages() {
                Err(e) => Step::Done(Err(e)),
                Ok(rows) => match seen_by_member(row, members@, oldest(rows@)) {
                    Err(e) => Step::Done(Err(e)),
                    Ok(item) => show_next(pending, items.push(item)),
                },
            },
        }
    }

    fn next(self, env: Env, event: Event) -> (r: Step<Listing, Action, Reply>)
        ensures
            r@ == Listing::step(self@, env, event),
    {
        match self {
            ListingOf::Lookup { lookup } => on_lookup(lookup.next(env, event)),
            ListingOf::Members { row, pending, items } => match event.members() {
                Err(e) => Step::Done(Err(e)),
                Ok(members) => {
                    let action = repo::list_messages(row.conversation.id, None, 1);
                    Step::Ask(ListingOf::LastMessage { row, members, pending, items }, action)
                },
            },
            ListingOf::LastMessage { row, members, pending, items } => match messages_in_order(
                event,
            ) {
                Err(e) => Step::Done(Err(e)),
                Ok(rows) => {
                    let last = if rows.len() > 0 {
                        Some(&rows[0])
                    } else {
                        None
                    };
                    match show_to_member(&row.conversation, &row.member, &members, last) {
                        Err(e) => Step::Done(Err(e)),
                        Ok(item) => {
                            let mut items = items;
                            let ghost before = items@;
                            items.push(item);
                            assert(json_all(items@) == json_all(before).push(json_of(item)));
                            on_next(pending, items)
                        },
                    }
                },
            },
        }
    }
}

/// Creates a conversation and shows it to its creator.
#[derive(Debug)]
pub enum CreateConversation {
    /// Creating a direct conversation.
    Direct { user_id: Id, create: CreateDirect },
    /// Creating a group.
    Group { user_id: Id, create: CreateGroup },
    /// Waiting for the members.
    Members { user_id: Id, conversation: conversation::Model, created: bool },
    /// Waiting for the creator's membership.
    Member {
        conversation: conversation::Model,
        created: bool,
        members: Vec<conversation_member::Model>,
    },
}

impl View for CreateConversation {
    type V = CreateConversation;

    open spec fn view(&self) -> CreateConversation {
        *self
    }
}

impl CreateConversation {
    /// The step that goes on with creating a direct conversation.
    pub open spec fn creating_direct(
        user_id: Id,
        step: Step<CreateDirect, ActionSpec, (conversation::Model, bool)>,
    ) -> Step<CreateConversation, ActionSpec, ReplySpec> {
        match step {
            Step::Ask(create, action) => Step::Ask(
                CreateConversation::Direct { user_id, create },
                action,
            ),
            Step::Done(Err(e)) => Step::Done(Err(e)),
            Step::Done(Ok((conversation, created))) => Step::Ask(
                CreateConversation::Members { user_id, conversation, created },
                ActionOf::MembersOf { conversation_id: conversation.id },
            ),
        }
    }

    fn on_direct(
        user_id: Id,
        step: Step<CreateDirect, Action, (conversation::Model, bool)>,
    ) -> (r: Step<CreateConversation, Action, Reply>)
        ensures
            r@ == CreateConversation::creating_direct(user_id, step@),
    {
        match step {
            Step::Ask(create, action) => Step::Ask(
                CreateConversation::Direct { user_id, create },
                action,
            ),
            Step::Done(Err(e)) => Step::Done(Err(e)),
            Step::Done(Ok((conversation, created))) => {
                let action = list_members(conversation.id);
                Step::Ask(CreateConversation::Members { user_id, conversation, created }, action)
            },
        }
    }

    /// The step that goes on with creating a group.
    pub open spec fn creating_group(
        user_id: Id,
        step: Step<CreateGroup, ActionSpec, conversation::Model>,
    ) -> Step<CreateConversation, ActionSpec, ReplySpec> {
        match step {
            Step::Ask(create, action) => Step::Ask(
                CreateConversation::Group { user_id, create },
                action,
            ),
            Step::Done(Err(e)) => Step::Done(Err(e)),
            Step::Done(Ok(conversation)) => Step::Ask(
                CreateConversation::Members { user_id, conversation, created: true },
                ActionOf::MembersOf { conversation_id: conversation.id },
            ),
        }
    }

    fn on_group(
        user_id: Id,
        step: Step<CreateGroup, Action, conversation::Model>,
    ) -> (r: Step<CreateConversation, Action, Reply>)
        ensures
            r@ == CreateConversation::creating_group(user_id, step@),
    {
        match step {
            Step::Ask(create, action) => Step::Ask(
                CreateConversation::Group { user_id, create },
                action,
            ),
            Step::Done(Err(e)) => Step::Done(Err(e)),
            Step::Done(Ok(conversation)) => {
                let action = list_members(conversation.id);
                Step::Ask(
                    CreateConversation::Members { user_id, conversation, created: true },
                    action,
                )
            },
        }
    }
}

/// First step of creating a conversation, given the name that a group is to have.
pub open spec fn create_conversation_start(
    user_id: Id,
    kind: Seq<char>,
    member_ids: Vec<Id>,
    name: Option<String>,
    env: Env,
) -> Step<CreateConversation, ActionSpec, ReplySpec> {
    if kind == TYPE_DIRECT@ {
        if member_ids@.len() == 0 {
            Step::Done(Err(AppError::PeerMissing))
        } else {
            CreateConversation::creating_direct(
                user_id,
                direct_start(user_id, member_ids@[0], env.now),
            )
        }
    } else if kind == TYPE_GROUP@ {
        match name {
            None => Step::Done(Err(AppError::GroupNameMissing)),
            Some(name) => if member_ids@.len() == 0 {
                Step::Done(Err(AppError::GroupMembersMissing))
            } else {
                CreateConversation::creating_group(
                    user_id,
                    group_start(user_id, member_ids, name, env.now, env.fresh_id),
                )
            },
        }
    } else {
        Step::Done(Err(AppError::UnsupportedConversationType))
    }
}

/// Starts to create a conversation, given the name that a group is to have.
pub fn start_conversation(
    user_id: Id,
    kind: &str,
    member_ids: Vec<Id>,
    name: Option<String>,
    env: Env,
) -> (r: Step<CreateConversation, Action, Reply>)
    ensures
        r@ == create_conversation_start(user_id, kind@, member_ids, name, env),
{
    if same_text(kind, TYPE_DIRECT) {
        if member_ids.len() == 0 {
            return Step::Done(Err(AppError::PeerMissing));
        }
        CreateConversation::on_direct(
            user_id,
            create_direct_conversation(user_id, member_ids[0], env.now),
        )
    } else if same_text(kind, TYPE_GROUP) {
        match name {
            None => Step::Done(Err(AppError::GroupNameMissing)),
            Some(name) => {
                if member_ids.len() == 0 {
                    return Step::Done(Err(AppError::GroupMembersMissing));
                }
                CreateConversation::on_group(
                    user_id,
                    create_group_conversation(
                        user_id,
                        member_ids,
                        name,
                        env.now,
                        env.fresh_id,
                    ),
                )
            },
        }
    } else {
        Step::Done(Err(AppError::UnsupportedConversationType))
    }
}

/// Whether a group is to have the name: it is the name asked for without white space around it,
/// and there is none where nothing is left of that.
pub open spec fn is_group_name(name: Option<String>, asked: Option<String>) -> bool {
    match name {
        Some(name) => asked is Some && name@ == trimmed(asked->0@) && name@.len() > 0,
        None => asked is Some ==> trimmed(asked->0@).len() == 0,
    }
}

/// The name that a group is to have.
pub fn group_name(asked: &Option<String>) -> (r: Option<String>)
    ensures
        is_group_name(r, *asked),
{
    match asked {
        Some(asked) => {
            let name = trim(asked.as_str());
            if name.unicode_len() > 0 {
                Some(name.to_string())
            } else {
                None
            }
        },
        None => None,
    }
}

/// Starts to create a direct conversation or a group. A group needs a name and members; a direct
/// conversation is with the first of the members asked for, and is found again where there is one.
pub fn create_conversation(user_id: Id, input: CreateConversationRequest, env: Env) -> (r: Step<
    CreateConversation,
    Action,
    Reply,
>)
    ensures
        exists|name: Option<String>| #[trigger]
            is_group_name(name, input.name) && r@ == create_conversation_start(
                user_id,
                input.kind@,
                input.member_ids,
                name,
                env,
            ),
{
    let name = group_name(&input.name);
    start_conversation(user_id, input.kind.as_str(), input.member_ids, name, env)
}

impl Flow for CreateConversation {
    type Output = Reply;

    open spec fn step(state: CreateConversation, env: Env, event: Event) -> Step<
        CreateConversation,
        ActionSpec,
        ReplySpec,
    > {
        match state {
            CreateConversation::Direct { user_id, create } => CreateConversation::creating_direct(
                user_id,
                CreateDirect::step(create, env, event),
            ),
            CreateConversation::Group { user_id, create } => CreateConversation::creating_group(
                user_id,
                CreateGroup::step(create, env, event),
            ),
            CreateConversation::Members { user_id, conversation, created } =>
                match event.spec_members() {
                Err(e) => Step::Done(Err(e)),
                Ok(members) => Step::Ask(
                    CreateConversation::Member { conversation, created, members },
                    ActionOf::FindMember { conversation_id: conversation.id, user_id },
                ),
            },
            CreateConversation::Member { conversation, created, members } =>
                match event.spec_member() {
                Err(e) => Step::Done(Err(e)),
                Ok(None) => Step::Done(Err(AppError::MemberRowMissing)),
                Ok(Some(member)) => match seen_by_member(
                    ConversationWithMember { conversation, member },
                    members@,
                    None,
                ) {
                    Err(e) => Step::Done(Err(e)),
                    Ok(body) => Step::Done(Ok(created_or_ok(created, body))),
                },
            },
        }
    }

    fn next(self, env: Env, event: Event) -> (r: Step<CreateConversation, Action, Reply>)
        ensures
            r@ == CreateConversation::step(self@, env, event),
    {
        match self {
            CreateConversation::Direct { user_id, create } => CreateConversation::on_direct(
                user_id,
                create.next(env, event),
            ),
            CreateConversation::Group { user_id, create } => CreateConversation::on_group(
                user_id,
                create.next(env, event),
            ),
            CreateConversation::Members { user_id, conversation, created } =>
                match event.members() {
                Err(e) => Step::Done(Err(e)),
                Ok(members) => {
                    let action = find_member(conversation.id, user_id);
                    Step::Ask(CreateConversation::Member { conversation, created, members }, action)
                },
            },
            CreateConversation::Member { conversation, created, members } => match event.member() {
                Err(e) => Step::Done(Err(e)),
                Ok(None) => Step::Done(Err(AppError::MemberRowMissing)),
                Ok(Some(member)) => match show_to_member(&conversation, &member, &members, None) {
                    Err(e) => Step::Done(Err(e)),
                    Ok(body) => {
                        let status: u16 = if created {
                            201
                        } else {
                            200
                        };
                        Step::Done(Ok(ReplyOf { status, body: Some(body) }))
                    },
                },
            },
        }
    }
}

} // verus!
