//! Creating conversations.

use vstd::prelude::*;

use crate::clock::Timestamp;
use crate::entity::conversation::{self, Kind};
use crate::entity::conversation_member::{self, Role};
use crate::error::AppError;
use crate::flow::{Action, ActionOf, ActionSpec, Env, Event, Flow, Step};
use crate::ids::Id;
use crate::repo::membership::{insert_member, join_start, Join};
use crate::repo::{conversation_as_written, written_conversation};

verus! {

/// The row of a new direct conversation.
pub open spec fn new_direct(id: Id, now: Timestamp) -> conversation::Model {
    conversation::Model {
        id,
        kind: Kind::Direct,
        name: None,
        owner_id: None,
        notice: None,
        next_seq: 0,
        only_admins_speak: false,
        created_at: now,
        updated_at: now,
    }
}

/// The row of a new group.
pub open spec fn new_group(
    id: Id,
    name: String,
    owner_id: Id,
    now: Timestamp,
) -> conversation::Model {
    conversation::Model {
        id,
        kind: Kind::Group,
        name: Some(name),
        owner_id: Some(owner_id),
        notice: None,
        next_seq: 0,
        only_admins_speak: false,
        created_at: now,
        updated_at: now,
    }
}

/// The conversations that memberships are in, in their order.
pub open spec fn conversations_of(rows: Seq<conversation_member::Model>) -> Seq<Id> {
    rows.map_values(|row: conversation_member::Model| row.conversation_id)
}

/// The identifiers of conversations, in their order.
pub open spec fn ids_of(rows: Seq<conversation::Model>) -> Seq<Id> {
    rows.map_values(|row: conversation::Model| row.id)
}

fn conversation_ids(rows: &Vec<conversation_member::Model>) -> (r: Vec<Id>)
    ensures
        r@ == conversations_of(rows@),
{
    let mut r: Vec<Id> = Vec::new();
    for i in 0..rows.len()
        invariant
            r@ == conversations_of(rows@).subrange(0, i as int),
    {
        r.push(rows[i].conversation_id);
    }
    r
}

fn row_ids(rows: &Vec<conversation::Model>) -> (r: Vec<Id>)
    ensures
        r@ == ids_of(rows@),
{
    let mut r: Vec<Id> = Vec::new();
    for i in 0..rows.len()
        invariant
            r@ == ids_of(rows@).subrange(0, i as int),
    {
        r.push(rows[i].id);
    }
    r
}

/// The first of the conversations with this identifier.
pub open spec fn first_with_id(rows: Seq<conversation::Model>, id: Id) -> Option<
    conversation::Model,
>
    decreases rows.len(),
{
    if rows.len() == 0 {
        None
    } else if rows[0].id == id {
        Some(rows[0])
    } else {
        first_with_id(rows.drop_first(), id)
    }
}

fn take_with_id(rows: Vec<conversation::Model>, id: Id) -> (r: Option<conversation::Model>)
    ensures
        r == first_with_id(rows@, id),
{
    let mut rest = rows;
    while rest.len() > 0
        invariant
            first_with_id(rest@, id) == first_with_id(rows@, id),
        decreases rest@.len(),
    {
        let ghost before = rest@;
        let row = rest.remove(0);
        assert(rest@ == before.drop_first());
        if row.id == id {
            return Some(row);
        }
    }
    None
}

/// Creates a direct conversation, or finds the one there is.
#[derive(Debug)]
pub enum CreateDirect {
    /// Waiting for the memberships of the first user.
    Memberships { self_id: Id, other_id: Id, now: Timestamp },
    /// Waiting for those of their conversations that are direct.
    Candidates { self_id: Id, other_id: Id, now: Timestamp },
    /// Waiting for the other user's memberships in these.
    Peer { self_id: Id, other_id: Id, now: Timestamp, candidates: Vec<conversation::Model> },
    /// Waiting for the new conversation.
    Created { self_id: Id, other_id: Id, now: Timestamp },
    /// Adding the first user.
    JoinSelf { conversation: conversation::Model, other_id: Id, now: Timestamp, join: Join },
    /// Adding the other user.
    JoinOther { conversation: conversation::Model, join: Join },
}

impl View for CreateDirect {
    type V = CreateDirect;

    open spec fn view(&self) -> CreateDirect {
        *self
    }
}

/// First step of creating a direct conversation.
pub open spec fn direct_start(self_id: Id, other_id: Id, now: Timestamp) -> Step<
    CreateDirect,
    ActionSpec,
    (conversation::Model, bool),
> {
    if self_id == other_id {
        Step::Done(Err(AppError::SelfChat))
    } else {
        Step::Ask(
            CreateDirect::Memberships { self_id, other_id, now },
            ActionOf::MembershipsOf { user_id: self_id },
        )
    }
}

/// Starts to create a direct conversation between two users. Where both are active members of a
/// direct conversation already, the result is that conversation and `false`.
pub fn create_direct_conversation(self_id: Id, other_id: Id, now: Timestamp) -> (r: Step<
    CreateDirect,
    Action,
    (conversation::Model, bool),
>)
    ensures
        r@ == direct_start(self_id, other_id, now),
{
    if self_id == other_id {
        return Step::Done(Err(AppError::SelfChat));
    }
    Step::Ask(
        CreateDirect::Memberships { self_id, other_id, now },
        ActionOf::MembershipsOf { user_id: self_id },
    )
}

impl CreateDirect {
    /// The step that creates the conversation.
    pub open spec fn create(self_id: Id, other_id: Id, now: Timestamp, fresh_id: Id) -> Step<
        CreateDirect,
        ActionSpec,
        (conversation::Model, bool),
    > {
        Step::Ask(
            CreateDirect::Created { self_id, other_id, now },
            ActionOf::InsertConversation(new_direct(fresh_id, now)),
        )
    }

    fn insert(self_id: Id, other_id: Id, now: Timestamp, fresh_id: Id) -> (r: Step<
        CreateDirect,
        Action,
        (conversation::Model, bool),
    >)
        ensures
            r@ == CreateDirect::create(self_id, other_id, now, fresh_id),
    {
        Step::Ask(
            CreateDirect::Created { self_id, other_id, now },
            ActionOf::InsertConversation(
                conversation::Model {
                    id: fresh_id,
                    kind: Kind::Direct,
                    name: None,
                    owner_id: None,
                    notice: None,
                    next_seq: 0,
                    only_admins_speak: false,
                    created_at: now,
                    updated_at: now,
                },
            ),
        )
    }

    /// The step that goes on with adding the first user.
    pub open spec fn joining_self(
        conversation: conversation::Model,
        other_id: Id,
        now: Timestamp,
        step: Step<Join, ActionSpec, conversation_member::Model>,
    ) -> Step<CreateDirect, ActionSpec, (conversation::Model, bool)> {
        match step {
            Step::Ask(join, action) => Step::Ask(
                CreateDirect::JoinSelf { conversation, other_id, now, join },
                action,
            ),
            Step::Done(Err(e)) => Step::Done(Err(e)),
            Step::Done(Ok(_)) => CreateDirect::joining_other(
                conversation,
                join_start(conversation.id, other_id, Role::Member, now),
            ),
        }
    }

    fn on_self(
        conversation: conversation::Model,
        other_id: Id,
        now: Timestamp,
        step: Step<Join, Action, conversation_member::Model>,
    ) -> (r: Step<CreateDirect, Action, (conversation::Model, bool)>)
        ensures
            r@ == CreateDirect::joining_self(conversation, other_id, now, step@),
    {
        match step {
            Step::Ask(join, action) => Step::Ask(
                CreateDirect::JoinSelf { conversation, other_id, now, join },
                action,
            ),
            Step::Done(Err(e)) => Step::Done(Err(e)),
            Step::Done(Ok(_)) => {
                let first = insert_member(conversation.id, other_id, Role::Member, now);
                CreateDirect::on_other(conversation, first)
            },
        }
    }

    /// The step that goes on with adding the other user.
    pub open spec fn joining_other(
        conversation: conversation::Model,
        step: Step<Join, ActionSpec, conversation_member::Model>,
    ) -> Step<CreateDirect, ActionSpec, (conversation::Model, bool)> {
        match step {
            Step::Ask(join, action) => Step::Ask(
                CreateDirect::JoinOther { conversation, join },
                action,
            ),
            Step::Done(Err(e)) => Step::Done(Err(e)),
            Step::Done(Ok(_)) => Step::Done(Ok((conversation, true))),
        }
    }

    fn on_other(
        conversation: conversation::Model,
        step: Step<Join, Action, conversation_member::Model>,
    ) -> (r: Step<CreateDirect, Action, (conversation::Model, bool)>)
        ensures
            r@ == CreateDirect::joining_other(conversation, step@),
    {
        match step {
            Step::Ask(join, action) => Step::Ask(
                CreateDirect::JoinOther { conversation, join },
                action,
            ),
            Step::Done(Err(e)) => Step::Done(Err(e)),
            Step::Done(Ok(_)) => Step::Done(Ok((conversation, true))),
        }
    }
}

impl Flow for CreateDirect {
    type Output = (conversation::Model, bool);

    open spec fn step(state: CreateDirect, env: Env, event: Event) -> Step<
        CreateDirect,
        ActionSpec,
        (conversation::Model, bool),
    > {
        match state {
            CreateDirect::Memberships { self_id, other_id, now } => match event.spec_members() {
                Err(e) => Step::Done(Err(e)),
                Ok(rows) => if rows@.len() == 0 {
                    CreateDirect::create(self_id, other_id, now, env.fresh_id)
                } else {
                    Step::Ask(
                        CreateDirect::Candidates { self_id, other_id, now },
                        ActionOf::DirectAmong { conversation_ids: conversations_of(rows@) },
                    )
                },
            },
            CreateDirect::Candidates { self_id, other_id, now } =>
                match event.spec_conversations() {
                Err(e) => Step::Done(Err(e)),
                Ok(candidates) => if candidates@.len() == 0 {
                    CreateDirect::create(self_id, other_id, now, env.fresh_id)
                } else {
                    Step::Ask(
                        CreateDirect::Peer { self_id, other_id, now, candidates },
                        ActionOf::MembershipsIn {
                            conversation_ids: ids_of(candidates@),
                            user_id: other_id,
                        },
                    )
                },
            },
            CreateDirect::Peer { self_id, other_id, now, candidates } =>
                match event.spec_members() {
                Err(e) => Step::Done(Err(e)),
                Ok(rows) => if rows@.len() == 0 {
                    CreateDirect::create(self_id, other_id, now, env.fresh_id)
                } else {
                    match first_with_id(candidates@, rows@[0].conversation_id) {
                        Some(existing) => Step::Done(Ok((existing, false))),
                        None => CreateDirect::create(self_id, other_id, now, env.fresh_id),
                    }
                },
            },
            CreateDirect::Created { self_id, other_id, now } => match written_conversation(event) {
                Err(e) => Step::Done(Err(e)),
                Ok(conversation) => CreateDirect::joining_self(
                    conversation,
                    other_id,
                    now,
                    join_start(conversation.id, self_id, Role::Member, now),
                ),
            },
            CreateDirect::JoinSelf { conversation, other_id, now, join } =>
                CreateDirect::joining_self(
                conversation,
                other_id,
                now,
                Join::step(join, env, event),
            ),
            CreateDirect::JoinOther { conversation, join } => CreateDirect::joining_other(
                conversation,
                Join::step(join, env, event),
            ),
        }
    }

    fn next(self, env: Env, event: Event) -> (r: Step<
        CreateDirect,
        Action,
        (conversation::Model, bool),
    >)
        ensures
            r@ == CreateDirect::step(self@, env, event),
    {
        match self {
            CreateDirect::Memberships { self_id, other_id, now } => match event.members() {
                Err(e) => Step::Done(Err(e)),
                Ok(rows) => if rows.len() == 0 {
                    CreateDirect::insert(self_id, other_id, now, env.fresh_id)
                } else {
                    Step::Ask(
                        CreateDirect::Candidates { self_id, other_id, now },
                        ActionOf::DirectAmong { conversation_ids: conversation_ids(&rows) },
                    )
                },
            },
            CreateDirect::Candidates { self_id, other_id, now } => match event.conversations() {
                Err(e) => Step::Done(Err(e)),
                Ok(candidates) => if candidates.len() == 0 {
                    CreateDirect::insert(self_id, other_id, now, env.fresh_id)
                } else {
                    let ids = row_ids(&candidates);
                    Step::Ask(
                        CreateDirect::Peer { self_id, other_id, now, candidates },
                        ActionOf::MembershipsIn { conversation_ids: ids, user_id: other_id },
                    )
                },
            },
            CreateDirect::Peer { self_id, other_id, now, candidates } => match event.members() {
                Err(e) => Step::Done(Err(e)),
                Ok(rows) => if rows.len() == 0 {
                    CreateDirect::insert(self_id, other_id, now, env.fresh_id)
                } else {
                    match take_with_id(candidates, rows[0].conversation_id) {
                        Some(existing) => Step::Done(Ok((existing, false))),
                        None => CreateDirect::insert(self_id, other_id, now, env.fresh_id),
                    }
                },
            },
            CreateDirect::Created { self_id, other_id, now } =>
                match conversation_as_written(event) {
                Err(e) => Step::Done(Err(e)),
                Ok(conversation) => {
                    let first = insert_member(conversation.id, self_id, Role::Member, now);
                    CreateDirect::on_self(conversation, other_id, now, first)
                },
            },
            CreateDirect::JoinSelf { conversation, other_id, now, join } => CreateDirect::on_self(
                conversation,
                other_id,
                now,
                join.next(env, event),
            ),
            CreateDirect::JoinOther { conversation, join } => CreateDirect::on_other(
                conversation,
                join.next(env, event),
            ),
        }
    }
}

/// The first place from `from` on where the list does not name the owner; the list's length where
/// there is none.
pub open spec fn next_invitee(ids: Seq<Id>, owner_id: Id, from: int) -> int
    decreases ids.len() - from,
{
    if from < 0 || from >= ids.len() {
        ids.len() as int
    } else if ids[from] != owner_id {
        from
    } else {
        next_invitee(ids, owner_id, from + 1)
    }
}

fn find_invitee(ids: &Vec<Id>, owner_id: Id, from: usize) -> (r: usize)
    ensures
        r == next_invitee(ids@, owner_id, from as int),
        r <= ids.len(),
{
    if from >= ids.len() {
        return ids.len();
    }
    let mut i: usize = from;
    while i < ids.len() && ids[i] == owner_id
        invariant
            i <= ids.len(),
            next_invitee(ids@, owner_id, i as int) == next_invitee(ids@, owner_id, from as int),
        decreases ids.len() - i,
    {
        i = i + 1;
    }
    i
}

/// Creates a group.
#[derive(Debug)]
pub enum CreateGroup {
    /// Waiting for the new conversation.
    Created { owner_id: Id, member_ids: Vec<Id>, now: Timestamp },
    /// Adding the owner.
    JoinOwner {
        conversation: conversation::Model,
        owner_id: Id,
        member_ids: Vec<Id>,
        now: Timestamp,
        join: Join,
    },
    /// Adding a member; the members from `next` on are still to be added.
    JoinMember {
        conversation: conversation::Model,
        owner_id: Id,
        member_ids: Vec<Id>,
        next: usize,
        now: Timestamp,
        join: Join,
    },
}

impl View for CreateGroup {
    type V = CreateGroup;

    open spec fn view(&self) -> CreateGroup {
        *self
    }
}

/// First step of creating a group.
pub open spec fn group_start(
    owner_id: Id,
    member_ids: Vec<Id>,
    name: String,
    now: Timestamp,
    fresh_id: Id,
) -> Step<CreateGroup, ActionSpec, conversation::Model> {
    Step::Ask(
        CreateGroup::Created { owner_id, member_ids, now },
        ActionOf::InsertConversation(new_group(fresh_id, name, owner_id, now)),
    )
}

/// Starts to create a group with an owner and members. The owner is added as such, once, whether
/// the members name them or not.
pub fn create_group_conversation(
    owner_id: Id,
    member_ids: Vec<Id>,
    name: String,
    now: Timestamp,
    fresh_id: Id,
) -> (r: Step<CreateGroup, Action, conversation::Model>)
    ensures
        r@ == group_start(owner_id, member_ids, name, now, fresh_id),
{
    Step::Ask(
        CreateGroup::Created { owner_id, member_ids, now },
        ActionOf::InsertConversation(
            conversation::Model {
                id: fresh_id,
                kind: Kind::Group,
                name: Some(name),
                owner_id: Some(owner_id),
                notice: None,
                next_seq: 0,
                only_admins_speak: false,
                created_at: now,
                updated_at: now,
            },
        ),
    )
}

impl CreateGroup {
    /// The step that adds the next member from `from` on, or ends where there is none.
    pub open spec fn add_next(
        conversation: conversation::Model,
        owner_id: Id,
        member_ids: Vec<Id>,
        from: int,
        now: Timestamp,
    ) -> Step<CreateGroup, ActionSpec, conversation::Model> {
        let i = next_invitee(member_ids@, owner_id, from);
        if i < member_ids@.len() {
            match join_start(conversation.id, member_ids@[i], Role::Member, now) {
                Step::Ask(join, action) => Step::Ask(
                    CreateGroup::JoinMember {
                        conversation,
                        owner_id,
                        member_ids,
                        next: (i + 1) as usize,
                        now,
                        join,
                    },
                    action,
                ),
                Step::Done(Err(e)) => Step::Done(Err(e)),
                Step::Done(Ok(_)) => Step::Done(Ok(conversation)),
            }
        } else {
            Step::Done(Ok(conversation))
        }
    }

    fn on_next(
        conversation: conversation::Model,
        owner_id: Id,
        member_ids: Vec<Id>,
        from: usize,
        now: Timestamp,
    ) -> (r: Step<CreateGroup, Action, conversation::Model>)
        ensures
            r@ == CreateGroup::add_next(conversation, owner_id, member_ids, from as int, now),
    {
        let i = find_invitee(&member_ids, owner_id, from);
        if i < member_ids.len() {
            match insert_member(conversation.id, member_ids[i], Role::Member, now) {
                Step::Ask(join, action) => Step::Ask(
                    CreateGroup::JoinMember {
                        conversation,
                        owner_id,
                        member_ids,
                        next: i + 1,
                        now,
                        join,
                    },
                    action,
                ),
                Step::Done(Err(e)) => Step::Done(Err(e)),
                Step::Done(Ok(_)) => Step::Done(Ok(conversation)),
            }
        } else {
            Step::Done(Ok(conversation))
        }
    }

    /// The step that goes on with adding the owner.
    pub open spec fn joining_owner(
        conversation: conversation::Model,
        owner_id: Id,
        member_ids: Vec<Id>,
        now: Timestamp,
        step: Step<Join, ActionSpec, conversation_member::Model>,
    ) -> Step<CreateGroup, ActionSpec, conversation::Model> {
        match step {
            Step::Ask(join, action) => Step::Ask(
                CreateGroup::JoinOwner { conversation, owner_id, member_ids, now, join },
                action,
            ),
            Step::Done(Err(e)) => Step::Done(Err(e)),
            Step::Done(Ok(_)) => CreateGroup::add_next(conversation, owner_id, member_ids, 0, now),
        }
    }

    fn on_owner(
        conversation: conversation::Model,
        owner_id: Id,
        member_ids: Vec<Id>,
        now: Timestamp,
        step: Step<Join, Action, conversation_member::Model>,
    ) -> (r: Step<CreateGroup, Action, conversation::Model>)
        ensures
            r@ == CreateGroup::joining_owner(conversation, owner_id, member_ids, now, step@),
    {
        match step {
            Step::Ask(join, action) => Step::Ask(
                CreateGroup::JoinOwner { conversation, owner_id, member_ids, now, join },
                action,
            ),
            Step::Done(Err(e)) => Step::Done(Err(e)),
            Step::Done(Ok(_)) => CreateGroup::on_next(conversation, owner_id, member_ids, 0, now),
        }
    }
}

impl Flow for CreateGroup {
    type Output = conversation::Model;

    open spec fn step(state: CreateGroup, env: Env, event: Event) -> Step<
        CreateGroup,
        ActionSpec,
        conversation::Model,
    > {
        match state {
            CreateGroup::Created { owner_id, member_ids, now } => match written_conversation(
                event,
            ) {
                Err(e) => Step::Done(Err(e)),
                Ok(conversation) => CreateGroup::joining_owner(
                    conversation,
                    owner_id,
                    member_ids,
                    now,
                    join_start(conversation.id, owner_id, Role::Owner, now),
                ),
            },
            CreateGroup::JoinOwner { conversation, owner_id, member_ids, now, join } =>
                CreateGroup::joining_owner(
                conversation,
                owner_id,
                member_ids,
                now,
                Join::step(join, env, event),
            ),
            CreateGroup::JoinMember { conversation, owner_id, member_ids, next, now, join } =>
                match Join::step(join, env, event) {
                Step::Ask(join, action) => Step::Ask(
                    CreateGroup::JoinMember {
                        conversation,
                        owner_id,
                        member_ids,
                        next,
                        now,
                        join,
                    },
                    action,
                ),
                Step::Done(Err(e)) => Step::Done(Err(e)),
                Step::Done(Ok(_)) => CreateGroup::add_next(
                    conversation,
                    owner_id,
                    member_ids,
                    next as int,
                    now,
                ),
            },
        }
    }

    fn next(self, env: Env, event: Event) -> (r: Step<CreateGroup, Action, conversation::Model>)
        ensures
            r@ == CreateGroup::step(self@, env, event),
    {
        match self {
            CreateGroup::Created { owner_id, member_ids, now } => match conversation_as_written(
                event,
            ) {
                Err(e) => Step::Done(Err(e)),
                Ok(conversation) => {
                    let first = insert_member(conversation.id, owner_id, Role::Owner, now);
                    CreateGroup::on_owner(conversation, owner_id, member_ids, now, first)
                },
            },
            CreateGroup::JoinOwner { conversation, owner_id, member_ids, now, join } =>
                CreateGroup::on_owner(
                conversation,
                owner_id,
                member_ids,
                now,
                join.next(env, event),
            ),
            CreateGroup::JoinMember { conversation, owner_id, member_ids, next, now, join } =>
                match join.next(env, event) {
                Step::Ask(join, action) => Step::Ask(
                    CreateGroup::JoinMember {
                        conversation,
                        owner_id,
                        member_ids,
                        next,
                        now,
                        join,
                    },
                    action,
                ),
                Step::Done(Err(e)) => Step::Done(Err(e)),
                Step::Done(Ok(_)) => CreateGroup::on_next(
                    conversation,
                    owner_id,
                    member_ids,
                    next,
                    now,
                ),
            },
        }
    }
}

} // verus!
