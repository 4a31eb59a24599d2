//! Memberships: joining, looking a conversation up as a member, and changing a member.

use vstd::prelude::*;

use crate::clock::Timestamp;
use crate::entity::conversation_member::{self, Role};
use crate::error::AppError;
use crate::flow::{Action, ActionOf, ActionSpec, Env, Event, Flow, MemberChange, Step};
use crate::ids::Id;
use crate::repo::{find_member, member_as_written, written_member, ConversationWithMember};

verus! {

/// The row of somebody who joins for the first time.
pub open spec fn new_member(
    conversation_id: Id,
    user_id: Id,
    role: Role,
    now: Timestamp,
) -> conversation_member::Model {
    conversation_member::Model {
        conversation_id,
        user_id,
        role,
        last_read_seq: 0,
        muted_until: None,
        can_speak: true,
        muted: false,
        pinned: false,
        joined_at: now,
        left_at: None,
    }
}

/// Makes a user an active member of a conversation.
#[derive(Debug)]
pub enum Join {
    /// Waiting for an earlier membership row.
    Lookup { conversation_id: Id, user_id: Id, role: Role, now: Timestamp },
    /// Waiting for the row as written.
    Written,
}

impl View for Join {
    type V = Join;

    open spec fn view(&self) -> Join {
        *self
    }
}

/// First step of making a user an active member.
pub open spec fn join_start(conversation_id: Id, user_id: Id, role: Role, now: Timestamp) -> Step<
    Join,
    ActionSpec,
    conversation_member::Model,
> {
    Step::Ask(
        Join::Lookup { conversation_id, user_id, role, now },
        ActionOf::FindMemberRow { conversation_id, user_id },
    )
}

/// Starts to make a user an active member. Somebody who was a member before keeps their row and
/// becomes active again in the given role.
pub fn insert_member(conversation_id: Id, user_id: Id, role: Role, now: Timestamp) -> (r: Step<
    Join,
    Action,
    conversation_member::Model,
>)
    ensures
        r@ == join_start(conversation_id, user_id, role, now),
{
    Step::Ask(
        Join::Lookup { conversation_id, user_id, role, now },
        ActionOf::FindMemberRow { conversation_id, user_id },
    )
}

impl Flow for Join {
    type Output = conversation_member::Model;

    open spec fn step(state: Join, env: Env, event: Event) -> Step<
        Join,
        ActionSpec,
        conversation_member::Model,
    > {
        match state {
            Join::Lookup { conversation_id, user_id, role, now } => match event.spec_member() {
                Err(e) => Step::Done(Err(e)),
                Ok(Some(_)) => Step::Ask(
                    Join::Written,
                    ActionOf::UpdateMember {
                        conversation_id,
                        user_id,
                        change: MemberChange::Rejoin(role),
                    },
                ),
                Ok(None) => Step::Ask(
                    Join::Written,
                    ActionOf::InsertMember(new_member(conversation_id, user_id, role, now)),
                ),
            },
            Join::Written => Step::Done(written_member(event)),
        }
    }

    fn next(self, env: Env, event: Event) -> (r: Step<Join, Action, conversation_member::Model>)
        ensures
            r@ == Join::step(self@, env, event),
    {
        match self {
            Join::Lookup { conversation_id, user_id, role, now } => match event.member() {
                Err(e) => Step::Done(Err(e)),
                Ok(Some(_)) => Step::Ask(
                    Join::Written,
                    ActionOf::UpdateMember {
                        conversation_id,
                        user_id,
                        change: MemberChange::Rejoin(role),
                    },
                ),
                Ok(None) => Step::Ask(
                    Join::Written,
                    ActionOf::InsertMember(
                        conversation_member::Model {
                            conversation_id,
                            user_id,
                            role,
                            last_read_seq: 0,
                            muted_until: None,
                            can_speak: true,
                            muted: false,
                            pinned: false,
                            joined_at: now,
                            left_at: None,
                        },
                    ),
                ),
            },
            Join::Written => Step::Done(member_as_written(event)),
        }
    }
}

/// Looks up a conversation for one of its members.
#[derive(Debug)]
pub enum Access {
    /// Waiting for the membership.
    Member { conversation_id: Id },
    /// Waiting for the conversation.
    Conversation { member: conversation_member::Model },
}

impl View for Access {
    type V = Access;

    open spec fn view(&self) -> Access {
        *self
    }
}

/// First step of looking up a conversation for one of its members.
pub open spec fn access_start(conversation_id: Id, user_id: Id) -> Step<
    Access,
    ActionSpec,
    ConversationWithMember,
> {
    Step::Ask(
        Access::Member { conversation_id },
        ActionOf::FindMember { conversation_id, user_id },
    )
}

/// Starts to look up a conversation for one of its members.
pub fn get_conversation_for_member(conversation_id: Id, user_id: Id) -> (r: Step<
    Access,
    Action,
    ConversationWithMember,
>)
    ensures
        r@ == access_start(conversation_id, user_id),
{
    Step::Ask(Access::Member { conversation_id }, find_member(conversation_id, user_id))
}

impl Flow for Access {
    type Output = ConversationWithMember;

    open spec fn step(state: Access, env: Env, event: Event) -> Step<
        Access,
        ActionSpec,
        ConversationWithMember,
    > {
        match state {
            Access::Member { conversation_id } => match event.spec_member() {
                Err(e) => Step::Done(Err(e)),
                Ok(None) => Step::Done(Err(AppError::NotMember)),
                Ok(Some(member)) => Step::Ask(
                    Access::Conversation { member },
                    ActionOf::FindConversation { conversation_id },
                ),
            },
            Access::Conversation { member } => match event.spec_conversation() {
                Err(e) => Step::Done(Err(e)),
                Ok(None) => Step::Done(Err(AppError::ConversationNotFound)),
                Ok(Some(conversation)) => Step::Done(
                    Ok(ConversationWithMember { conversation, member }),
                ),
            },
        }
    }

    fn next(self, env: Env, event: Event) -> (r: Step<Access, Action, ConversationWithMember>)
        ensures
            r@ == Access::step(self@, env, event),
    {
        match self {
            Access::Member { conversation_id } => match event.member() {
                Err(e) => Step::Done(Err(e)),
                Ok(None) => Step::Done(Err(AppError::NotMember)),
                Ok(Some(member)) => Step::Ask(
                    Access::Conversation { member },
                    ActionOf::FindConversation { conversation_id },
                ),
            },
            Access::Conversation { member } => match event.conversation() {
                Err(e) => Step::Done(Err(e)),
                Ok(None) => Step::Done(Err(AppError::ConversationNotFound)),
                Ok(Some(conversation)) => Step::Done(
                    Ok(ConversationWithMember { conversation, member }),
                ),
            },
        }
    }
}

/// Moves the read mark of a member.
#[derive(Debug)]
pub enum UpdateLastRead {
    /// Waiting for the membership.
    Lookup { conversation_id: Id, user_id: Id, seq: i64 },
    /// Waiting for the row as written.
    Written,
}

impl View for UpdateLastRead {
    type V = UpdateLastRead;

    open spec fn view(&self) -> UpdateLastRead {
        *self
    }
}

/// First step of moving the read mark of a member.
pub open spec fn last_read_start(conversation_id: Id, user_id: Id, seq: i64) -> Step<
    UpdateLastRead,
    ActionSpec,
    conversation_member::Model,
> {
    Step::Ask(
        UpdateLastRead::Lookup { conversation_id, user_id, seq },
        ActionOf::FindMember { conversation_id, user_id },
    )
}

/// Starts to move the read mark of a member. The mark only ever moves forward.
pub fn update_last_read(conversation_id: Id, user_id: Id, seq: i64) -> (r: Step<
    UpdateLastRead,
    Action,
    conversation_member::Model,
>)
    ensures
        r@ == last_read_start(conversation_id, user_id, seq),
{
    Step::Ask(
        UpdateLastRead::Lookup { conversation_id, user_id, seq },
        find_member(conversation_id, user_id),
    )
}

impl Flow for UpdateLastRead {
    type Output = conversation_member::Model;

    open spec fn step(state: UpdateLastRead, env: Env, event: Event) -> Step<
        UpdateLastRead,
        ActionSpec,
        conversation_member::Model,
    > {
        match state {
            UpdateLastRead::Lookup { conversation_id, user_id, seq } => match event.spec_member() {
                Err(e) => Step::Done(Err(e)),
                Ok(None) => Step::Done(Err(AppError::NotMember)),
                Ok(Some(member)) => if seq <= member.last_read_seq {
                    Step::Done(Ok(member))
                } else {
                    Step::Ask(
                        UpdateLastRead::Written,
                        ActionOf::UpdateMember {
                            conversation_id,
                            user_id,
                            change: MemberChange::LastRead(seq),
                        },
                    )
                },
            },
            UpdateLastRead::Written => Step::Done(written_member(event)),
        }
    }

    fn next(self, env: Env, event: Event) -> (r: Step<
        UpdateLastRead,
        Action,
        conversation_member::Model,
    >)
        ensures
            r@ == UpdateLastRead::step(self@, env, event),
    {
        match self {
            UpdateLastRead::Lookup { conversation_id, user_id, seq } => match event.member() {
                Err(e) => Step::Done(Err(e)),
                Ok(None) => Step::Done(Err(AppError::NotMember)),
                Ok(Some(member)) => if seq <= member.last_read_seq {
                    Step::Done(Ok(member))
                } else {
                    Step::Ask(
                        UpdateLastRead::Written,
                        ActionOf::UpdateMember {
                            conversation_id,
                            user_id,
                            change: MemberChange::LastRead(seq),
                        },
                    )
                },
            },
            UpdateLastRead::Written => Step::Done(member_as_written(event)),
        }
    }
}

/// Changes one column of an active member.
#[derive(Debug)]
pub enum ChangeMember {
    /// Waiting for the membership.
    Lookup { conversation_id: Id, user_id: Id, change: MemberChange },
    /// Waiting for the row as written.
    Written,
}

impl View for ChangeMember {
    type V = ChangeMember;

    open spec fn view(&self) -> ChangeMember {
        *self
    }
}

/// First step of changing an active member.
pub open spec fn change_start(conversation_id: Id, user_id: Id, change: MemberChange) -> Step<
    ChangeMember,
    ActionSpec,
    conversation_member::Model,
> {
    Step::Ask(
        ChangeMember::Lookup { conversation_id, user_id, change },
        ActionOf::FindMember { conversation_id, user_id },
    )
}

/// Starts to mute a member until a point in time, or to lift the mute.
pub fn set_member_mute(
    conversation_id: Id,
    user_id: Id,
    muted_until: Option<Timestamp>,
) -> (r: Step<ChangeMember, Action, conversation_member::Model>)
    ensures
        r@ == change_start(conversation_id, user_id, MemberChange::MutedUntil(muted_until)),
{
    Step::Ask(
        ChangeMember::Lookup {
            conversation_id,
            user_id,
            change: MemberChange::MutedUntil(muted_until),
        },
        find_member(conversation_id, user_id),
    )
}

/// Starts to set whether a member may speak where only administrators may.
pub fn set_member_speak(conversation_id: Id, user_id: Id, can_speak: bool) -> (r: Step<
    ChangeMember,
    Action,
    conversation_member::Model,
>)
    ensures
        r@ == change_start(conversation_id, user_id, MemberChange::CanSpeak(can_speak)),
{
    Step::Ask(
        ChangeMember::Lookup {
            conversation_id,
            user_id,
            change: MemberChange::CanSpeak(can_speak),
        },
        find_member(conversation_id, user_id),
    )
}

/// Starts to set the role of a member.
pub fn set_member_role(conversation_id: Id, user_id: Id, role: Role) -> (r: Step<
    ChangeMember,
    Action,
    conversation_member::Model,
>)
    ensures
        r@ == change_start(conversation_id, user_id, MemberChange::Role(role)),
{
    Step::Ask(
        ChangeMember::Lookup { conversation_id, user_id, change: MemberChange::Role(role) },
        find_member(conversation_id, user_id),
    )
}

impl Flow for ChangeMember {
    type Output = conversation_member::Model;

    open spec fn step(state: ChangeMember, env: Env, event: Event) -> Step<
        ChangeMember,
        ActionSpec,
        conversation_member::Model,
    > {
        match state {
            ChangeMember::Lookup { conversation_id, user_id, change } => match event.spec_member() {
                Err(e) => Step::Done(Err(e)),
                Ok(None) => Step::Done(Err(AppError::MemberNotFound)),
                Ok(Some(_)) => Step::Ask(
                    ChangeMember::Written,
                    ActionOf::UpdateMember { conversation_id, user_id, change },
                ),
            },
            ChangeMember::Written => Step::Done(written_member(event)),
        }
    }

    fn next(self, env: Env, event: Event) -> (r: Step<
        ChangeMember,
        Action,
        conversation_member::Model,
    >)
        ensures
            r@ == ChangeMember::step(self@, env, event),
    {
        match self {
            ChangeMember::Lookup { conversation_id, user_id, change } => match event.member() {
                Err(e) => Step::Done(Err(e)),
                Ok(None) => Step::Done(Err(AppError::MemberNotFound)),
                Ok(Some(_)) => Step::Ask(
                    ChangeMember::Written,
                    ActionOf::UpdateMember { conversation_id, user_id, change },
                ),
            },
            ChangeMember::Written => Step::Done(member_as_written(event)),
        }
    }
}

} // verus!
