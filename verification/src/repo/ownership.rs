//! Handing a group over, and dissolving it.

use vstd::prelude::*;

use crate::clock::Timestamp;
use crate::entity::conversation;
use crate::entity::conversation_member::{self, Role};
use crate::flow::{
    Action, ActionOf, ActionSpec, ConversationChange, Env, Event, Flow, MemberChange, Step,
};
use crate::ids::Id;
use crate::repo::membership::{change_start, set_member_role, ChangeMember};
use crate::repo::{conversation_as_written, written_conversation};

verus! {

/// Hands a group over to a new owner.
#[derive(Debug)]
pub enum TransferOwner {
    /// Making the old owner an administrator.
    Demote { conversation_id: Id, new_owner: Id, now: Timestamp, change: ChangeMember },
    /// Making the new owner the owner.
    Promote { conversation_id: Id, new_owner: Id, now: Timestamp, change: ChangeMember },
    /// Waiting for the conversation as written.
    Written,
}

impl View for TransferOwner {
    type V = TransferOwner;

    open spec fn view(&self) -> TransferOwner {
        *self
    }
}

impl TransferOwner {
    /// The step that goes on with making the old owner an administrator.
    pub open spec fn demoting(
        conversation_id: Id,
        new_owner: Id,
        now: Timestamp,
        step: Step<ChangeMember, ActionSpec, conversation_member::Model>,
    ) -> Step<TransferOwner, ActionSpec, conversation::Model> {
        match step {
            Step::Ask(change, action) => Step::Ask(
                TransferOwner::Demote { conversation_id, new_owner, now, change },
                action,
            ),
            Step::Done(Err(e)) => Step::Done(Err(e)),
            Step::Done(Ok(_)) => TransferOwner::promoting(
                conversation_id,
                new_owner,
                now,
                change_start(conversation_id, new_owner, MemberChange::Role(Role::Owner)),
            ),
        }
    }

    fn on_demoted(
        conversation_id: Id,
        new_owner: Id,
        now: Timestamp,
        step: Step<ChangeMember, Action, conversation_member::Model>,
    ) -> (r: Step<TransferOwner, Action, conversation::Model>)
        ensures
            r@ == TransferOwner::demoting(conversation_id, new_owner, now, step@),
    {
        match step {
            Step::Ask(change, action) => Step::Ask(
                TransferOwner::Demote { conversation_id, new_owner, now, change },
                action,
            ),
            Step::Done(Err(e)) => Step::Done(Err(e)),
            Step::Done(Ok(_)) => TransferOwner::on_promoted(
                conversation_id,
                new_owner,
                now,
                set_member_role(conversation_id, new_owner, Role::Owner),
            ),
        }
    }

    /// The step that goes on with making the new owner the owner.
    pub open spec fn promoting(
        conversation_id: Id,
        new_owner: Id,
        now: Timestamp,
        step: Step<ChangeMember, ActionSpec, conversation_member::Model>,
    ) -> Step<TransferOwner, ActionSpec, conversation::Model> {
        match step {
            Step::Ask(change, action) => Step::Ask(
                TransferOwner::Promote { conversation_id, new_owner, now, change },
                action,
            ),
            Step::Done(Err(e)) => Step::Done(Err(e)),
            Step::Done(Ok(_)) => Step::Ask(
                TransferOwner::Written,
                ActionOf::UpdateConversation {
                    conversation_id,
                    change: ConversationChange::Owner { owner_id: new_owner, at: now },
                },
            ),
        }
    }

    fn on_promoted(
        conversation_id: Id,
        new_owner: Id,
        now: Timestamp,
        step: Step<ChangeMember, Action, conversation_member::Model>,
    ) -> (r: Step<TransferOwner, Action, conversation::Model>)
        ensures
            r@ == TransferOwner::promoting(conversation_id, new_owner, now, step@),
    {
        match step {
            Step::Ask(change, action) => Step::Ask(
                TransferOwner::Promote { conversation_id, new_owner, now, change },
                action,
            ),
            Step::Done(Err(e)) => Step::Done(Err(e)),
            Step::Done(Ok(_)) => Step::Ask(
                TransferOwner::Written,
                ActionOf::UpdateConversation {
                    conversation_id,
                    change: ConversationChange::Owner { owner_id: new_owner, at: now },
                },
            ),
        }
    }
}

/// First step of handing a group over.
pub open spec fn transfer_start(
    conversation: conversation::Model,
    new_owner: Id,
    now: Timestamp,
) -> Step<TransferOwner, ActionSpec, conversation::Model> {
    match conversation.owner_id {
        Some(old_owner) => if old_owner == new_owner {
            Step::Done(Ok(conversation))
        } else {
            TransferOwner::demoting(
                conversation.id,
                new_owner,
                now,
                change_start(conversation.id, old_owner, MemberChange::Role(Role::Admin)),
            )
        },
        None => TransferOwner::promoting(
            conversation.id,
            new_owner,
            now,
            change_start(conversation.id, new_owner, MemberChange::Role(Role::Owner)),
        ),
    }
}

/// Starts to hand a group over: the old owner becomes an administrator, the new one the owner.
/// Nothing changes where the new owner is the owner already.
pub fn transfer_owner(conversation: conversation::Model, new_owner: Id, now: Timestamp) -> (r: Step<
    TransferOwner,
    Action,
    conversation::Model,
>)
    ensures
        r@ == transfer_start(conversation, new_owner, now),
{
    let conversation_id = conversation.id;
    match conversation.owner_id {
        Some(old_owner) => {
            if old_owner == new_owner {
                return Step::Done(Ok(conversation));
            }
            TransferOwner::on_demoted(
                conversation_id,
                new_owner,
                now,
                set_member_role(conversation_id, old_owner, Role::Admin),
            )
        },
        None => TransferOwner::on_promoted(
            conversation_id,
            new_owner,
            now,
            set_member_role(conversation_id, new_owner, Role::Owner),
        ),
    }
}

impl Flow for TransferOwner {
    type Output = conversation::Model;

    open spec fn step(state: TransferOwner, env: Env, event: Event) -> Step<
        TransferOwner,
        ActionSpec,
        conversation::Model,
    > {
        match state {
            TransferOwner::Demote { conversation_id, new_owner, now, change } =>
                TransferOwner::demoting(
                conversation_id,
                new_owner,
                now,
                ChangeMember::step(change, env, event),
            ),
            TransferOwner::Promote { conversation_id, new_owner, now, change } =>
                TransferOwner::promoting(
                conversation_id,
                new_owner,
                now,
                ChangeMember::step(change, env, event),
            ),
            TransferOwner::Written => Step::Done(written_conversation(event)),
        }
    }

    fn next(self, env: Env, event: Event) -> (r: Step<TransferOwner, Action, conversation::Model>)
        ensures
            r@ == TransferOwner::step(self@, env, event),
    {
        match self {
            TransferOwner::Demote { conversation_id, new_owner, now, change } =>
                TransferOwner::on_demoted(
                conversation_id,
                new_owner,
                now,
                change.next(env, event),
            ),
            TransferOwner::Promote { conversation_id, new_owner, now, change } =>
                TransferOwner::on_promoted(
                conversation_id,
                new_owner,
                now,
                change.next(env, event),
            ),
            TransferOwner::Written => Step::Done(conversation_as_written(event)),
        }
    }
}

/// Dissolves a group.
#[derive(Debug)]
pub enum Dissolve {
    /// Waiting for the messages to be deleted.
    Messages { conversation_id: Id },
    /// Waiting for the memberships to be deleted.
    Members { conversation_id: Id },
    /// Waiting for the conversation to be deleted.
    Conversation,
}

impl View for Dissolve {
    type V = Dissolve;

    open spec fn view(&self) -> Dissolve {
        *self
    }
}

/// First step of dissolving a group.
pub open spec fn dissolve_start(conversation_id: Id) -> Step<Dissolve, ActionSpec, ()> {
    Step::Ask(
        Dissolve::Messages { conversation_id },
        ActionOf::DeleteMessages { conversation_id },
    )
}

/// Starts to dissolve a group: its messages go first, then the memberships, then the group.
pub fn dissolve_conversation(conversation_id: Id) -> (r: Step<Dissolve, Action, ()>)
    ensures
        r@ == dissolve_start(conversation_id),
{
    Step::Ask(
        Dissolve::Messages { conversation_id },
        ActionOf::DeleteMessages { conversation_id },
    )
}

impl Flow for Dissolve {
    type Output = ();

    open spec fn step(state: Dissolve, env: Env, event: Event) -> Step<Dissolve, ActionSpec, ()> {
        match event.spec_affected() {
            Err(e) => Step::Done(Err(e)),
            Ok(_) => match state {
                Dissolve::Messages { conversation_id } => Step::Ask(
                    Dissolve::Members { conversation_id },
                    ActionOf::DeleteMembers { conversation_id },
                ),
                Dissolve::Members { conversation_id } => Step::Ask(
                    Dissolve::Conversation,
                    ActionOf::DeleteConversation { conversation_id },
                ),
                Dissolve::Conversation => Step::Done(Ok(())),
            },
        }
    }

    fn next(self, env: Env, event: Event) -> (r: Step<Dissolve, Action, ()>)
        ensures
            r@ == Dissolve::step(self@, env, event),
    {
        match event.affected() {
            Err(e) => Step::Done(Err(e)),
            Ok(_) => match self {
                Dissolve::Messages { conversation_id } => Step::Ask(
                    Dissolve::Members { conversation_id },
                    ActionOf::DeleteMembers { conversation_id },
                ),
                Dissolve::Members { conversation_id } => Step::Ask(
                    Dissolve::Conversation,
                    ActionOf::DeleteConversation { conversation_id },
                ),
                Dissolve::Conversation => Step::Done(Ok(())),
            },
        }
    }
}

} // verus!
