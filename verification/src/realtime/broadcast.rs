//! Telling the members of a conversation about a message.

use vstd::prelude::*;

use crate::entity::message;
use crate::flow::{Action, ActionOf, ActionSpec, Env, Event, Flow, Step};
use crate::ids::Id;
use crate::realtime::protocol::{event_line, event_text};
use crate::repo::list_members;
use crate::routes::dto::{message_json, user_ids, users_of, MessageDto};

verus! {

/// Tells the members of a conversation about a message, and ends with that message.
#[derive(Debug)]
pub enum Broadcast {
    /// Waiting for the members.
    Members { row: message::Model },
    /// Waiting for the text to be pushed.
    Pushed { row: message::Model },
}

impl View for Broadcast {
    type V = Broadcast;

    open spec fn view(&self) -> Broadcast {
        *self
    }
}

/// First step of telling the members of a conversation about a message.
pub open spec fn broadcast_start(conversation_id: Id, row: message::Model) -> Step<
    Broadcast,
    ActionSpec,
    message::Model,
> {
    Step::Ask(Broadcast::Members { row }, ActionOf::MembersOf { conversation_id })
}

/// Starts to tell the members of a conversation, the sender's other connections among them, about
/// a message. Nothing is pushed where the members cannot be read.
pub fn broadcast_message(conversation_id: Id, row: message::Model) -> (r: Step<
    Broadcast,
    Action,
    message::Model,
>)
    ensures
        r@ == broadcast_start(conversation_id, row),
{
    Step::Ask(Broadcast::Members { row }, list_members(conversation_id))
}

impl Flow for Broadcast {
    type Output = message::Model;

    open spec fn step(state: Broadcast, env: Env, event: Event) -> Step<
        Broadcast,
        ActionSpec,
        message::Model,
    > {
        match state {
            Broadcast::Members { row } => match event.spec_members() {
                Err(_) => Step::Done(Ok(row)),
                Ok(members) => Step::Ask(
                    Broadcast::Pushed { row },
                    ActionOf::Push {
                        user_ids: users_of(members@),
                        text: event_text("message"@, message_json(row)),
                    },
                ),
            },
            Broadcast::Pushed { row } => Step::Done(Ok(row)),
        }
    }

    fn next(self, env: Env, event: Event) -> (r: Step<Broadcast, Action, message::Model>)
        ensures
            r@ == Broadcast::step(self@, env, event),
    {
        match self {
            Broadcast::Members { row } => match event.members() {
                Err(_) => Step::Done(Ok(row)),
                Ok(members) => {
                    let text = event_line("message", MessageDto::from(&row).to_json());
                    Step::Ask(
                        Broadcast::Pushed { row },
                        ActionOf::Push { user_ids: user_ids(&members), text },
                    )
                },
            },
            Broadcast::Pushed { row } => Step::Done(Ok(row)),
        }
    }
}

} // verus!
