//! Recalling messages.

use vstd::prelude::*;

use crate::clock::Timestamp;
use crate::entity::message;
use crate::error::AppError;
use crate::flow::{Env, Event};
use crate::guarantees::access::access_result;
use crate::guarantees::groups::{answered, refused};
use crate::ids::Id;
use crate::routes::dto::message_json;
use crate::routes::messages::{recall_message_start, Recall};
use crate::routes::ok;
use crate::service::recallable_at;
use crate::store::{outcome, recalled, Store};

verus! {

/// The tables after a message was recalled.
pub open spec fn with_recalled(store: Store, message_id: Id, now: Timestamp) -> Store {
    Store {
        messages: store.messages.insert(message_id, recalled(store.messages[message_id], now)),
        ..store
    }
}

/// A message is recalled by its sender alone, who still has to be a member, and only for a while
/// after it was sent; it stays in its place and only its status changes. Recalling it again
/// changes nothing. Everything else is refused, and nothing changes.
pub proof fn law_messages_are_recalled_by_their_sender(
    store: Store,
    conversation_id: Id,
    user_id: Id,
    message_id: Id,
    answers: Seq<(Env, Event)>,
)
    requires
        store.keyed(),
    ensures
        ({
            let run = outcome::<Recall>(
                recall_message_start(user_id, conversation_id, message_id),
                store,
                answers,
            );
            let row = store.messages[message_id];
            let now = answers[2].0.now;
            match access_result(store, conversation_id, user_id) {
                Err(e) => refused(run, store, e),
                Ok(_) => if !(store.messages.contains_key(message_id) && row.conversation_id
                    == conversation_id) {
                    refused(run, store, AppError::MessageNotFound)
                } else if row.sender_id != Some(user_id) {
                    refused(run, store, AppError::NotSender)
                } else if row.status is Recalled {
                    answered(run, store, ok(message_json(row)))
                } else if !recallable_at(row, now) {
                    refused(run, store, AppError::RecallExpired)
                } else {
                    answered(
                        run,
                        with_recalled(store, message_id, now),
                        ok(message_json(recalled(row, now))),
                    )
                },
            }
        }),
{
    reveal_with_fuel(outcome, 8);
}

/// A message can be recalled for two minutes after it was sent, and not a nanosecond longer; once
/// that time has passed, it can never be recalled again.
pub proof fn law_the_recall_window(row: message::Model, now: Timestamp)
    ensures
        recallable_at(row, now) <==> now.total() <= row.created_at.total() + 120 * 1_000_000_000,
        forall|later: Timestamp|
            !recallable_at(row, now) && later.total() >= now.total() ==> !(
            #[trigger] recallable_at(row, later)),
{
}

/// Recalling a message that was recalled changes nothing and gives the message as it is, at any
/// time; in particular after the window has passed.
pub proof fn law_recalling_is_idempotent(
    store: Store,
    conversation_id: Id,
    user_id: Id,
    message_id: Id,
    now: Timestamp,
    answers: Seq<(Env, Event)>,
)
    requires
        store.keyed(),
        access_result(store, conversation_id, user_id) is Ok,
        store.messages.contains_key(message_id),
        store.messages[message_id].conversation_id == conversation_id,
        store.messages[message_id].sender_id == Some(user_id),
    ensures
        ({
            let end = with_recalled(store, message_id, now);
            answered(
                outcome::<Recall>(
                    recall_message_start(user_id, conversation_id, message_id),
                    end,
                    answers,
                ),
                end,
                ok(message_json(end.messages[message_id])),
            )
        }),
{
    let end = with_recalled(store, message_id, now);
    assert(end.keyed()) by {
        assert forall|a: message::Model, b: message::Model| #[trigger]
            end.has_message(a) && #[trigger] end.has_message(b) && a.conversation_id
                == b.conversation_id && a.id != b.id implies a.seq != b.seq && !(a.sender_id is Some
            && a.sender_id == b.sender_id && a.client_msg_id is Some && b.client_msg_id is Some
            && a.client_msg_id->0@ == b.client_msg_id->0@) by {
            assert(store.has_message(store.messages[a.id]));
            assert(store.has_message(store.messages[b.id]));
        }
    }
    assert(access_result(end, conversation_id, user_id) is Ok);
    law_messages_are_recalled_by_their_sender(end, conversation_id, user_id, message_id, answers);
}

} // verus!
