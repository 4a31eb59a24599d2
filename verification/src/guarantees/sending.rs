//! Sending messages.

use vstd::prelude::*;

use crate::clock::Timestamp;
use crate::domain::verdict_on;
use crate::entity::{conversation, message};
use crate::error::AppError;
use crate::flow::{ActionOf, ActionSpec, Env, Event, Flow, Step};
use crate::guarantees::access::access_result;
use crate::guarantees::groups::refused;
use crate::ids::Id;
use crate::json::{json_of, json_printed};
use crate::realtime::commands::Command;
use crate::realtime::dialogue::{acknowledgement, dialogue_start, Dialogue};
use crate::realtime::protocol::error_json;
use crate::repo::sending::{new_message, sending_start, InsertMessage};
use crate::repo::{ConversationWithMember, NewMessage};
use crate::routes::dto::message_json;
use crate::routes::messages::{
    requested_message, send_message_start, speech_verdict, SendMessage,
};
use crate::routes::{created_or_ok, ReplySpec, SendMessageRequest};
use crate::service::{create_message_start, CreateMessage};
use crate::store::{outcome, Store};
use crate::text::text_of;

verus! {

/// Whether a sender has given a message's identifier to a message of the conversation before.
pub open spec fn is_repeated(store: Store, new: NewMessage) -> bool {
    new.client_msg_id is Some && exists|row: message::Model| #[trigger]
        store.has_message(row) && Store::is_client_message(
            row,
            new.conversation_id,
            new.sender_id,
            new.client_msg_id->0@,
        )
}

/// The tables with a new message; the conversation's sequence number is that of the message.
pub open spec fn with_message(store: Store, row: message::Model) -> Store {
    Store {
        conversations: store.conversations.insert(
            row.conversation_id,
            conversation::Model {
                next_seq: row.seq,
                updated_at: row.created_at,
                ..store.conversations[row.conversation_id]
            },
        ),
        messages: store.messages.insert(row.id, row),
        ..store
    }
}

/// What storing a message ends with: the message there is, or a new one with the next sequence
/// number.
pub open spec fn stored(
    store: Store,
    new: NewMessage,
    end: Store,
    result: Result<(message::Model, bool), AppError>,
) -> bool {
    if is_repeated(store, new) {
        &&& end == store
        &&& result matches Ok((row, created)) && !created && store.has_message(row)
            && Store::is_client_message(
            row,
            new.conversation_id,
            new.sender_id,
            new.client_msg_id->0@,
        )
    } else if !store.conversations.contains_key(new.conversation_id) {
        end == store && result == Err::<(message::Model, bool), AppError>(
            AppError::ConversationNotFound,
        )
    } else {
        &&& result matches Ok((row, created)) && created && row == new_message(
            new,
            row.id,
            (store.conversations[new.conversation_id].next_seq + 1) as i64,
            row.created_at,
        ) && store.conversations[new.conversation_id].next_seq < i64::MAX && store.takes_message(
            row,
        ) && end == with_message(store, row)
    }
}

/// Storing a message finds the one that its sender gave the same identifier, and then changes
/// nothing; otherwise it adds the message with the next sequence number of the conversation.
pub proof fn law_messages_are_found_or_stored(
    store: Store,
    new: NewMessage,
    now: Timestamp,
    answers: Seq<(Env, Event)>,
)
    ensures
        outcome::<InsertMessage>(sending_start(new, now), store, answers) matches Some(
            (end, result),
        ) ==> stored(store, new, end, result),
{
    reveal_with_fuel(outcome, 5);
    assert forall|row: message::Model| #[trigger]
        store.after(
            ActionOf::AllocateSeq { conversation_id: new.conversation_id, at: now },
        ).has_message(row) implies store.has_message(row) by {}
    assert forall|row: message::Model| #[trigger] store.has_message(row) implies store.after(
        ActionOf::AllocateSeq { conversation_id: new.conversation_id, at: now },
    ).has_message(row) by {}
}

/// No message has a sequence number that its conversation has not reached.
pub open spec fn seqs_are_reached(store: Store) -> bool {
    forall|row: message::Model| #[trigger]
        store.has_message(row) && store.conversations.contains_key(row.conversation_id) ==> row.seq
            <= store.conversations[row.conversation_id].next_seq
}

/// A new message comes after every other message of its conversation, and no message of another
/// conversation, and no earlier one, changes.
pub proof fn law_new_messages_come_last(
    store: Store,
    new: NewMessage,
    end: Store,
    result: Result<(message::Model, bool), AppError>,
)
    requires
        store.keyed(),
        seqs_are_reached(store),
        stored(store, new, end, result),
    ensures
        end.keyed(),
        seqs_are_reached(end),
        result matches Ok((row, created)) ==> end.has_message(row) && (created ==> forall|
            other: message::Model,
        | #[trigger]
            store.has_message(other) && other.conversation_id == row.conversation_id ==> other.seq
                < row.seq),
        forall|row: message::Model| #[trigger] store.has_message(row) ==> end.has_message(row),
        end.members == store.members,
{
    if result is Ok && result->Ok_0.1 {
        let row = result->Ok_0.0;
        assert forall|other: message::Model| #[trigger] end.has_message(other) implies other == row
            || store.has_message(other) by {}
        assert forall|other: message::Model| #[trigger]
            store.has_message(other) implies end.has_message(other) by {
            assert(store.messages.contains_key(other.id));
        }
        assert(end.keyed()) by {
            assert forall|a: message::Model, b: message::Model| #[trigger]
                end.has_message(a) && #[trigger] end.has_message(b) && a.conversation_id
                    == b.conversation_id && a.id != b.id implies a.seq != b.seq && !(
            a.sender_id is Some && a.sender_id == b.sender_id && a.client_msg_id is Some
                && b.client_msg_id is Some && a.client_msg_id->0@ == b.client_msg_id->0@) by {
                if a.id == row.id {
                    assert(store.has_message(b));
                } else if b.id == row.id {
                    assert(store.has_message(a));
                } else {
                    assert(store.has_message(a) && store.has_message(b));
                }
            }
        }
    }
}

/// A message can be stored in every conversation that has sequence numbers left.
pub proof fn law_storing_comes_to_an_end(store: Store, new: NewMessage, now: Timestamp, env: Env)
    requires
        store.keyed(),
        seqs_are_reached(store),
        store.conversations.contains_key(new.conversation_id),
        store.conversations[new.conversation_id].next_seq < i64::MAX,
        !store.messages.contains_key(env.fresh_id),
    ensures
        exists|answers: Seq<(Env, Event)>| #[trigger]
            outcome::<InsertMessage>(sending_start(new, now), store, answers) is Some,
{
    reveal_with_fuel(outcome, 5);
    let seq = (store.conversations[new.conversation_id].next_seq + 1) as i64;
    let row = new_message(new, env.fresh_id, seq, now);
    let after = store.after(
        ActionOf::AllocateSeq { conversation_id: new.conversation_id, at: now },
    );
    let allocated = (env, Event::Allocated(Some(seq)));
    let written = (env, Event::Message(Some(row)));
    if is_repeated(store, new) {
        let existing = choose|existing: message::Model| #[trigger]
            store.has_message(existing) && Store::is_client_message(
                existing,
                new.conversation_id,
                new.sender_id,
                new.client_msg_id->0@,
            );
        let answers = seq![(env, Event::Message(Some(existing)))];
        assert(answers.drop_first().len() == 0);
        assert(outcome::<InsertMessage>(sending_start(new, now), store, answers) is Some);
    } else {
        assert(after.takes_message(row)) by {
            assert forall|other: message::Model| #[trigger]
                after.has_message(other) && other.conversation_id
                    == row.conversation_id implies other.seq != row.seq && !(row.sender_id is Some
                && row.client_msg_id is Some && Store::is_client_message(
                other,
                row.conversation_id,
                row.sender_id->0,
                row.client_msg_id->0@,
            )) by {
                assert(store.has_message(other));
            }
        }
        if new.client_msg_id is Some {
            let answers = seq![(env, Event::Message(None)), allocated, written];
            assert(answers.drop_first() == seq![allocated, written]);
            assert(seq![allocated, written].drop_first() == seq![written]);
            assert(outcome::<InsertMessage>(sending_start(new, now), store, answers) is Some);
        } else {
            let answers = seq![allocated, written];
            assert(answers.drop_first() == seq![written]);
            assert(outcome::<InsertMessage>(sending_start(new, now), store, answers) is Some);
        }
    }
}

/// Sending with the same identifier again, whatever the message, finds the message that the first
/// sending ended with, and changes nothing.
pub proof fn law_sending_is_idempotent(
    store: Store,
    new: NewMessage,
    now: Timestamp,
    answers: Seq<(Env, Event)>,
    again: NewMessage,
    later: Timestamp,
    answers_later: Seq<(Env, Event)>,
)
    requires
        store.keyed(),
        seqs_are_reached(store),
        new.client_msg_id is Some,
        again.client_msg_id is Some,
        again.client_msg_id->0@ == new.client_msg_id->0@,
        again.conversation_id == new.conversation_id,
        again.sender_id == new.sender_id,
        outcome::<InsertMessage>(sending_start(new, now), store, answers) is Some,
    ensures
        ({
            let (end, result) = outcome::<InsertMessage>(
                sending_start(new, now),
                store,
                answers,
            )->0;
            result is Ok ==> (outcome::<InsertMessage>(
                sending_start(again, later),
                end,
                answers_later,
            ) matches Some((end_later, result_later)) ==> end_later == end && result_later == Ok::<
                (message::Model, bool),
                AppError,
            >((result->Ok_0.0, false)))
        }),
{
    law_messages_are_found_or_stored(store, new, now, answers);
    let (end, result) = outcome::<InsertMessage>(sending_start(new, now), store, answers)->0;
    law_new_messages_come_last(store, new, end, result);
    if result is Ok {
        assert(end.has_message(result->Ok_0.0));
        assert(is_repeated(end, again));
        law_messages_are_found_or_stored(end, again, later, answers_later);
    }
}

/// What sending a message ends with: a message that is not in order, a sender who is no member, or
/// a reply to nothing is refused with the tables as they were; otherwise the message is stored.
pub open spec fn sent(
    store: Store,
    new: NewMessage,
    end: Store,
    result: Result<(message::Model, bool), AppError>,
) -> bool {
    match verdict_on(new.kind@, json_of(new.content)) {
        Err(e) => end == store && result == Err::<(message::Model, bool), AppError>(e),
        Ok(_) => match access_result(store, new.conversation_id, new.sender_id) {
            Err(e) => end == store && result == Err::<(message::Model, bool), AppError>(e),
            Ok(_) => if new.reply_to_id is Some && !(store.messages.contains_key(
                new.reply_to_id->0,
            ) && store.messages[new.reply_to_id->0].conversation_id == new.conversation_id) {
                end == store && result == Err::<(message::Model, bool), AppError>(
                    AppError::ReplyNotFound,
                )
            } else {
                stored(store, new, end, result)
            },
        },
    }
}

/// The step of storing that follows the checks, and what it ends with.
proof fn lemma_storing(
    store: Store,
    new: NewMessage,
    conversation: conversation::Model,
    now: Timestamp,
    bus: bool,
    step: Step<InsertMessage, ActionSpec, (message::Model, bool)>,
    answers: Seq<(Env, Event)>,
) -> (k: nat)
    ensures
        outcome::<CreateMessage>(
            CreateMessage::storing(
                conversation,
                new.conversation_id,
                new.sender_id,
                now,
                bus,
                step,
            ),
            store,
            answers,
        ) matches Some((end, result)) ==> k <= answers.len() && outcome::<InsertMessage>(
            step,
            store,
            answers.take(k as int),
        ) == Some((end, result)),
    decreases answers.len(),
{
    match step {
        Step::Done(result) => {
            reveal_with_fuel(outcome, 4);
            0
        },
        Step::Ask(state, action) => {
            if answers.len() > 0 && store.admits(action, answers[0].1) {
                let rest = answers.drop_first();
                let k = lemma_storing(
                    store.after(action),
                    new,
                    conversation,
                    now,
                    answers[0].0.bus,
                    InsertMessage::step(state, answers[0].0, answers[0].1),
                    rest,
                );
                if k <= rest.len() {
                    assert(answers.take(k as int + 1).drop_first() == rest.take(k as int));
                    assert(answers.take(k as int + 1)[0] == answers[0]);
                }
                k + 1
            } else {
                0
            }
        },
    }
}

/// Sending a message checks it, its sender and what it replies to, stores it, and announces a new
/// one; an announcement that fails does not change the result.
pub proof fn law_messages_are_sent(
    store: Store,
    new: NewMessage,
    env: Env,
    answers: Seq<(Env, Event)>,
)
    ensures
        outcome::<CreateMessage>(create_message_start(new, env), store, answers) matches Some(
            (end, result),
        ) ==> sent(store, new, end, result),
{
    reveal_with_fuel(outcome, 4);
    let rest = answers.drop_first().drop_first();
    if verdict_on(new.kind@, json_of(new.content)) is Ok && access_result(
        store,
        new.conversation_id,
        new.sender_id,
    ) is Ok {
        let conversation = store.conversations[new.conversation_id];
        if new.reply_to_id is Some {
            let env2 = rest[0].0;
            let k = lemma_storing(
                store,
                new,
                conversation,
                env2.now,
                env2.bus,
                sending_start(new, env2.now),
                rest.drop_first(),
            );
            law_messages_are_found_or_stored(
                store,
                new,
                env2.now,
                rest.drop_first().take(k as int),
            );
        } else {
            let env1 = answers[1].0;
            let k = lemma_storing(
                store,
                new,
                conversation,
                env1.now,
                env1.bus,
                sending_start(new, env1.now),
                rest,
            );
            law_messages_are_found_or_stored(store, new, env1.now, rest.take(k as int));
        }
    }
}

/// A new message bears the time it was stored at, and an identifier that was fresh then.
pub proof fn law_new_messages_bear_their_time(
    store: Store,
    new: NewMessage,
    now: Timestamp,
    answers: Seq<(Env, Event)>,
)
    ensures
        outcome::<InsertMessage>(sending_start(new, now), store, answers) matches Some(
            (_, Ok((row, created))),
        ) ==> (created ==> row.created_at == now && row.id == answers[if new.client_msg_id is Some {
            1
        } else {
            0
        }].0.fresh_id),
{
    reveal_with_fuel(outcome, 5);
}

/// A message that is sent bears the time at which it was found to be in order: after its sender,
/// and where it quotes a message after that message, had been looked up.
pub proof fn law_sent_messages_bear_their_time(
    store: Store,
    new: NewMessage,
    env: Env,
    answers: Seq<(Env, Event)>,
)
    ensures
        outcome::<CreateMessage>(create_message_start(new, env), store, answers) matches Some(
            (_, Ok((row, created))),
        ) ==> (created ==> row.created_at == if new.reply_to_id is Some {
            answers[2].0.now
        } else {
            answers[1].0.now
        }),
{
    reveal_with_fuel(outcome, 4);
    let rest = answers.drop_first().drop_first();
    if verdict_on(new.kind@, json_of(new.content)) is Ok && access_result(
        store,
        new.conversation_id,
        new.sender_id,
    ) is Ok {
        let conversation = store.conversations[new.conversation_id];
        if new.reply_to_id is Some {
            let env2 = rest[0].0;
            let k = lemma_storing(
                store,
                new,
                conversation,
                env2.now,
                env2.bus,
                sending_start(new, env2.now),
                rest.drop_first(),
            );
            law_new_messages_bear_their_time(
                store,
                new,
                env2.now,
                rest.drop_first().take(k as int),
            );
        } else {
            let env1 = answers[1].0;
            let k = lemma_storing(
                store,
                new,
                conversation,
                env1.now,
                env1.bus,
                sending_start(new, env1.now),
                rest,
            );
            law_new_messages_bear_their_time(store, new, env1.now, rest.take(k as int));
        }
    }
}

proof fn lemma_creating(
    store: Store,
    conversation_id: Id,
    step: Step<CreateMessage, ActionSpec, (message::Model, bool)>,
    answers: Seq<(Env, Event)>,
) -> (k: nat)
    ensures
        outcome::<SendMessage>(
            SendMessage::creating(conversation_id, step),
            store,
            answers,
        ) matches Some((end, result)) ==> k <= answers.len() && (outcome::<CreateMessage>(
            step,
            store,
            answers.take(k as int),
        ) matches Some((end_created, created)) && end_created == end && result == (match created {
            Err(e) => Err::<ReplySpec, AppError>(e),
            Ok((row, is_new)) => Ok(created_or_ok(is_new, message_json(row))),
        })),
    decreases answers.len(),
{
    match step {
        Step::Done(result) => {
            reveal_with_fuel(outcome, 4);
            0
        },
        Step::Ask(state, action) => {
            if answers.len() > 0 && store.admits(action, answers[0].1) {
                let rest = answers.drop_first();
                let k = lemma_creating(
                    store.after(action),
                    conversation_id,
                    CreateMessage::step(state, answers[0].0, answers[0].1),
                    rest,
                );
                if k <= rest.len() {
                    assert(answers.take(k as int + 1).drop_first() == rest.take(k as int));
                    assert(answers.take(k as int + 1)[0] == answers[0]);
                }
                k + 1
            } else {
                0
            }
        },
    }
}

/// A member who may not speak, because of a mute or because only administrators may, is refused,
/// and nothing changes. Everybody else's message is sent, and the answer tells a new message from
/// one that was there before.
pub proof fn law_only_those_who_may_speak_send(
    store: Store,
    conversation_id: Id,
    user_id: Id,
    input: SendMessageRequest,
    env: Env,
    answers: Seq<(Env, Event)>,
)
    ensures
        ({
            let run = outcome::<SendMessage>(
                send_message_start(user_id, conversation_id, input, env),
                store,
                answers,
            );
            match access_result(store, conversation_id, user_id) {
                Err(e) => refused(run, store, e),
                Ok(found) => match speech_verdict(found, answers[1].0.now) {
                    Err(e) => refused(run, store, e),
                    Ok(_) => run matches Some((end, result)) ==> exists|
                        created: Result<(message::Model, bool), AppError>,
                    | #[trigger]
                        sent(
                            store,
                            requested_message(user_id, conversation_id, input),
                            end,
                            created,
                        ) && result == match created {
                            Err(e) => Err::<ReplySpec, AppError>(e),
                            Ok((row, is_new)) => Ok(created_or_ok(is_new, message_json(row))),
                        },
                },
            }
        }),
{
    reveal_with_fuel(outcome, 3);
    let new = requested_message(user_id, conversation_id, input);
    let rest = answers.drop_first().drop_first();
    let found = access_result(store, conversation_id, user_id);
    if found is Ok && speech_verdict(found->Ok_0, answers[1].0.now) is Ok {
        let start = create_message_start(new, answers[1].0);
        let k = lemma_creating(store, conversation_id, start, rest);
        law_messages_are_sent(store, new, answers[1].0, rest.take(k as int));
    }
}

/// Speaking is restricted in groups only; the owner and administrators speak in a group where only
/// administrators may; and a mute that has run out no longer counts.
pub proof fn law_who_may_speak(found: ConversationWithMember, now: Timestamp)
    ensures
        !(found.conversation.kind is Group) ==> speech_verdict(found, now) is Ok,
        found.member.muted_until is None && (found.member.role is Owner
            || found.member.role is Admin || found.member.can_speak
            || !found.conversation.only_admins_speak) ==> speech_verdict(found, now) is Ok,
        found.conversation.kind is Group && found.member.muted_until is Some
            && found.member.muted_until->0.total() > now.total() ==> speech_verdict(found, now)
            == Err::<(), AppError>(AppError::Muted),
        found.member.muted_until is Some && found.member.muted_until->0.total() <= now.total()
            ==> speech_verdict(found, now) != Err::<(), AppError>(AppError::Muted),
{
}

proof fn lemma_dialogue_sending(
    store: Store,
    request_id: Option<String>,
    client_msg_id: Option<String>,
    conversation_id: Id,
    step: Step<CreateMessage, ActionSpec, (message::Model, bool)>,
    answers: Seq<(Env, Event)>,
) -> (k: nat)
    ensures
        outcome::<Dialogue>(
            Dialogue::sending(request_id, client_msg_id, conversation_id, step),
            store,
            answers,
        ) matches Some((end, result)) ==> k <= answers.len() && (outcome::<CreateMessage>(
            step,
            store,
            answers.take(k as int),
        ) matches Some((end_created, created)) && end_created == end && result == Ok::<
            Option<Seq<char>>,
            AppError,
        >(Some(send_answer(request_id, client_msg_id, created)))),
    decreases answers.len(),
{
    match step {
        Step::Done(result) => {
            reveal_with_fuel(outcome, 4);
            0
        },
        Step::Ask(state, action) => {
            if answers.len() > 0 && store.admits(action, answers[0].1) {
                let rest = answers.drop_first();
                let k = lemma_dialogue_sending(
                    store.after(action),
                    request_id,
                    client_msg_id,
                    conversation_id,
                    CreateMessage::step(state, answers[0].0, answers[0].1),
                    rest,
                );
                if k <= rest.len() {
                    assert(answers.take(k as int + 1).drop_first() == rest.take(k as int));
                    assert(answers.take(k as int + 1)[0] == answers[0]);
                }
                k + 1
            } else {
                0
            }
        },
    }
}

/// What a client that sends a message over a connection is answered: the message, or why it was
/// refused; either repeats the request's identifier.
pub open spec fn send_answer(
    request_id: Option<String>,
    client_msg_id: Option<String>,
    created: Result<(message::Model, bool), AppError>,
) -> Seq<char> {
    match created {
        Err(e) => json_printed(
            error_json(text_of(request_id), e.spec_code(), e.spec_message()),
        ),
        Ok((row, _)) => acknowledgement(text_of(request_id), text_of(client_msg_id), row),
    }
}

/// A message that a client sends over a connection is sent as any other, and the client is always
/// answered.
pub proof fn law_clients_are_answered(
    store: Store,
    user_id: Id,
    command: Command,
    env: Env,
    answers: Seq<(Env, Event)>,
)
    requires
        command is Send,
    ensures
        outcome::<Dialogue>(dialogue_start(user_id, command, env), store, answers) matches Some(
            (end, result),
        ) ==> exists|created: Result<(message::Model, bool), AppError>| #[trigger]
            sent(
                store,
                NewMessage {
                    conversation_id: command->Send_conversation_id,
                    sender_id: user_id,
                    kind: command->kind,
                    content: command->content,
                    reply_to_id: command->reply_to_id,
                    client_msg_id: command->client_msg_id,
                },
                end,
                created,
            ) && result == Ok::<Option<Seq<char>>, AppError>(
                Some(send_answer(command->Send_request_id, command->client_msg_id, created)),
            ),
{
    let new = NewMessage {
        conversation_id: command->Send_conversation_id,
        sender_id: user_id,
        kind: command->kind,
        content: command->content,
        reply_to_id: command->reply_to_id,
        client_msg_id: command->client_msg_id,
    };
    let k = lemma_dialogue_sending(
        store,
        command->Send_request_id,
        command->client_msg_id,
        command->Send_conversation_id,
        create_message_start(new, env),
        answers,
    );
    law_messages_are_sent(store, new, env, answers.take(k as int));
}

} // verus!
