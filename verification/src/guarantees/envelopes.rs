//! What is read from the envelopes that clients send, and what the envelopes say that they get.

use vstd::prelude::*;

use crate::clock::Timestamp;
use crate::entity::conversation_member::Role;
use crate::entity::message;
use crate::error::AppError;
use crate::flow::{ActionSpec, Env, Event, Step};
use crate::guarantees::documents::{has_just, holds_id, holds_text, holds_time};
use crate::guarantees::rows::law_new_messages_hold_what_was_sent;
use crate::guarantees::sending::{
    law_clients_are_answered, law_new_messages_come_last, send_answer, sent, seqs_are_reached,
};
use crate::guarantees::words::{lemma_keys, lemma_requests};
use crate::ids::{id_parsed, Id};
use crate::json::{json_of, json_printed, optional_text, Json};
use crate::realtime::commands::{command_in, command_of, Command, CommandOf};
use crate::realtime::dialogue::{
    acknowledgement, dialogue_start, pong_text, read_text, typing_text, Dialogue,
};
use crate::realtime::protocol::{error_json, event_text};
use crate::repo::NewMessage;
use crate::routes::dto::{id_json, message_json, optional_time_json};
use crate::routes::groups::{dissolved_text, handed_over_text};
use crate::routes::members::{muted_text, role_text, AddMembers};
use crate::routes::messages::recalled_text;
use crate::store::{outcome, Store};
use crate::text::text_of;

verus! {

/// Whether a document holds under a key a text that reads as an identifier.
pub open spec fn names(document: Json, key: Seq<char>, id: Id) -> bool {
    document.member(key) matches Some(Json::Str(text)) && id_parsed(text) == Some(id)
}

/// Whether a document holds under a key no text that reads as an identifier.
pub open spec fn names_nothing(document: Json, key: Seq<char>) -> bool {
    forall|id: Id| !(#[trigger] names(document, key, id))
}

/// An envelope that asks to send a message to a conversation is read as just that: the type given,
/// or a text message where none is given as a text; the content given, or `null`; the message
/// quoted, where the envelope names one; and both of the client's own identifiers.
pub proof fn law_messages_are_read_as_sent(
    envelope: Json,
    payload: Json,
    conversation_id: Id,
    quoted: Id,
)
    requires
        envelope.member("type"@) == Some(Json::Str("send_message"@)),
        envelope.member("payload"@) == Some(payload),
        names(payload, "conversationId"@, conversation_id),
    ensures
        command_in(envelope) is Send,
        command_in(envelope)->Send_conversation_id == conversation_id,
        payload.member("type"@) matches Some(Json::Str(kind)) ==> command_in(envelope)->kind
            == kind,
        !(payload.member("type"@) matches Some(Json::Str(_))) ==> command_in(envelope)->kind
            == "text"@,
        payload.member("content"@) matches Some(content) ==> command_in(envelope)->content
            == content,
        payload.member("content"@) is None ==> command_in(envelope)->content == Json::Null,
        names(payload, "replyToId"@, quoted) ==> command_in(envelope)->reply_to_id == Some(quoted),
        names_nothing(payload, "replyToId"@) ==> command_in(envelope)->reply_to_id is None,
        payload.member("clientMsgId"@) matches Some(Json::Str(own)) ==> command_in(
            envelope,
        )->client_msg_id == Some(own),
        !(payload.member("clientMsgId"@) matches Some(Json::Str(_))) ==> command_in(
            envelope,
        )->client_msg_id is None,
        envelope.member("requestId"@) matches Some(Json::Str(own)) ==> command_in(
            envelope,
        )->Send_request_id == Some(own),
        !(envelope.member("requestId"@) matches Some(Json::Str(_))) ==> command_in(
            envelope,
        )->Send_request_id is None,
{
    lemma_requests();
    if names_nothing(payload, "replyToId"@) && command_in(envelope)->reply_to_id is Some {
        assert(names(payload, "replyToId"@, command_in(envelope)->reply_to_id->0));
    }
}

/// An envelope that asks to send a message without naming a conversation is read as such, with the
/// client's own identifier for the request.
pub proof fn law_messages_to_nowhere_are_told_apart(envelope: Json)
    requires
        envelope.member("type"@) == Some(Json::Str("send_message"@)),
        envelope.member("payload"@) matches Some(payload) ==> names_nothing(
            payload,
            "conversationId"@,
        ),
    ensures
        command_in(envelope) is SendNowhere,
        envelope.member("requestId"@) matches Some(Json::Str(own)) ==> command_in(
            envelope,
        )->SendNowhere_request_id == Some(own),
        !(envelope.member("requestId"@) matches Some(Json::Str(_))) ==> command_in(
            envelope,
        )->SendNowhere_request_id is None,
{
    lemma_requests();
    if envelope.member("payload"@) is Some {
        let payload = envelope.member("payload"@)->0;
        if command_in(envelope) is Send {
            assert(names(payload, "conversationId"@, command_in(envelope)->Send_conversation_id));
        }
    }
}

/// An envelope that moves a read mark is read with the conversation and the sequence number it
/// gives; one that lacks either, or gives a number that is none, moves nothing.
pub proof fn law_read_marks_are_read_as_sent(
    envelope: Json,
    payload: Json,
    conversation_id: Id,
    seq: i64,
)
    requires
        envelope.member("type"@) == Some(Json::Str("read"@)),
        envelope.member("payload"@) == Some(payload),
    ensures
        names(payload, "conversationId"@, conversation_id) && payload.member("seq"@) == Some(
            Json::Int(seq as int),
        ) ==> command_in(envelope) == (CommandOf::<Seq<char>, Json>::Read { conversation_id, seq }),
        command_in(envelope) is Read || command_in(envelope) is Incomplete,
        command_in(envelope) matches CommandOf::Read { conversation_id, seq } ==> names(
            payload,
            "conversationId"@,
            conversation_id,
        ) && payload.member("seq"@) == Some(Json::Int(seq as int)),
{
    lemma_requests();
}

/// An envelope that tells of typing is read with the conversation it names: as a start just where
/// its state is `start`, and as a stop otherwise; without a conversation it tells nothing.
pub proof fn law_typing_is_read_as_sent(envelope: Json, payload: Json)
    requires
        envelope.member("type"@) == Some(Json::Str("typing"@)),
        envelope.member("payload"@) == Some(payload),
    ensures
        forall|conversation_id: Id| #[trigger]
            names(payload, "conversationId"@, conversation_id) ==> command_in(envelope) == (
            CommandOf::<Seq<char>, Json>::Typing {
                conversation_id,
                started: payload.member("state"@) == Some(Json::Str("start"@)),
            }),
        names_nothing(payload, "conversationId"@) ==> command_in(envelope) is Incomplete,
{
    lemma_requests();
    if names_nothing(payload, "conversationId"@) && command_in(envelope) is Typing {
        assert(names(payload, "conversationId"@, command_in(envelope)->Typing_conversation_id));
    }
}

/// A sign of life is read as such, and an envelope of any other type, or of none, as unknown, with
/// the client's own identifier for the request; a text that is no document is malformed.
pub proof fn law_other_envelopes_are_told_apart(envelope: Json)
    ensures
        envelope.member("type"@) == Some(Json::Str("ping"@)) <==> command_in(envelope) is Ping,
        ({
            let known = envelope.member("type"@) matches Some(Json::Str(kind)) && (kind == "ping"@
                || kind == "send_message"@ || kind == "read"@ || kind == "typing"@);
            &&& command_in(envelope) is Unknown <==> !known
        }),
        command_in(envelope) is Unknown ==> (match envelope.member("requestId"@) {
            Some(Json::Str(own)) => command_in(envelope)->Unknown_request_id == Some(own),
            _ => command_in(envelope)->Unknown_request_id is None,
        }),
        command_of(Some(envelope)) == command_in(envelope),
        !(command_of(Some(envelope)) is Malformed),
        command_of(None) is Malformed,
{
    lemma_requests();
    reveal_strlit("");
}

/// What a client sends over a connection is stored as the envelope gives it: a new message has the
/// sender, the conversation, the type and the content given, quotes the message that the envelope
/// names, and carries the client's own identifier. The client is told that very message, or why
/// it was refused.
pub proof fn law_what_clients_send_is_stored(
    store: Store,
    user_id: Id,
    command: Command,
    envelope: Json,
    payload: Json,
    conversation_id: Id,
    quoted: Id,
    env: Env,
    answers: Seq<(Env, Event)>,
)
    requires
        store.keyed(),
        seqs_are_reached(store),
        command@ == command_of(Some(envelope)),
        envelope.member("type"@) == Some(Json::Str("send_message"@)),
        envelope.member("payload"@) == Some(payload),
        names(payload, "conversationId"@, conversation_id),
    ensures
        outcome::<Dialogue>(dialogue_start(user_id, command, env), store, answers) matches Some(
            (end, result),
        ) ==> exists|created: Result<(message::Model, bool), AppError>|
            result == Ok::<Option<Seq<char>>, AppError>(
                Some(#[trigger] send_answer(
                    command->Send_request_id,
                    command->client_msg_id,
                    created,
                )),
            ) && (created is Err ==> end == store) && (created matches Ok((row, is_new))
                ==> end.has_message(row) && row.conversation_id == conversation_id && row.sender_id
                == Some(user_id) && (is_new ==> {
                &&& !store.messages.contains_key(row.id)
                &&& payload.member("type"@) matches Some(Json::Str(kind)) ==> row.kind@ == kind
                &&& payload.member("content"@) matches Some(content) ==> json_of(row.content)
                    == content
                &&& names(payload, "replyToId"@, quoted) ==> row.reply_to_id == Some(quoted)
                &&& names_nothing(payload, "replyToId"@) ==> row.reply_to_id is None
                &&& payload.member("clientMsgId"@) matches Some(Json::Str(own)) ==> text_of(
                    row.client_msg_id,
                ) == Some(own)
            })),
{
    law_messages_are_read_as_sent(envelope, payload, conversation_id, quoted);
    law_clients_are_answered(store, user_id, command, env, answers);
    let run = outcome::<Dialogue>(dialogue_start(user_id, command, env), store, answers);
    if run is Some {
        let (end, result) = run->0;
        let new = NewMessage {
            conversation_id: command->Send_conversation_id,
            sender_id: user_id,
            kind: command->kind,
            content: command->content,
            reply_to_id: command->reply_to_id,
            client_msg_id: command->client_msg_id,
        };
        let created = choose|created: Result<(message::Model, bool), AppError>| #[trigger]
            sent(store, new, end, created) && result == Ok::<Option<Seq<char>>, AppError>(
                Some(send_answer(command->Send_request_id, command->client_msg_id, created)),
            );
        if created is Ok {
            let (row, is_new) = created->Ok_0;
            law_new_messages_come_last(store, new, end, created);
            law_new_messages_hold_what_was_sent(new, row.id, row.seq, row.created_at);
        }
    }
}

/// Whether a text is the envelope of something that happened: of the given kind, with the given
/// payload, and nothing else.
pub open spec fn is_event(text: Seq<char>, kind: Seq<char>, payload: Json) -> bool {
    exists|envelope: Json| #[trigger]
        json_printed(envelope) == text && envelope.member("type"@) == Some(Json::Str(kind))
            && envelope.member("payload"@) == Some(payload) && has_just(
            envelope,
            set!["type"@, "payload"@],
        )
}

/// An event is told under its kind, with its payload as given.
pub proof fn law_events_carry_their_payload(kind: Seq<char>, payload: Json)
    ensures
        is_event(event_text(kind, payload), kind, payload),
{
    lemma_keys();
    let envelope = Json::Obj(map!["type"@ => Json::Str(kind), "payload"@ => payload]);
    assert(has_just(envelope, set!["type"@, "payload"@]));
    assert(json_printed(envelope) == event_text(kind, payload));
}

/// The members are told of a recall by the conversation and the message that was recalled.
pub proof fn law_recalls_are_told_by_message(conversation_id: Id, message_id: Id)
    ensures
        exists|payload: Json|
            {
                &&& #[trigger] is_event(
                    recalled_text(conversation_id, message_id),
                    "message_recalled"@,
                    payload,
                )
                &&& holds_id(payload, "conversationId"@, Some(conversation_id))
                &&& holds_id(payload, "messageId"@, Some(message_id))
                &&& has_just(payload, set!["conversationId"@, "messageId"@])
            },
{
    lemma_keys();
    let payload = Json::Obj(
        map![
            "conversationId"@ => id_json(conversation_id),
            "messageId"@ => id_json(message_id),
        ],
    );
    law_events_carry_their_payload("message_recalled"@, payload);
    assert(is_event(recalled_text(conversation_id, message_id), "message_recalled"@, payload));
}

/// The members are told of a new owner by name.
pub proof fn law_new_owners_are_told_by_name(conversation_id: Id, new_owner: Id)
    ensures
        exists|payload: Json|
            {
                &&& #[trigger] is_event(
                    handed_over_text(conversation_id, new_owner),
                    "owner_transferred"@,
                    payload,
                )
                &&& holds_id(payload, "conversationId"@, Some(conversation_id))
                &&& holds_id(payload, "ownerId"@, Some(new_owner))
                &&& has_just(payload, set!["conversationId"@, "ownerId"@])
            },
{
    lemma_keys();
    let payload = Json::Obj(
        map![
            "conversationId"@ => id_json(conversation_id),
            "ownerId"@ => id_json(new_owner),
        ],
    );
    law_events_carry_their_payload("owner_transferred"@, payload);
    assert(is_event(handed_over_text(conversation_id, new_owner), "owner_transferred"@, payload));
}

/// The members are told which conversation was dissolved.
pub proof fn law_dissolved_groups_are_told(conversation_id: Id)
    ensures
        exists|payload: Json|
            {
                &&& #[trigger] is_event(
                    dissolved_text(conversation_id),
                    "conversation_dissolved"@,
                    payload,
                )
                &&& holds_id(payload, "conversationId"@, Some(conversation_id))
                &&& has_just(payload, set!["conversationId"@])
            },
{
    lemma_keys();
    let payload = Json::Obj(
        map![
            "conversationId"@ => id_json(conversation_id),
        ],
    );
    law_events_carry_their_payload("conversation_dissolved"@, payload);
    assert(is_event(dissolved_text(conversation_id), "conversation_dissolved"@, payload));
}

/// The members are told who was muted, and until when: no point in time is `null`.
pub proof fn law_mutes_are_told_with_their_end(
    conversation_id: Id,
    target_id: Id,
    muted_until: Option<Timestamp>,
)
    ensures
        exists|payload: Json|
            {
                &&& #[trigger] is_event(
                    muted_text(conversation_id, target_id, muted_until),
                    "member_muted"@,
                    payload,
                )
                &&& holds_id(payload, "conversationId"@, Some(conversation_id))
                &&& holds_id(payload, "userId"@, Some(target_id))
                &&& holds_time(payload, "mutedUntil"@, muted_until)
                &&& has_just(payload, set!["conversationId"@, "userId"@, "mutedUntil"@])
            },
{
    lemma_keys();
    let payload = Json::Obj(
        map![
            "conversationId"@ => id_json(conversation_id),
            "userId"@ => id_json(target_id),
            "mutedUntil"@ => optional_time_json(muted_until),
        ],
    );
    law_events_carry_their_payload("member_muted"@, payload);
    assert(is_event(muted_text(conversation_id, target_id, muted_until), "member_muted"@, payload));
}

/// A member is told the role they now have.
pub proof fn law_roles_are_told_by_name(conversation_id: Id, role: Role)
    ensures
        exists|payload: Json|
            {
                &&& #[trigger] is_event(
                    role_text(conversation_id, role),
                    "my_role_updated"@,
                    payload,
                )
                &&& holds_id(payload, "conversationId"@, Some(conversation_id))
                &&& payload.member("role"@) == Some(
                    Json::Str(
                        match role {
                            Role::Owner => "owner"@,
                            Role::Admin => "admin"@,
                            Role::Member => "member"@,
                            Role::Other(text) => text@,
                        },
                    ),
                )
                &&& has_just(payload, set!["conversationId"@, "role"@])
            },
{
    lemma_keys();
    let payload = Json::Obj(
        map![
            "conversationId"@ => id_json(conversation_id),
            "role"@ => Json::Str(role.spec_text()),
        ],
    );
    law_events_carry_their_payload("my_role_updated"@, payload);
    assert(is_event(role_text(conversation_id, role), "my_role_updated"@, payload));
}

/// The others are told who has read a conversation, and how far.
pub proof fn law_read_marks_are_told_as_sent(conversation_id: Id, user_id: Id, seq: i64)
    ensures
        exists|payload: Json|
            {
                &&& #[trigger] is_event(
                    read_text(conversation_id, user_id, seq),
                    "read_update"@,
                    payload,
                )
                &&& holds_id(payload, "conversationId"@, Some(conversation_id))
                &&& holds_id(payload, "userId"@, Some(user_id))
                &&& payload.member("lastReadSeq"@) == Some(Json::Int(seq as int))
                &&& has_just(payload, set!["conversationId"@, "userId"@, "lastReadSeq"@])
            },
{
    lemma_keys();
    let payload = Json::Obj(
        map![
            "conversationId"@ => id_json(conversation_id),
            "userId"@ => id_json(user_id),
            "lastReadSeq"@ => Json::Int(seq as int),
        ],
    );
    law_events_carry_their_payload("read_update"@, payload);
    assert(is_event(read_text(conversation_id, user_id, seq), "read_update"@, payload));
}

/// The others are told who types, and whether they start or stop.
pub proof fn law_typing_is_told_as_sent(conversation_id: Id, user_id: Id, started: bool)
    ensures
        exists|payload: Json|
            {
                &&& #[trigger] is_event(
                    typing_text(conversation_id, user_id, started),
                    "typing"@,
                    payload,
                )
                &&& holds_id(payload, "conversationId"@, Some(conversation_id))
                &&& holds_id(payload, "userId"@, Some(user_id))
                &&& started ==> payload.member("state"@) == Some(Json::Str("start"@))
                &&& !started ==> payload.member("state"@) == Some(Json::Str("stop"@))
                &&& has_just(payload, set!["conversationId"@, "userId"@, "state"@])
            },
{
    lemma_keys();
    let payload = Json::Obj(
        map![
            "conversationId"@ => id_json(conversation_id),
            "userId"@ => id_json(user_id),
            "state"@ => Json::Str(
                if started {
                    "start"@
                } else {
                    "stop"@
                },
            ),
        ],
    );
    law_events_carry_their_payload("typing"@, payload);
    assert(is_event(typing_text(conversation_id, user_id, started), "typing"@, payload));
}

/// Whether a text is the envelope of an answer: of the given kind, to the request the client named
/// or to one without a name, with the given payload, and nothing else.
pub open spec fn is_answer(
    text: Seq<char>,
    kind: Seq<char>,
    request_id: Option<String>,
    payload: Json,
) -> bool {
    exists|envelope: Json| #[trigger]
        json_printed(envelope) == text && envelope.member("type"@) == Some(Json::Str(kind))
            && holds_text(envelope, "requestId"@, request_id) && envelope.member("payload"@)
            == Some(payload) && has_just(envelope, set!["type"@, "requestId"@, "payload"@])
}

/// Whether a text is the envelope of an error: it names the request, the code and the message.
pub open spec fn is_error(
    text: Seq<char>,
    request_id: Option<String>,
    code: Seq<char>,
    message: Seq<char>,
) -> bool {
    exists|payload: Json|
        {
            &&& #[trigger] is_answer(text, "error"@, request_id, payload)
            &&& payload.member("code"@) == Some(Json::Str(code))
            &&& payload.member("message"@) == Some(Json::Str(message))
            &&& has_just(payload, set!["code"@, "message"@])
        }
}

/// An error that a client is answered names the request it is about, the code and the message.
pub proof fn law_errors_name_their_request(
    request_id: Option<String>,
    code: Seq<char>,
    message: Seq<char>,
)
    ensures
        is_error(
            json_printed(error_json(text_of(request_id), code, message)),
            request_id,
            code,
            message,
        ),
{
    lemma_keys();
    let payload = Json::Obj(map!["code"@ => Json::Str(code), "message"@ => Json::Str(message)]);
    let envelope = Json::Obj(
        map![
            "type"@ => Json::Str("error"@),
            "requestId"@ => optional_text(text_of(request_id)),
            "payload"@ => payload,
        ],
    );
    assert(has_just(envelope, set!["type"@, "requestId"@, "payload"@]));
    assert(json_printed(envelope) == json_printed(
        error_json(text_of(request_id), code, message),
    ));
    assert(is_answer(
        json_printed(error_json(text_of(request_id), code, message)),
        "error"@,
        request_id,
        payload,
    ));
}

/// A message that was sent is acknowledged under the client's own identifiers, for the request and
/// for the message, with the message as it is shown.
pub proof fn law_acknowledgements_carry_the_message(
    request_id: Option<String>,
    client_msg_id: Option<String>,
    row: message::Model,
)
    ensures
        exists|payload: Json| #[trigger]
            is_answer(
                acknowledgement(text_of(request_id), text_of(client_msg_id), row),
                "message_ack"@,
                request_id,
                payload,
            ) && holds_text(payload, "clientMsgId"@, client_msg_id) && payload.member("message"@)
                == Some(message_json(row)) && has_just(payload, set!["clientMsgId"@, "message"@]),
{
    lemma_keys();
    let payload = Json::Obj(
        map![
            "clientMsgId"@ => optional_text(text_of(client_msg_id)),
            "message"@ => message_json(row),
        ],
    );
    let envelope = Json::Obj(
        map![
            "type"@ => Json::Str("message_ack"@),
            "requestId"@ => optional_text(text_of(request_id)),
            "payload"@ => payload,
        ],
    );
    assert(has_just(envelope, set!["type"@, "requestId"@, "payload"@]));
    assert(json_printed(envelope) == acknowledgement(
        text_of(request_id),
        text_of(client_msg_id),
        row,
    ));
    assert(is_answer(
        acknowledgement(text_of(request_id), text_of(client_msg_id), row),
        "message_ack"@,
        request_id,
        payload,
    ));
}

/// A text that cannot be carried out is answered at once with what is wrong with it: that it is no
/// document, that it asks for nothing known, or that it sends a message to no conversation. One
/// that lacks something else is passed over in silence. None of them changes anything.
pub proof fn law_what_cannot_be_done_is_told(user_id: Id, command: Command, env: Env)
    ensures
        command is Malformed ==> (dialogue_start(user_id, command, env) matches Step::Done(
            Ok(Some(text)),
        ) && is_error(text, None, "IM_INVALID_JSON"@, "消息不是合法 JSON"@)),
        command matches CommandOf::Unknown { request_id } ==> (dialogue_start(
            user_id,
            command,
            env,
        ) matches Step::Done(Ok(Some(text))) && is_error(
            text,
            request_id,
            "IM_UNKNOWN_TYPE"@,
            "未知消息类型"@,
        )),
        command matches CommandOf::SendNowhere { request_id } ==> (dialogue_start(
            user_id,
            command,
            env,
        ) matches Step::Done(Ok(Some(text))) && is_error(
            text,
            request_id,
            "IM_VALIDATION"@,
            "缺少 conversationId"@,
        )),
        command is Incomplete ==> dialogue_start(user_id, command, env) == Step::<
            Dialogue,
            ActionSpec,
            Option<Seq<char>>,
        >::Done(Ok(None)),
{
    match command {
        CommandOf::Malformed => {
            law_errors_name_their_request(None, "IM_INVALID_JSON"@, "消息不是合法 JSON"@);
        },
        CommandOf::Unknown { request_id } => {
            law_errors_name_their_request(request_id, "IM_UNKNOWN_TYPE"@, "未知消息类型"@);
        },
        CommandOf::SendNowhere { request_id } => {
            law_errors_name_their_request(
                request_id,
                "IM_VALIDATION"@,
                "缺少 conversationId"@,
            );
        },
        _ => {},
    }
}

/// A sign of life is answered with a document that says nothing else.
pub proof fn law_signs_of_life_are_answered(user_id: Id, env: Env)
    ensures
        dialogue_start(user_id, CommandOf::Ping, env) == Step::<
            Dialogue,
            ActionSpec,
            Option<Seq<char>>,
        >::Done(Ok(Some(pong_text()))),
        exists|envelope: Json| #[trigger]
            json_printed(envelope) == pong_text() && envelope.member("type"@) == Some(
                Json::Str("pong"@),
            ) && has_just(envelope, set!["type"@]),
{
    let envelope = Json::Obj(map!["type"@ => Json::Str("pong"@)]);
    assert(json_printed(envelope) == pong_text());
    assert(has_just(envelope, set!["type"@]));
}

/// Whoever adds members is told how many were added.
pub proof fn law_added_members_are_counted(count: int)
    ensures
        AddMembers::added(count).status == 200,
        AddMembers::added(count).body matches Some(body) && body.member("added"@) == Some(
            Json::Int(count),
        ) && has_just(body, set!["added"@]),
{
    let body = Json::Obj(map!["added"@ => Json::Int(count)]);
    assert(has_just(body, set!["added"@]));
}

} // verus!
