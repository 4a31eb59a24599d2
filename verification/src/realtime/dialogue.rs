//! Carrying out what clients ask for over a connection.

use vstd::prelude::*;

use crate::entity::{conversation_member, message};
use crate::flow::{Action, ActionOf, ActionSpec, Env, Event, Flow, Step};
use crate::ids::Id;
use crate::json::{self, json_parsed, json_printed, optional_text, Json};
use crate::realtime::broadcast::{broadcast_message, broadcast_start, Broadcast};
use crate::realtime::commands::{command_of, decode, Command, CommandOf};
use crate::realtime::protocol::{
    answer_json, answer_value, error_json, error_message, event_line, event_text,
};
use crate::repo::membership::{last_read_start, UpdateLastRead};
use crate::repo::{list_members, NewMessage};
use crate::routes::dto::{
    id_json, id_value, message_json, optional_string_value, other_ids, others_of, MessageDto,
};
use crate::service::{apply_read, create_message, create_message_start, CreateMessage};
use crate::text::{copy_text, text_of};

verus! {

/// What a client is answered over its connection: nothing, or a text.
#[derive(Clone, Debug)]
pub struct Answer(pub Option<String>);

impl View for Answer {
    type V = Option<Seq<char>>;

    open spec fn view(&self) -> Option<Seq<char>> {
        text_of(self.0)
    }
}

/// Carries out what a client asks for.
#[derive(Debug)]
pub enum Dialogue {
    /// Sending a message.
    Send {
        request_id: Option<String>,
        client_msg_id: Option<String>,
        conversation_id: Id,
        create: CreateMessage,
    },
    /// Telling the members about it.
    Broadcast {
        request_id: Option<String>,
        client_msg_id: Option<String>,
        broadcast: Broadcast,
    },
    /// Moving a read mark.
    Read { user_id: Id, conversation_id: Id, seq: i64, update: UpdateLastRead },
    /// Waiting for the members to be told of it.
    ReadMembers { user_id: Id, conversation_id: Id, seq: i64 },
    /// Waiting for the members to be told of somebody typing.
    TypingMembers { user_id: Id, conversation_id: Id, started: bool },
    /// Waiting for the members to be told.
    Pushed,
}

impl View for Dialogue {
    type V = Dialogue;

    open spec fn view(&self) -> Dialogue {
        *self
    }
}

/// The answer to a sign of life.
pub open spec fn pong_text() -> Seq<char> {
    json_printed(Json::Obj(map!["type"@ => Json::Str("pong"@)]))
}

/// The answer to a message that was sent.
pub open spec fn acknowledgement(
    request_id: Option<Seq<char>>,
    client_msg_id: Option<Seq<char>>,
    row: message::Model,
) -> Seq<char> {
    json_printed(
        answer_json(
            "message_ack"@,
            request_id,
            Json::Obj(
                map![
                    "clientMsgId"@ => optional_text(client_msg_id),
                    "message"@ => message_json(row),
                ],
            ),
        ),
    )
}

/// What the other members are told of a read mark.
pub open spec fn read_text(conversation_id: Id, user_id: Id, seq: i64) -> Seq<char> {
    event_text(
        "read_update"@,
        Json::Obj(
            map![
                "conversationId"@ => id_json(conversation_id),
                "userId"@ => id_json(user_id),
                "lastReadSeq"@ => Json::Int(seq as int),
            ],
        ),
    )
}

/// What the other members are told of somebody typing.
pub open spec fn typing_text(conversation_id: Id, user_id: Id, started: bool) -> Seq<char> {
    event_text(
        "typing"@,
        Json::Obj(
            map![
                "conversationId"@ => id_json(conversation_id),
                "userId"@ => id_json(user_id),
                "state"@ => Json::Str(
                    if started {
                        "start"@
                    } else {
                        "stop"@
                    },
                ),
            ],
        ),
    )
}

fn as_text(text: &Option<String>) -> (r: Option<&str>)
    ensures
        match r {
            Some(r) => text_of(*text) == Some(r@),
            None => text_of(*text) is None,
        },
{
    match text {
        Some(text) => Some(text.as_str()),
        None => None,
    }
}

fn refuse(request_id: &Option<String>, code: &str, message: &str) -> (r: Answer)
    ensures
        r@ == Some(json_printed(error_json(text_of(*request_id), code@, message@))),
{
    Answer(Some(error_message(as_text(request_id), code, message)))
}

fn acknowledge(
    request_id: &Option<String>,
    client_msg_id: &Option<String>,
    row: &message::Model,
) -> (r: Answer)
    ensures
        r@ == Some(acknowledgement(text_of(*request_id), text_of(*client_msg_id), *row)),
{
    let mut payload = json::new_map();
    json::put(&mut payload, "clientMsgId", optional_string_value(client_msg_id));
    json::put(&mut payload, "message", MessageDto::from(row).to_json());
    let answer = answer_value("message_ack", as_text(request_id), json::object(payload));
    Answer(Some(json::print(&answer)))
}

impl Dialogue {
    /// The step that goes on with sending a message; an error is told to the client.
    pub open spec fn sending(
        request_id: Option<String>,
        client_msg_id: Option<String>,
        conversation_id: Id,
        step: Step<CreateMessage, ActionSpec, (message::Model, bool)>,
    ) -> Step<Dialogue, ActionSpec, Option<Seq<char>>> {
        match step {
            Step::Ask(create, action) => Step::Ask(
                Dialogue::Send { request_id, client_msg_id, conversation_id, create },
                action,
            ),
            Step::Done(Err(e)) => Step::Done(
                Ok(
                    Some(
                        json_printed(
                            error_json(text_of(request_id), e.spec_code(), e.spec_message()),
                        ),
                    ),
                ),
            ),
            Step::Done(Ok((row, _))) => Dialogue::telling(
                request_id,
                client_msg_id,
                broadcast_start(conversation_id, row),
            ),
        }
    }

    fn on_send(
        request_id: Option<String>,
        client_msg_id: Option<String>,
        conversation_id: Id,
        step: Step<CreateMessage, Action, (message::Model, bool)>,
    ) -> (r: Step<Dialogue, Action, Answer>)
        ensures
            r@ == Dialogue::sending(request_id, client_msg_id, conversation_id, step@),
    {
        match step {
            Step::Ask(create, action) => Step::Ask(
                Dialogue::Send { request_id, client_msg_id, conversation_id, create },
                action,
            ),
            Step::Done(Err(e)) => Step::Done(Ok(refuse(&request_id, e.code(), e.message()))),
            Step::Done(Ok((row, _))) => Dialogue::on_told(
                request_id,
                client_msg_id,
                broadcast_message(conversation_id, row),
            ),
        }
    }

    /// The step that goes on with telling the members about a message.
    pub open spec fn telling(
        request_id: Option<String>,
        client_msg_id: Option<String>,
        step: Step<Broadcast, ActionSpec, message::Model>,
    ) -> Step<Dialogue, ActionSpec, Option<Seq<char>>> {
        match step {
            Step::Ask(broadcast, action) => Step::Ask(
                Dialogue::Broadcast { request_id, client_msg_id, broadcast },
                action,
            ),
            Step::Done(Err(e)) => Step::Done(Err(e)),
            Step::Done(Ok(row)) => Step::Done(
                Ok(Some(acknowledgement(text_of(request_id), text_of(client_msg_id), row))),
            ),
        }
    }

    fn on_told(
        request_id: Option<String>,
        client_msg_id: Option<String>,
        step: Step<Broadcast, Action, message::Model>,
    ) -> (r: Step<Dialogue, Action, Answer>)
        ensures
            r@ == Dialogue::telling(request_id, client_msg_id, step@),
    {
        match step {
            Step::Ask(broadcast, action) => Step::Ask(
                Dialogue::Broadcast { request_id, client_msg_id, broadcast },
                action,
            ),
            Step::Done(Err(e)) => Step::Done(Err(e)),
            Step::Done(Ok(row)) => Step::Done(Ok(acknowledge(&request_id, &client_msg_id, &row))),
        }
    }

    /// The step that goes on with moving a read mark; an error is not told to anybody.
    pub open spec fn reading(
        user_id: Id,
        conversation_id: Id,
        seq: i64,
        step: Step<UpdateLastRead, ActionSpec, conversation_member::Model>,
    ) -> Step<Dialogue, ActionSpec, Option<Seq<char>>> {
        match step {
            Step::Ask(update, action) => Step::Ask(
                Dialogue::Read { user_id, conversation_id, seq, update },
                action,
            ),
            Step::Done(Err(_)) => Step::Done(Ok(None)),
            Step::Done(Ok(_)) => Step::Ask(
                Dialogue::ReadMembers { user_id, conversation_id, seq },
                ActionOf::MembersOf { conversation_id },
            ),
        }
    }

    fn on_read(
        user_id: Id,
        conversation_id: Id,
        seq: i64,
        step: Step<UpdateLastRead, Action, conversation_member::Model>,
    ) -> (r: Step<Dialogue, Action, Answer>)
        ensures
            r@ == Dialogue::reading(user_id, conversation_id, seq, step@),
    {
        match step {
            Step::Ask(update, action) => Step::Ask(
                Dialogue::Read { user_id, conversation_id, seq, update },
                action,
            ),
            Step::Done(Err(_)) => Step::Done(Ok(Answer(None))),
            Step::Done(Ok(_)) => Step::Ask(
                Dialogue::ReadMembers { user_id, conversation_id, seq },
                list_members(conversation_id),
            ),
        }
    }
}

/// First step of carrying out what a client asks for.
pub open spec fn dialogue_start(user_id: Id, command: Command, env: Env) -> Step<
    Dialogue,
    ActionSpec,
    Option<Seq<char>>,
> {
    match command {
        CommandOf::Ping => Step::Done(Ok(Some(pong_text()))),
        CommandOf::Send {
            request_id,
            conversation_id,
            kind,
            content,
            reply_to_id,
            client_msg_id,
        } => Dialogue::sending(
            request_id,
            client_msg_id,
            conversation_id,
            create_message_start(
                NewMessage {
                    conversation_id,
                    sender_id: user_id,
                    kind,
                    content,
                    reply_to_id,
                    client_msg_id,
                },
                env,
            ),
        ),
        CommandOf::SendNowhere { request_id } => Step::Done(
            Ok(
                Some(
                    json_printed(
                        error_json(
                            text_of(request_id),
                            "IM_VALIDATION"@,
                            "缺少 conversationId"@,
                        ),
                    ),
                ),
            ),
        ),
        CommandOf::Read { conversation_id, seq } => Dialogue::reading(
            user_id,
            conversation_id,
            seq,
            last_read_start(conversation_id, user_id, seq),
        ),
        CommandOf::Typing { conversation_id, started } => Step::Ask(
            Dialogue::TypingMembers { user_id, conversation_id, started },
            ActionOf::MembersOf { conversation_id },
        ),
        CommandOf::Incomplete => Step::Done(Ok(None)),
        CommandOf::Unknown { request_id } => Step::Done(
            Ok(
                Some(
                    json_printed(
                        error_json(text_of(request_id), "IM_UNKNOWN_TYPE"@, "未知消息类型"@),
                    ),
                ),
            ),
        ),
        CommandOf::Malformed => Step::Done(
            Ok(
                Some(
                    json_printed(
                        error_json(None, "IM_INVALID_JSON"@, "消息不是合法 JSON"@),
                    ),
                ),
            ),
        ),
    }
}

/// Starts to carry out what a client asks for. The result is what that client is answered.
pub fn handle_command(user_id: Id, command: Command, env: Env) -> (r: Step<
    Dialogue,
    Action,
    Answer,
>)
    ensures
        r@ == dialogue_start(user_id, command, env),
{
    match command {
        CommandOf::Ping => {
            let mut pong = json::new_map();
            json::put(&mut pong, "type", json::string("pong"));
            Step::Done(Ok(Answer(Some(json::print(&json::object(pong))))))
        },
        CommandOf::Send {
            request_id,
            conversation_id,
            kind,
            content,
            reply_to_id,
            client_msg_id,
        } => {
            let new = NewMessage {
                conversation_id,
                sender_id: user_id,
                kind,
                content,
                reply_to_id,
                client_msg_id: copy_text(&client_msg_id),
            };
            Dialogue::on_send(
                request_id,
                client_msg_id,
                conversation_id,
                create_message(new, env),
            )
        },
        CommandOf::SendNowhere { request_id } => Step::Done(
            Ok(refuse(&request_id, "IM_VALIDATION", "缺少 conversationId")),
        ),
        CommandOf::Read { conversation_id, seq } => Dialogue::on_read(
            user_id,
            conversation_id,
            seq,
            apply_read(user_id, conversation_id, seq),
        ),
        CommandOf::Typing { conversation_id, started } => Step::Ask(
            Dialogue::TypingMembers { user_id, conversation_id, started },
            list_members(conversation_id),
        ),
        CommandOf::Incomplete => Step::Done(Ok(Answer(None))),
        CommandOf::Unknown { request_id } => Step::Done(
            Ok(refuse(&request_id, "IM_UNKNOWN_TYPE", "未知消息类型")),
        ),
        CommandOf::Malformed => Step::Done(
            Ok(refuse(&None, "IM_INVALID_JSON", "消息不是合法 JSON")),
        ),
    }
}

/// Starts to carry out what a text from a client asks for. The result is what that client is
/// answered.
pub fn handle_client_text(user_id: Id, text: &str, env: Env) -> (r: Step<Dialogue, Action, Answer>)
    ensures
        exists|command: Command| #[trigger]
            command@ == command_of(json_parsed(text@)) && r@ == dialogue_start(
                user_id,
                command,
                env,
            ),
{
    let command = decode(text);
    handle_command(user_id, command, env)
}

impl Flow for Dialogue {
    type Output = Answer;

    open spec fn step(state: Dialogue, env: Env, event: Event) -> Step<
        Dialogue,
        ActionSpec,
        Option<Seq<char>>,
    > {
        match state {
            Dialogue::Send { request_id, client_msg_id, conversation_id, create } =>
                Dialogue::sending(
                request_id,
                client_msg_id,
                conversation_id,
                CreateMessage::step(create, env, event),
            ),
            Dialogue::Broadcast { request_id, client_msg_id, broadcast } => Dialogue::telling(
                request_id,
                client_msg_id,
                Broadcast::step(broadcast, env, event),
            ),
            Dialogue::Read { user_id, conversation_id, seq, update } => Dialogue::reading(
                user_id,
                conversation_id,
                seq,
                UpdateLastRead::step(update, env, event),
            ),
            Dialogue::ReadMembers { user_id, conversation_id, seq } => match event.spec_members() {
                Err(_) => Step::Done(Ok(None)),
                Ok(members) => Step::Ask(
                    Dialogue::Pushed,
                    ActionOf::Push {
                        user_ids: others_of(members@, user_id),
                        text: read_text(conversation_id, user_id, seq),
                    },
                ),
            },
            Dialogue::TypingMembers { user_id, conversation_id, started } =>
                match event.spec_members() {
                Err(_) => Step::Done(Ok(None)),
                Ok(members) => Step::Ask(
                    Dialogue::Pushed,
                    ActionOf::Push {
                        user_ids: others_of(members@, user_id),
                        text: typing_text(conversation_id, user_id, started),
                    },
                ),
            },
            Dialogue::Pushed => Step::Done(Ok(None)),
        }
    }

    fn next(self, env: Env, event: Event) -> (r: Step<Dialogue, Action, Answer>)
        ensures
            r@ == Dialogue::step(self@, env, event),
    {
        match self {
            Dialogue::Send { request_id, client_msg_id, conversation_id, create } =>
                Dialogue::on_send(
                request_id,
                client_msg_id,
                conversation_id,
                create.next(env, event),
            ),
            Dialogue::Broadcast { request_id, client_msg_id, broadcast } => Dialogue::on_told(
                request_id,
                client_msg_id,
                broadcast.next(env, event),
            ),
            Dialogue::Read { user_id, conversation_id, seq, update } => Dialogue::on_read(
                user_id,
                conversation_id,
                seq,
                update.next(env, event),
            ),
            Dialogue::ReadMembers { user_id, conversation_id, seq } => match event.members() {
                Err(_) => Step::Done(Ok(Answer(None))),
                Ok(members) => {
                    let mut payload = json::new_map();
                    json::put(&mut payload, "conversationId", id_value(conversation_id));
                    json::put(&mut payload, "userId", id_value(user_id));
                    json::put(&mut payload, "lastReadSeq", json::integer(seq));
                    let text = event_line("read_update", json::object(payload));
                    Step::Ask(
                        Dialogue::Pushed,
                        ActionOf::Push { user_ids: other_ids(&members, user_id), text },
                    )
                },
            },
            Dialogue::TypingMembers { user_id, conversation_id, started } =>
                match event.members() {
                Err(_) => Step::Done(Ok(Answer(None))),
                Ok(members) => {
                    let state = if started {
                        "start"
                    } else {
                        "stop"
                    };
                    let mut payload = json::new_map();
                    json::put(&mut payload, "conversationId", id_value(conversation_id));
                    json::put(&mut payload, "userId", id_value(user_id));
                    json::put(&mut payload, "state", json::string(state));
                    let text = event_line("typing", json::object(payload));
                    Step::Ask(
                        Dialogue::Pushed,
                        ActionOf::Push { user_ids: other_ids(&members, user_id), text },
                    )
                },
            },
            Dialogue::Pushed => Step::Done(Ok(Answer(None))),
        }
    }
}

} // verus!
