//! Whole requests, run against tables in memory.

use club_im::clock::Timestamp;
use club_im::entity::conversation::Kind;
use club_im::entity::conversation_member::Role;
use club_im::entity::message::Status;
use club_im::entity::{conversation, conversation_member, message};
use club_im::error::AppError;
use club_im::flow::{
    Action, ActionOf, ConversationChange, Env, Event, Flow, MemberChange, Step,
};
use club_im::ids::{new_id, Id};
use club_im::realtime::{handle_client_text, Hub};
use club_im::repo::{self, NewMessage};
use club_im::routes::{
    self, AddMembersRequest, CreateConversationRequest, GroupSettingsRequest, MessageQuery,
    MuteRequest, ReadRequest, Reply, RoleRequest, SendMessageRequest, SpeakRequest,
    TransferRequest,
};
use club_im::service;
use serde_json::Value;
use tokio::sync::mpsc::Receiver;

fn json(text: &str) -> Value {
    serde_json::from_str(text).expect("a JSON document")
}

fn text_of(id: Id) -> String {
    uuid::Uuid::from_u128(id).to_string()
}

fn id_of(value: &Value) -> Id {
    value.as_str().expect("an identifier").parse::<uuid::Uuid>().expect("an identifier").as_u128()
}

/// The tables, the connections and a clock that only moves when it is told to.
struct TestApp {
    conversations: Vec<conversation::Model>,
    members: Vec<conversation_member::Model>,
    messages: Vec<message::Model>,
    hub: Hub,
    bus: Option<Vec<(String, Value)>>,
    bus_fails: bool,
    broken: bool,
    now: Timestamp,
    writes: usize,
}

fn spawn() -> TestApp {
    TestApp {
        conversations: Vec::new(),
        members: Vec::new(),
        messages: Vec::new(),
        hub: Hub::new(),
        bus: Some(Vec::new()),
        bus_fails: false,
        broken: false,
        now: Timestamp { secs: 1_700_000_000, nanos: 0 },
        writes: 0,
    }
}

impl TestApp {
    fn env(&self) -> Env {
        Env { now: self.now, fresh_id: new_id(), bus: self.bus.is_some() }
    }

    fn member_at(&self, conversation_id: Id, user_id: Id) -> Option<usize> {
        self.members
            .iter()
            .position(|m| m.conversation_id == conversation_id && m.user_id == user_id)
    }

    fn perform(&mut self, action: Action) -> Event {
        if self.broken {
            return Event::Failed(AppError::Internal("no connection".to_string()));
        }
        match action {
            ActionOf::FindMember { conversation_id, user_id } => Event::Member(
                self.member_at(conversation_id, user_id)
                    .map(|i| self.members[i].clone())
                    .filter(|m| m.left_at.is_none()),
            ),
            ActionOf::FindMemberRow { conversation_id, user_id } => Event::Member(
                self.member_at(conversation_id, user_id).map(|i| self.members[i].clone()),
            ),
            ActionOf::MembershipsOf { user_id } => Event::Members(
                self.members
                    .iter()
                    .filter(|m| m.user_id == user_id && m.left_at.is_none())
                    .cloned()
                    .collect(),
            ),
            ActionOf::MembersOf { conversation_id } => Event::Members(
                self.members
                    .iter()
                    .filter(|m| m.conversation_id == conversation_id && m.left_at.is_none())
                    .cloned()
                    .collect(),
            ),
            ActionOf::MembershipsIn { conversation_ids, user_id } => Event::Members(
                self.members
                    .iter()
                    .filter(|m| {
                        m.user_id == user_id
                            && m.left_at.is_none()
                            && conversation_ids.contains(&m.conversation_id)
                    })
                    .cloned()
                    .collect(),
            ),
            ActionOf::FindConversation { conversation_id } => Event::Conversation(
                self.conversations.iter().find(|c| c.id == conversation_id).cloned(),
            ),
            ActionOf::DirectAmong { conversation_ids } => Event::Conversations(
                self.conversations
                    .iter()
                    .filter(|c| c.kind == Kind::Direct && conversation_ids.contains(&c.id))
                    .cloned()
                    .collect(),
            ),
            ActionOf::FindMessage { conversation_id, message_id } => Event::Message(
                self.messages
                    .iter()
                    .find(|m| m.id == message_id && m.conversation_id == conversation_id)
                    .cloned(),
            ),
            ActionOf::FindClientMessage { conversation_id, sender_id, client_msg_id } => {
                Event::Message(
                    self.messages
                        .iter()
                        .find(|m| {
                            m.conversation_id == conversation_id
                                && m.sender_id == Some(sender_id)
                                && m.client_msg_id.as_deref() == Some(client_msg_id.as_str())
                        })
                        .cloned(),
                )
            }
            ActionOf::MessagesBefore { conversation_id, before_seq, limit } => {
                let mut rows: Vec<message::Model> = self
                    .messages
                    .iter()
                    .filter(|m| {
                        m.conversation_id == conversation_id
                            && before_seq.map(|seq| m.seq < seq).unwrap_or(true)
                    })
                    .cloned()
                    .collect();
                rows.sort_by_key(|m| std::cmp::Reverse(m.seq));
                rows.truncate(limit as usize);
                Event::Messages(rows)
            }
            ActionOf::InsertConversation(row) => {
                self.writes += 1;
                self.conversations.push(row.clone());
                Event::Conversation(Some(row))
            }
            ActionOf::InsertMember(row) => {
                self.writes += 1;
                self.members.push(row.clone());
                Event::Member(Some(row))
            }
            ActionOf::InsertMessage(row) => {
                self.writes += 1;
                self.messages.push(row.clone());
                Event::Message(Some(row))
            }
            ActionOf::UpdateMember { conversation_id, user_id, change } => {
                self.writes += 1;
                let i = self.member_at(conversation_id, user_id).expect("a row to change");
                let row = &mut self.members[i];
                match change {
                    MemberChange::Rejoin(role) => {
                        row.role = role;
                        row.left_at = None;
                    }
                    MemberChange::LastRead(seq) => row.last_read_seq = seq,
                    MemberChange::MutedUntil(until) => row.muted_until = until,
                    MemberChange::CanSpeak(can_speak) => row.can_speak = can_speak,
                    MemberChange::Role(role) => row.role = role,
                }
                Event::Member(Some(row.clone()))
            }
            ActionOf::UpdateConversation { conversation_id, change } => {
                self.writes += 1;
                let row = self
                    .conversations
                    .iter_mut()
                    .find(|c| c.id == conversation_id)
                    .expect("a row to change");
                match change {
                    ConversationChange::Settings { only_admins_speak, notice, at } => {
                        if let Some(value) = only_admins_speak {
                            row.only_admins_speak = value;
                        }
                        if let Some(value) = notice {
                            row.notice = value;
                        }
                        row.updated_at = at;
                    }
                    ConversationChange::Owner { owner_id, at } => {
                        row.owner_id = Some(owner_id);
                        row.updated_at = at;
                    }
                }
                Event::Conversation(Some(row.clone()))
            }
            ActionOf::RecallMessage { message_id, at } => {
                self.writes += 1;
                let row =
                    self.messages.iter_mut().find(|m| m.id == message_id).expect("a row to change");
                row.status = Status::Recalled;
                row.recalled_at = Some(at);
                Event::Message(Some(row.clone()))
            }
            ActionOf::EndMembership { conversation_id, user_id, at } => {
                self.writes += 1;
                match self.member_at(conversation_id, user_id) {
                    Some(i) if self.members[i].left_at.is_none() => {
                        self.members[i].left_at = Some(at);
                        Event::Affected(1)
                    }
                    _ => Event::Affected(0),
                }
            }
            ActionOf::AllocateSeq { conversation_id, at } => {
                self.writes += 1;
                match self.conversations.iter_mut().find(|c| c.id == conversation_id) {
                    Some(row) => {
                        row.next_seq += 1;
                        row.updated_at = at;
                        Event::Allocated(Some(row.next_seq))
                    }
                    None => Event::Allocated(None),
                }
            }
            ActionOf::DeleteMessages { conversation_id } => {
                self.writes += 1;
                let before = self.messages.len();
                self.messages.retain(|m| m.conversation_id != conversation_id);
                Event::Affected((before - self.messages.len()) as u64)
            }
            ActionOf::DeleteMembers { conversation_id } => {
                self.writes += 1;
                let before = self.members.len();
                self.members.retain(|m| m.conversation_id != conversation_id);
                Event::Affected((before - self.members.len()) as u64)
            }
            ActionOf::DeleteConversation { conversation_id } => {
                self.writes += 1;
                self.conversations.retain(|c| c.id != conversation_id);
                Event::Affected(1)
            }
            ActionOf::Announce { topic, payload, at: _ } => {
                if self.bus_fails {
                    return Event::Failed(AppError::Internal("bus".to_string()));
                }
                self.bus.as_mut().expect("a bus").push((topic, payload));
                Event::Done
            }
            ActionOf::Push { user_ids, text } => {
                self.hub.broadcast(&user_ids, &text);
                Event::Done
            }
        }
    }

    fn run<F: Flow>(&mut self, first: Step<F, Action, F::Output>) -> Result<F::Output, AppError> {
        let mut step = first;
        loop {
            match step {
                Step::Done(result) => return result,
                Step::Ask(state, action) => {
                    let event = self.perform(action);
                    step = state.next(self.env(), event);
                }
            }
        }
    }

    fn respond<F>(&mut self, first: Step<F, Action, Reply>) -> Response
    where
        F: Flow<Output = Reply>,
    {
        match self.run(first) {
            Ok(reply) => {
                Response { status: reply.status, body: reply.body, error: None }
            }
            Err(error) => Response { status: error.status(), body: None, error: Some(error) },
        }
    }

    fn create(&mut self, user: Id, kind: &str, member_ids: Vec<Id>, name: Option<&str>) -> Response {
        let input = CreateConversationRequest {
            kind: kind.to_string(),
            member_ids,
            name: name.map(|n| n.to_string()),
        };
        let env = self.env();
        self.respond(routes::create_conversation(user, input, env))
    }

    fn create_direct(&mut self, user: Id, other: Id) -> Id {
        id_of(&self.create(user, "direct", vec![other], None).expect(201)["id"])
    }

    fn create_group(&mut self, user: Id, members: Vec<Id>) -> Id {
        id_of(&self.create(user, "group", members, Some("g")).expect(201)["id"])
    }

    fn send(&mut self, user: Id, conversation: Id, content: &str) -> Response {
        self.send_as(user, conversation, "text", content, None, None)
    }

    fn send_as(
        &mut self,
        user: Id,
        conversation: Id,
        kind: &str,
        content: &str,
        client_msg_id: Option<&str>,
        reply_to_id: Option<Id>,
    ) -> Response {
        let input = SendMessageRequest {
            client_msg_id: client_msg_id.map(|id| id.to_string()),
            kind: kind.to_string(),
            content: json(content),
            reply_to_id,
        };
        let env = self.env();
        self.respond(routes::send_message(user, conversation, input, env))
    }

    fn list(&mut self, user: Id) -> Response {
        self.respond(routes::list_conversations(user))
    }

    fn history(
        &mut self,
        user: Id,
        conversation: Id,
        before_seq: Option<i64>,
        limit: Option<u64>,
    ) -> Response {
        self.respond(routes::list_messages(
            user,
            conversation,
            MessageQuery { before_seq, limit },
        ))
    }

    fn read(&mut self, user: Id, conversation: Id, seq: i64) -> Response {
        self.respond(routes::mark_read(user, conversation, ReadRequest { seq }))
    }

    fn recall(&mut self, user: Id, conversation: Id, message: Id) -> Response {
        self.respond(routes::recall_message(user, conversation, message))
    }

    fn receipts(&mut self, user: Id, conversation: Id, message: Id) -> Response {
        self.respond(routes::message_receipts(user, conversation, message))
    }

    fn invite(&mut self, user: Id, conversation: Id, user_ids: Vec<Id>) -> Response {
        let env = self.env();
        self.respond(routes::add_members(
            user,
            conversation,
            AddMembersRequest { user_ids },
            env,
        ))
    }

    fn remove(&mut self, user: Id, conversation: Id, target: Id) -> Response {
        let env = self.env();
        self.respond(routes::remove_member(user, conversation, target, env))
    }

    fn mute(
        &mut self,
        user: Id,
        conversation: Id,
        target: Id,
        muted_until: Option<Timestamp>,
    ) -> Response {
        self.respond(routes::mute_member(
            user,
            conversation,
            target,
            MuteRequest { muted_until },
        ))
    }

    fn settings(
        &mut self,
        user: Id,
        conversation: Id,
        only_admins_speak: Option<bool>,
        notice: Option<Option<&str>>,
    ) -> Response {
        let env = self.env();
        let notice = notice.map(|n| n.map(|text| text.to_string()));
        self.respond(routes::update_group_settings(
            user,
            conversation,
            GroupSettingsRequest { only_admins_speak, notice },
            env,
        ))
    }

    fn speak(&mut self, user: Id, conversation: Id, target: Id, can_speak: bool) -> Response {
        self.respond(routes::set_member_speak(
            user,
            conversation,
            target,
            SpeakRequest { can_speak },
        ))
    }

    fn appoint(&mut self, user: Id, conversation: Id, target: Id, role: &str) -> Response {
        self.respond(routes::set_member_role(
            user,
            conversation,
            target,
            RoleRequest { role: role.to_string() },
        ))
    }

    fn transfer(&mut self, user: Id, conversation: Id, target: Id) -> Response {
        let env = self.env();
        self.respond(routes::transfer_owner(
            user,
            conversation,
            TransferRequest { user_id: target },
            env,
        ))
    }

    fn dissolve(&mut self, user: Id, conversation: Id) -> Response {
        self.respond(routes::dissolve_conversation(user, conversation))
    }

    /// What a client that sends a text over its connection gets back goes to all connections of
    /// its user.
    fn client_text(&mut self, user: Id, text: &str) {
        let env = self.env();
        let answer = self.run(handle_client_text(user, text, env)).expect("an answer");
        if let Some(reply) = answer.0 {
            self.hub.send_to(user, &reply);
        }
    }
}

struct Response {
    status: u16,
    body: Option<Value>,
    error: Option<AppError>,
}

impl Response {
    fn expect(self, status: u16) -> Value {
        assert_eq!(self.status, status, "{:?}", self.error);
        self.body.unwrap_or(Value::Null)
    }

    fn refused(self, error: AppError) {
        assert_eq!(self.error, Some(error));
    }
}

/// The next text of the given type that waits on a connection.
fn read_until(receiver: &mut Receiver<String>, kind: &str) -> Value {
    loop {
        let value = json(&receiver.try_recv().expect("a text of the type"));
        if value["type"] == kind {
            return value;
        }
    }
}

#[test]
fn direct_conversation_message_read_recall_flow() {
    let mut app = spawn();
    let a = new_id();
    let b = new_id();
    let c = new_id();

    let conversation_id = app.create_direct(a, b);
    let same = app.create(b, "direct", vec![a], None);
    assert_eq!(same.expect(200)["id"], text_of(conversation_id));

    let sent = app
        .send_as(a, conversation_id, "text", r#"{"text":"你好"}"#, Some("m-1"), None)
        .expect(201);
    assert_eq!(sent["seq"], 1);
    let message_id = id_of(&sent["id"]);
    let resent =
        app.send_as(a, conversation_id, "text", r#"{"text":"你好"}"#, Some("m-1"), None);
    assert_eq!(resent.expect(200)["id"], text_of(message_id));

    let list_b = app.list(b).expect(200);
    assert_eq!(list_b[0]["unread"], 1);
    assert_eq!(list_b[0]["lastMessage"]["content"]["text"], "你好");

    let history = app.history(b, conversation_id, None, None);
    assert_eq!(history.expect(200)[0]["seq"], 1);
    let read = app.read(b, conversation_id, 1);
    assert_eq!(read.expect(200)["lastReadSeq"], 1);
    assert_eq!(app.list(b).expect(200)[0]["unread"], 0);

    let receipts = app.receipts(a, conversation_id, message_id).expect(200);
    assert_eq!(receipts[0]["read"], true);

    let recalled = app.recall(a, conversation_id, message_id);
    assert_eq!(recalled.expect(200)["status"], "recalled");
    app.recall(b, conversation_id, message_id).expect(403);

    app.history(c, conversation_id, None, None).expect(403);
}

#[test]
fn group_permissions_and_membership() {
    let mut app = spawn();
    let owner = new_id();
    let member = new_id();
    let newcomer = new_id();

    let created = app.create(owner, "group", vec![member], Some("项目组")).expect(201);
    let conversation_id = id_of(&created["id"]);
    assert_eq!(created["type"], "group");

    app.invite(member, conversation_id, vec![newcomer]).expect(403);
    let added = app.invite(owner, conversation_id, vec![newcomer]);
    assert_eq!(added.expect(200)["added"], 1);

    app.remove(owner, conversation_id, member).expect(204);
    app.history(member, conversation_id, None, None).expect(403);

    app.send(newcomer, conversation_id, r#"{"text":"大家好"}"#).expect(201);
}

#[test]
fn validation_and_errors() {
    let mut app = spawn();
    let a = new_id();

    app.create(a, "direct", vec![a], None).expect(400);

    app.create(a, "group", vec![new_id()], None).expect(422);

    let conversation_id = app.create_direct(a, new_id());
    app.send_as(a, conversation_id, "system", "{}", None, None).expect(422);

    app.send_as(a, conversation_id, "text", r#"{"text":"hi"}"#, None, Some(new_id())).expect(422);

    assert_eq!(routes::user_id_of("").expect_err("no login").status(), 401);
    let health = routes::healthz();
    assert_eq!(health.status, 200);
    assert_eq!(health.body.expect("a body")["status"], "ok");
    let ready = routes::readyz(true);
    assert_eq!(ready.status, 200);
    assert_eq!(ready.body.expect("a body")["database"], "ok");
}

#[test]
fn websocket_realtime_delivery() {
    let mut app = spawn();
    let a = new_id();
    let b = new_id();
    let conversation_id = app.create_direct(a, b);
    let (_, mut ws_a) = app.hub.register(a);
    let (_, mut ws_b) = app.hub.register(b);

    app.client_text(a, r#"{"type":"ping"}"#);
    let pong = read_until(&mut ws_a, "pong");
    assert_eq!(pong["type"], "pong");

    app.client_text(
        a,
        &format!(
            r#"{{"type":"send_message","requestId":"r1","payload":{{"conversationId":"{}","type":"text","content":{{"text":"WS 你好"}},"clientMsgId":"ws-1"}}}}"#,
            text_of(conversation_id)
        ),
    );
    let ack = read_until(&mut ws_a, "message_ack");
    assert_eq!(ack["requestId"], "r1");
    assert_eq!(ack["payload"]["message"]["seq"], 1);

    let delivered = read_until(&mut ws_b, "message");
    assert_eq!(delivered["payload"]["content"]["text"], "WS 你好");

    app.client_text(
        b,
        &format!(
            r#"{{"type":"read","payload":{{"conversationId":"{}","seq":1}}}}"#,
            text_of(conversation_id)
        ),
    );
    let read_update = read_until(&mut ws_a, "read_update");
    assert_eq!(read_update["payload"]["lastReadSeq"], 1);
}

#[test]
fn members_leave_pagination_and_recall_expiry() {
    let mut app = spawn();
    let a = new_id();
    let b = new_id();
    let c = new_id();

    let group_id =
        id_of(&app.create(a, "group", vec![b], Some("测试群")).expect(201)["id"]);
    let members = app.respond(routes::list_members(a, group_id)).expect(200);
    assert_eq!(members.as_array().expect("an array").len(), 2);

    let direct_id = app.create_direct(a, c);
    app.invite(a, direct_id, vec![b]).expect(400);

    app.remove(b, group_id, b).expect(204);

    for index in 1..=3 {
        app.send(a, group_id, &format!(r#"{{"text":"m{index}"}}"#)).expect(201);
    }
    let page = app.history(a, group_id, Some(4), Some(2)).expect(200);
    assert_eq!(page.as_array().expect("an array").len(), 2);
    assert_eq!(page[0]["seq"], 2);

    let old = app.send(a, group_id, r#"{"text":"旧消息"}"#).expect(201);
    let old_id = id_of(&old["id"]);
    for row in app.messages.iter_mut().filter(|m| m.id == old_id) {
        row.created_at.secs -= 600;
    }
    app.recall(a, group_id, old_id).expect(403);

    app.receipts(a, group_id, new_id()).expect(404);
}

#[test]
fn websocket_typing_and_error_paths() {
    let mut app = spawn();
    let a = new_id();
    let b = new_id();
    let conversation_id = app.create_direct(a, b);
    let (_, mut ws_a) = app.hub.register(a);
    let (_, mut ws_b) = app.hub.register(b);

    app.client_text(a, "not-json");
    assert_eq!(read_until(&mut ws_a, "error")["payload"]["code"], "IM_INVALID_JSON");

    app.client_text(a, r#"{"type":"nope"}"#);
    assert_eq!(read_until(&mut ws_a, "error")["payload"]["code"], "IM_UNKNOWN_TYPE");

    app.client_text(
        a,
        &format!(
            r#"{{"type":"typing","payload":{{"conversationId":"{}","state":"start"}}}}"#,
            text_of(conversation_id)
        ),
    );
    assert_eq!(read_until(&mut ws_b, "typing")["payload"]["state"], "start");
    assert!(ws_a.try_recv().is_err(), "the one who types is not told");
}

#[test]
fn direct_conversations_are_found_again_and_made_anew_after_leaving() {
    let mut app = spawn();
    let (a, b, c) = (new_id(), new_id(), new_id());
    let first = app.create_direct(a, b);
    let with_c = app.create_direct(a, c);
    assert_ne!(first, with_c);
    let writes = app.writes;
    assert_eq!(id_of(&app.create(a, "direct", vec![b], None).expect(200)["id"]), first);
    assert_eq!(id_of(&app.create(c, "direct", vec![a], None).expect(200)["id"]), with_c);
    assert_eq!(app.writes, writes, "finding one writes nothing");
    app.create_group(a, vec![b]);
    assert_eq!(id_of(&app.create(b, "direct", vec![a], None).expect(200)["id"]), first);
    app.remove(b, first, b).expect(204);
    assert_ne!(id_of(&app.create(a, "direct", vec![b], None).expect(201)["id"]), first);
}

#[test]
fn new_conversations_are_shown_as_created() {
    let mut app = spawn();
    let (a, b) = (new_id(), new_id());
    let direct = app.create(a, "direct", vec![b, new_id()], Some("ignored")).expect(201);
    assert_eq!(direct["type"], "direct");
    assert_eq!(direct["name"], Value::Null);
    assert_eq!(direct["memberIds"].as_array().expect("an array").len(), 2);
    assert_eq!(direct["unread"], 0);
    assert_eq!(direct["lastMessage"], Value::Null);
    assert_eq!(direct["updatedAt"], "2023-11-14T22:13:20Z");
    let group = app.create(a, "group", vec![b, a, b], Some("  name \n")).expect(201);
    assert_eq!(group["name"], "name", "white space around a name goes");
    assert_eq!(group["onlyAdminsSpeak"], false);
    assert_eq!(group["notice"], Value::Null);
    assert_eq!(group["muted"], false);
    assert_eq!(group["pinned"], false);
    assert_eq!(
        group["memberIds"],
        json(&format!(r#"["{}","{}"]"#, text_of(a), text_of(b))),
        "everybody is added once"
    );
    let group_id = id_of(&group["id"]);
    let row = app.conversations.iter().find(|c| c.id == group_id).expect("the group");
    assert_eq!(row.owner_id, Some(a));
    let roles: Vec<Role> = app
        .members
        .iter()
        .filter(|m| m.conversation_id == group_id)
        .map(|m| m.role.clone())
        .collect();
    assert_eq!(roles, vec![Role::Owner, Role::Member]);
}

#[test]
fn requests_for_conversations_are_checked() {
    let mut app = spawn();
    let a = new_id();
    app.create(a, "direct", vec![], None).refused(AppError::PeerMissing);
    app.create(a, "direct", vec![a], None).refused(AppError::SelfChat);
    app.create(a, "group", vec![new_id()], Some("  ")).refused(AppError::GroupNameMissing);
    app.create(a, "group", vec![], None).refused(AppError::GroupNameMissing);
    app.create(a, "group", vec![], Some("g")).refused(AppError::GroupMembersMissing);
    app.create(a, "channel", vec![new_id()], Some("g"))
        .refused(AppError::UnsupportedConversationType);
    assert_eq!(app.writes, 0);
}

#[test]
fn sequence_numbers_go_up_by_one() {
    let mut app = spawn();
    let (a, b) = (new_id(), new_id());
    let (one, two) = (app.create_direct(a, b), app.create_group(a, vec![b]));
    for seq in 1..=3 {
        assert_eq!(app.send(a, one, "{}").expect(201)["seq"], seq);
    }
    assert_eq!(app.send(b, two, "{}").expect(201)["seq"], 1);
    assert_eq!(app.send(b, one, "{}").expect(201)["seq"], 4);
}

#[test]
fn repeated_sends_are_recognised_by_sender_and_conversation() {
    let mut app = spawn();
    let (a, b) = (new_id(), new_id());
    let conversation = app.create_direct(a, b);
    let other = app.create_group(a, vec![b]);
    let (_, mut ws_b) = app.hub.register(b);
    let first = app.send_as(a, conversation, "text", "1", Some("x"), None).expect(201);
    read_until(&mut ws_b, "message");
    let announced = app.bus.as_ref().expect("a bus").len();
    let again = app.send_as(a, conversation, "image", "2", Some("x"), None).expect(200);
    assert_eq!(again, first, "the first message comes back, whatever the second one says");
    assert!(ws_b.try_recv().is_err(), "nobody is told of it again");
    assert_eq!(app.bus.as_ref().expect("a bus").len(), announced);
    app.send_as(b, conversation, "text", "3", Some("x"), None).expect(201);
    app.send_as(a, other, "text", "4", Some("x"), None).expect(201);
    app.send_as(a, conversation, "text", "5", Some("y"), None).expect(201);
    app.send_as(a, conversation, "text", "6", None, None).expect(201);
    app.send_as(a, conversation, "text", "6", None, None).expect(201);
}

#[test]
fn messages_are_checked_before_they_are_sent() {
    let mut app = spawn();
    let (a, b) = (new_id(), new_id());
    let conversation = app.create_direct(a, b);
    let other = app.create_group(a, vec![b]);
    let elsewhere = id_of(&app.send(a, other, "{}").expect(201)["id"]);
    let writes = app.writes;
    app.send_as(a, conversation, "system", "{}", None, None)
        .refused(AppError::UnsupportedMessageType);
    app.send_as(a, conversation, "text", "null", None, None).refused(AppError::EmptyContent);
    let big = format!(r#""{}""#, "x".repeat(16 * 1024));
    app.send_as(a, conversation, "text", &big, None, None).refused(AppError::ContentTooLarge);
    app.send_as(a, conversation, "text", "{}", None, Some(elsewhere))
        .refused(AppError::ReplyNotFound);
    app.send(new_id(), conversation, "{}").refused(AppError::NotMember);
    assert_eq!(app.writes, writes);
    let first = id_of(&app.send(a, conversation, "{}").expect(201)["id"]);
    let reply = app.send_as(b, conversation, "text", "{}", None, Some(first)).expect(201);
    assert_eq!(reply["replyToId"], text_of(first));
    assert_eq!(reply["senderId"], text_of(b));
    assert_eq!(reply["status"], "normal");
    assert_eq!(reply["createdAt"], "2023-11-14T22:13:20Z");
}

#[test]
fn new_messages_are_announced_to_the_others() {
    let mut app = spawn();
    let (a, b, c) = (new_id(), new_id(), new_id());
    let group =
        id_of(&app.create(a, "group", vec![b, c], Some("team")).expect(201)["id"]);
    let sent = app.send(b, group, r#"{"text":"hi"}"#).expect(201);
    let (topic, payload) = app.bus.as_ref().expect("a bus")[0].clone();
    assert_eq!(topic, "im.message.created");
    let expected = format!(
        r#"{{"id":{},"type":"im.message.created","actorId":"{}","targetUsers":["{}","{}"],"resource":{{"type":"im","id":"{}","url":"/im/{}"}},"title":"team","body":"hi","priority":"high"}}"#,
        sent["id"],
        text_of(b),
        text_of(a),
        text_of(c),
        text_of(group),
        text_of(group)
    );
    assert_eq!(payload, json(&expected));
    let direct = app.create_direct(a, b);
    app.send(a, direct, r#"{"text":"hi"}"#).expect(201);
    assert_eq!(app.bus.as_ref().expect("a bus")[1].1["title"], "新消息");
    app.bus_fails = true;
    app.send(a, direct, r#"{"text":"hi"}"#).expect(201);
    app.bus = None;
    app.send(a, direct, r#"{"text":"hi"}"#).expect(201);
}

#[test]
fn read_marks_only_move_forward() {
    let mut app = spawn();
    let (a, b) = (new_id(), new_id());
    let conversation = app.create_direct(a, b);
    for _ in 0..5 {
        app.send(a, conversation, "{}").expect(201);
    }
    assert_eq!(app.read(b, conversation, 3).expect(200)["lastReadSeq"], 3);
    assert_eq!(app.read(b, conversation, 2).expect(200)["lastReadSeq"], 3);
    assert_eq!(app.read(b, conversation, -1).expect(200)["lastReadSeq"], 3);
    assert_eq!(app.list(b).expect(200)[0]["unread"], 2);
    assert_eq!(app.list(a).expect(200)[0]["unread"], 5, "one's own messages count too");
    assert_eq!(app.read(b, conversation, 9).expect(200)["lastReadSeq"], 9);
    assert_eq!(app.list(b).expect(200)[0]["unread"], 0);
    app.read(new_id(), conversation, 1).refused(AppError::NotMember);
}

#[test]
fn joining_again_keeps_the_read_mark() {
    let mut app = spawn();
    let (a, b) = (new_id(), new_id());
    let group = app.create_group(a, vec![b]);
    app.send(a, group, "{}").expect(201);
    app.read(b, group, 1).expect(200);
    app.appoint(a, group, b, "admin").expect(200);
    app.remove(b, group, b).expect(204);
    app.send(a, group, "{}").expect(201);
    assert_eq!(app.invite(a, group, vec![b, b]).expect(200)["added"], 2);
    assert_eq!(app.list(b).expect(200)[0]["unread"], 1);
    assert_eq!(app.members.len(), 2);
    let row = app.members.iter().find(|m| m.user_id == b).expect("a row");
    assert_eq!(row.role, Role::Member, "the role is that of the invitation");
    assert!(row.left_at.is_none());
}

#[test]
fn messages_are_recalled_in_time_by_their_sender() {
    let mut app = spawn();
    let (a, b) = (new_id(), new_id());
    let conversation = app.create_direct(a, b);
    let first = id_of(&app.send(a, conversation, r#"{"text":"1"}"#).expect(201)["id"]);
    let second = id_of(&app.send(a, conversation, r#"{"text":"2"}"#).expect(201)["id"]);
    let (_, mut ws_b) = app.hub.register(b);
    app.recall(b, conversation, first).refused(AppError::NotSender);
    app.recall(a, conversation, new_id()).refused(AppError::MessageNotFound);
    app.recall(new_id(), conversation, first).refused(AppError::NotMember);
    let sent_at = app.now;
    app.now = Timestamp { secs: sent_at.secs + 120, nanos: sent_at.nanos };
    let recalled = app.recall(a, conversation, first).expect(200);
    assert_eq!(recalled["status"], "recalled");
    assert_eq!(recalled["content"]["text"], "1", "the content stays");
    assert_eq!(recalled["seq"], 1);
    let told = read_until(&mut ws_b, "message_recalled");
    assert_eq!(told["payload"]["messageId"], text_of(first));
    app.now = Timestamp { secs: sent_at.secs + 120, nanos: sent_at.nanos + 1 };
    app.recall(a, conversation, second).refused(AppError::RecallExpired);
    app.now = Timestamp { secs: sent_at.secs + 120, nanos: 500_000_000 };
    app.recall(a, conversation, second).refused(AppError::RecallExpired);
    let writes = app.writes;
    assert_eq!(app.recall(a, conversation, first).expect(200), recalled);
    assert_eq!(app.writes, writes, "recalling again writes nothing");
}

#[test]
fn receipts_are_for_the_other_members() {
    let mut app = spawn();
    let (a, b, c) = (new_id(), new_id(), new_id());
    let group = app.create_group(a, vec![b, c]);
    let message = id_of(&app.send(a, group, "{}").expect(201)["id"]);
    app.read(b, group, 1).expect(200);
    let receipts = app.receipts(a, group, message).expect(200);
    let expected = format!(
        r#"[{{"userId":"{}","read":true,"lastReadSeq":1}},{{"userId":"{}","read":false,"lastReadSeq":0}}]"#,
        text_of(b),
        text_of(c)
    );
    assert_eq!(receipts, json(&expected));
    app.receipts(new_id(), group, message).refused(AppError::NotMember);
}

#[test]
fn members_are_listed() {
    let mut app = spawn();
    let (a, b) = (new_id(), new_id());
    let group = app.create_group(a, vec![b]);
    let until = Timestamp { secs: app.now.secs + 60, nanos: 500_000_000 };
    app.mute(a, group, b, Some(until)).expect(200);
    let members = app.respond(routes::list_members(b, group)).expect(200);
    let expected = format!(
        r#"[{{"userId":"{}","role":"owner","lastReadSeq":0,"mutedUntil":null,"canSpeak":true,"joinedAt":"2023-11-14T22:13:20Z"}},{{"userId":"{}","role":"member","lastReadSeq":0,"mutedUntil":"2023-11-14T22:14:20.500Z","canSpeak":true,"joinedAt":"2023-11-14T22:13:20Z"}}]"#,
        text_of(a),
        text_of(b)
    );
    assert_eq!(members, json(&expected));
}

#[test]
fn pages_join_up() {
    let mut app = spawn();
    let (a, b) = (new_id(), new_id());
    let conversation = app.create_direct(a, b);
    for _ in 0..7 {
        app.send(a, conversation, "{}").expect(201);
    }
    let seqs = |page: Value| -> Vec<i64> {
        page.as_array()
            .expect("an array")
            .iter()
            .map(|m| m["seq"].as_i64().expect("a number"))
            .collect()
    };
    assert_eq!(seqs(app.history(b, conversation, None, Some(3)).expect(200)), vec![5, 6, 7]);
    assert_eq!(seqs(app.history(b, conversation, Some(5), Some(3)).expect(200)), vec![2, 3, 4]);
    assert_eq!(seqs(app.history(b, conversation, Some(2), Some(3)).expect(200)), vec![1]);
    assert!(seqs(app.history(b, conversation, Some(1), Some(3)).expect(200)).is_empty());
    assert_eq!(seqs(app.history(b, conversation, None, Some(0)).expect(200)), vec![7]);
    assert_eq!(seqs(app.history(b, conversation, None, None).expect(200)).len(), 7);
}

#[test]
fn page_limits_are_clamped() {
    let limit = club_im::routes::messages::page_limit;
    assert_eq!(limit(None), 50);
    assert_eq!(limit(Some(0)), 1);
    assert_eq!(limit(Some(200)), 200);
    assert_eq!(limit(Some(201)), 200);
}

#[test]
fn the_latest_conversation_comes_first() {
    let mut app = spawn();
    let (a, b, c, d) = (new_id(), new_id(), new_id(), new_id());
    let one = app.create_direct(a, b);
    let two = app.create_direct(a, c);
    let three = app.create_direct(a, d);
    let order = |app: &mut TestApp| -> Vec<Id> {
        let list = app.list(a).expect(200);
        list.as_array().expect("an array").iter().map(|item| id_of(&item["id"])).collect()
    };
    assert_eq!(order(&mut app), vec![one, two, three], "equal times keep their order");
    app.now.secs += 1;
    app.send(c, two, "{}").expect(201);
    assert_eq!(order(&mut app), vec![two, one, three]);
    app.now.secs += 1;
    app.send(a, three, "{}").expect(201);
    assert_eq!(order(&mut app), vec![three, two, one]);
    app.remove(a, two, a).expect(204);
    assert_eq!(order(&mut app), vec![three, one]);
    app.conversations.retain(|row| row.id != three);
    assert_eq!(order(&mut app), vec![one], "a membership without its conversation is left out");
    assert_eq!(app.list(new_id()).expect(200), json("[]"));
}

#[test]
fn muted_members_are_silent_for_a_while() {
    let mut app = spawn();
    let (a, b) = (new_id(), new_id());
    let group = app.create_group(a, vec![b]);
    let (_, mut ws_b) = app.hub.register(b);
    let until = Timestamp { secs: app.now.secs + 10, nanos: 0 };
    let muted = app.mute(a, group, b, Some(until)).expect(200);
    assert_eq!(muted["userId"], text_of(b));
    assert_eq!(muted["mutedUntil"], "2023-11-14T22:13:30Z");
    let told = read_until(&mut ws_b, "member_muted");
    assert_eq!(told["payload"]["conversationId"], text_of(group));
    assert_eq!(told["payload"]["mutedUntil"], "2023-11-14T22:13:30Z");
    let writes = app.writes;
    app.send(b, group, "{}").refused(AppError::Muted);
    assert_eq!(app.writes, writes);
    app.now.secs += 10;
    app.send(b, group, "{}").expect(201);
    app.now.secs -= 10;
    app.mute(a, group, b, None).expect(200);
    app.send(b, group, "{}").expect(201);
}

#[test]
fn only_administrators_speak_where_the_group_says_so() {
    let mut app = spawn();
    let (a, b, c) = (new_id(), new_id(), new_id());
    let group = app.create_group(a, vec![b, c]);
    let settings = app.settings(a, group, Some(true), Some(Some("read me"))).expect(200);
    assert_eq!(settings, json(r#"{"onlyAdminsSpeak":true,"notice":"read me"}"#));
    app.send(b, group, "{}").expect(201);
    assert_eq!(app.speak(a, group, b, false).expect(200)["canSpeak"], false);
    app.send(b, group, "{}").refused(AppError::ReadonlyGroup);
    app.appoint(a, group, b, "admin").expect(200);
    app.send(b, group, "{}").expect(201);
    app.send(a, group, "{}").expect(201);
    let kept = app.settings(b, group, None, None).expect(200);
    assert_eq!(kept, json(r#"{"onlyAdminsSpeak":true,"notice":"read me"}"#));
    let cleared = app.settings(b, group, Some(false), Some(None)).expect(200);
    assert_eq!(cleared, json(r#"{"onlyAdminsSpeak":false,"notice":null}"#));
}

#[test]
fn managing_is_for_owner_and_administrators() {
    let mut app = spawn();
    let (a, b, c) = (new_id(), new_id(), new_id());
    let group = app.create_group(a, vec![b, c]);
    let direct = app.create_direct(a, b);
    let outsider = new_id();
    let writes = app.writes;
    app.settings(b, group, Some(true), None).refused(AppError::AdminOnly);
    app.settings(a, direct, Some(true), None).refused(AppError::GroupOnly);
    app.settings(outsider, group, Some(true), None).refused(AppError::NotMember);
    app.mute(b, group, c, None).refused(AppError::AdminOnly);
    app.mute(a, group, outsider, None).refused(AppError::MemberNotFound);
    app.speak(c, group, b, true).refused(AppError::AdminOnly);
    app.speak(a, group, outsider, true).refused(AppError::MemberNotFound);
    app.appoint(b, group, c, "admin").refused(AppError::AdminOnly);
    app.appoint(a, group, outsider, "admin").refused(AppError::MemberNotFound);
    app.invite(b, group, vec![outsider]).refused(AppError::InviteForbidden);
    app.invite(a, direct, vec![outsider]).refused(AppError::NotGroup);
    app.remove(b, group, c).refused(AppError::RemoveForbidden);
    app.transfer(b, group, c).refused(AppError::AdminOnly);
    app.dissolve(b, group).refused(AppError::AdminOnly);
    app.dissolve(a, direct).refused(AppError::GroupOnly);
    assert_eq!(app.writes, writes, "a refused request writes nothing");
}

#[test]
fn some_things_are_for_the_owner_alone() {
    let mut app = spawn();
    let (a, b, c) = (new_id(), new_id(), new_id());
    let group = app.create_group(a, vec![b, c]);
    let (_, mut ws_b) = app.hub.register(b);
    let appointed = app.appoint(a, group, b, "admin").expect(200);
    assert_eq!(appointed["role"], "admin");
    assert_eq!(read_until(&mut ws_b, "my_role_updated")["payload"]["role"], "admin");
    let writes = app.writes;
    app.appoint(b, group, c, "admin").refused(AppError::OwnerOnlyRole);
    app.transfer(b, group, c).refused(AppError::OwnerOnlyTransfer);
    app.dissolve(b, group).refused(AppError::OwnerOnlyDissolve);
    app.mute(b, group, a, None).refused(AppError::OwnerMuteForbidden);
    app.appoint(a, group, c, "owner").refused(AppError::UnsupportedRole);
    app.appoint(a, group, c, "king").refused(AppError::UnsupportedRole);
    app.appoint(a, group, a, "member").refused(AppError::OwnerRoleFixed);
    assert_eq!(app.writes, writes);
    app.mute(b, group, c, None).expect(200);
    app.remove(b, group, c).expect(204);
}

#[test]
fn groups_are_handed_over() {
    let mut app = spawn();
    let (a, b) = (new_id(), new_id());
    let group = app.create_group(a, vec![b]);
    let (_, mut ws_a) = app.hub.register(a);
    let writes = app.writes;
    assert_eq!(app.transfer(a, group, a).expect(200)["ownerId"], text_of(a));
    assert_eq!(app.writes, writes, "nothing changes for the owner");
    read_until(&mut ws_a, "owner_transferred");
    assert_eq!(app.transfer(a, group, b).expect(200)["ownerId"], text_of(b));
    assert_eq!(read_until(&mut ws_a, "owner_transferred")["payload"]["ownerId"], text_of(b));
    let role = |app: &TestApp, user: Id| {
        app.members.iter().find(|m| m.user_id == user).expect("a row").role.clone()
    };
    assert_eq!(role(&app, a), Role::Admin);
    assert_eq!(role(&app, b), Role::Owner);
    assert_eq!(app.conversations[0].owner_id, Some(b));
    app.transfer(b, group, new_id()).refused(AppError::MemberNotFound);
    assert_eq!(role(&app, b), Role::Admin, "the first step is not undone");
    assert_eq!(app.conversations[0].owner_id, Some(b));
}

#[test]
fn dissolved_groups_are_gone() {
    let mut app = spawn();
    let (a, b) = (new_id(), new_id());
    let group = app.create_group(a, vec![b]);
    let direct = app.create_direct(a, b);
    app.send(a, group, "{}").expect(201);
    app.send(a, direct, "{}").expect(201);
    let (_, mut ws_b) = app.hub.register(b);
    assert_eq!(app.dissolve(a, group).expect(204), Value::Null);
    let told = read_until(&mut ws_b, "conversation_dissolved");
    assert_eq!(told["payload"]["conversationId"], text_of(group));
    app.history(a, group, None, None).refused(AppError::NotMember);
    assert_eq!(app.conversations.len(), 1);
    assert_eq!(app.members.len(), 2);
    assert_eq!(app.messages.len(), 1);
    app.history(b, direct, None, None).expect(200);
}

#[test]
fn clients_are_told_what_is_wrong() {
    let mut app = spawn();
    let (a, b) = (new_id(), new_id());
    let conversation = app.create_direct(a, b);
    let (_, mut ws_a) = app.hub.register(a);
    let (_, mut ws_b) = app.hub.register(b);
    app.client_text(a, r#"{"type":"send_message","requestId":"r2","payload":{}}"#);
    let error = read_until(&mut ws_a, "error");
    assert_eq!(error["requestId"], "r2");
    assert_eq!(error["payload"]["code"], "IM_VALIDATION");
    assert_eq!(error["payload"]["message"], "缺少 conversationId");
    app.client_text(
        a,
        &format!(
            r#"{{"type":"send_message","requestId":"r3","payload":{{"conversationId":"{}"}}}}"#,
            text_of(conversation)
        ),
    );
    let error = read_until(&mut ws_a, "error");
    assert_eq!(error["requestId"], "r3");
    assert_eq!(error["payload"]["message"], "消息内容不能为空");
    app.client_text(
        a,
        &format!(
            r#"{{"type":"send_message","payload":{{"conversationId":"{}","content":"hi"}}}}"#,
            text_of(new_id())
        ),
    );
    assert_eq!(read_until(&mut ws_a, "error")["payload"]["code"], "IM_NOT_MEMBER");
    app.client_text(a, r#"{"type":"read","payload":{"seq":1}}"#);
    app.client_text(a, r#"{"type":"read","payload":{"conversationId":"x","seq":1}}"#);
    app.client_text(a, r#"{"type":"typing"}"#);
    let not_mine = app.create_direct(b, new_id());
    app.client_text(
        a,
        &format!(
            r#"{{"type":"read","payload":{{"conversationId":"{}","seq":1}}}}"#,
            text_of(not_mine)
        ),
    );
    assert!(ws_a.try_recv().is_err());
    assert!(ws_b.try_recv().is_err());
}

#[test]
fn clients_send_with_defaults_and_are_told_each_time() {
    let mut app = spawn();
    let (a, b) = (new_id(), new_id());
    let conversation = app.create_direct(a, b);
    let (_, mut ws_a) = app.hub.register(a);
    let (_, mut ws_b) = app.hub.register(b);
    let text = format!(
        r#"{{"type":"send_message","payload":{{"conversationId":"{}","content":{{"text":"x"}},"clientMsgId":"c"}}}}"#,
        text_of(conversation)
    );
    app.client_text(a, &text);
    let ack = read_until(&mut ws_a, "message_ack");
    assert_eq!(ack["requestId"], Value::Null);
    assert_eq!(ack["payload"]["clientMsgId"], "c");
    assert_eq!(ack["payload"]["message"]["type"], "text");
    let first = read_until(&mut ws_b, "message");
    app.client_text(a, &text);
    assert_eq!(read_until(&mut ws_a, "message_ack"), ack);
    assert_eq!(read_until(&mut ws_b, "message"), first, "told again, also of the same message");
    assert_eq!(app.messages.len(), 1);
    app.client_text(
        b,
        &format!(
            r#"{{"type":"typing","payload":{{"conversationId":"{}","state":"pause"}}}}"#,
            text_of(conversation)
        ),
    );
    let typing = read_until(&mut ws_a, "typing");
    assert_eq!(typing["payload"]["state"], "stop");
    assert_eq!(typing["payload"]["userId"], text_of(b));
}

#[test]
fn failures_of_the_tables_are_passed_on() {
    let mut app = spawn();
    let (a, b) = (new_id(), new_id());
    let conversation = app.create_direct(a, b);
    let (_, mut ws_a) = app.hub.register(a);
    app.broken = true;
    let failed = AppError::Internal("no connection".to_string());
    app.list(a).refused(failed.clone());
    app.send(a, conversation, "{}").refused(failed.clone());
    app.create(a, "direct", vec![b], None).refused(failed.clone());
    app.dissolve(a, conversation).refused(failed);
    app.client_text(
        a,
        &format!(
            r#"{{"type":"send_message","payload":{{"conversationId":"{}","content":"x"}}}}"#,
            text_of(conversation)
        ),
    );
    assert_eq!(read_until(&mut ws_a, "error")["payload"]["code"], "INTERNAL_ERROR");
}

#[test]
fn answers_to_another_question_are_not_taken() {
    let env = spawn().env();
    for wrong in [Event::Done, Event::Affected(1), Event::Members(vec![])] {
        match repo::get_conversation_for_member(1, 2) {
            Step::Ask(access, _) => match access.next(env, wrong) {
                Step::Done(Err(error)) => assert_eq!(error, AppError::UnexpectedReply),
                other => panic!("went on: {other:?}"),
            },
            other => panic!("asked nothing: {other:?}"),
        }
    }
}

#[test]
fn unread_counts_that_do_not_fit_are_refused() {
    let mut app = spawn();
    let (a, b) = (new_id(), new_id());
    app.create_direct(a, b);
    app.conversations[0].next_seq = i64::MAX;
    app.members[0].last_read_seq = -1;
    app.list(a).refused(AppError::UnreadOverflow);
    assert_eq!(app.list(b).expect(200)[0]["unread"], i64::MAX);
}

#[test]
fn a_conversation_may_be_gone() {
    let mut app = spawn();
    let (a, b) = (new_id(), new_id());
    let conversation = app.create_direct(a, b);
    app.conversations.clear();
    app.history(a, conversation, None, None).refused(AppError::ConversationNotFound);
    let new = NewMessage {
        conversation_id: conversation,
        sender_id: a,
        kind: "text".to_string(),
        content: json("{}"),
        reply_to_id: None,
        client_msg_id: None,
    };
    let now = app.now;
    let stored = app.run(repo::insert_message(new, now));
    assert_eq!(stored.expect_err("no conversation"), AppError::ConversationNotFound);
}

#[test]
fn a_creator_without_a_row_is_an_error() {
    let mut app = spawn();
    let (a, b) = (new_id(), new_id());
    app.create_direct(a, b);
    let env = app.env();
    let input =
        CreateConversationRequest { kind: "direct".to_string(), member_ids: vec![b], name: None };
    let mut step = routes::create_conversation(a, input, env);
    let result = loop {
        match step {
            Step::Done(result) => break result,
            Step::Ask(state, action) => {
                let event = match action {
                    ActionOf::FindMember { .. } => Event::Member(None),
                    other => app.perform(other),
                };
                step = state.next(env, event);
            }
        }
    };
    assert_eq!(result.expect_err("no row"), AppError::MemberRowMissing);
}

#[test]
fn logins_name_a_user() {
    let user = new_id();
    assert_eq!(routes::user_id_of(&text_of(user)), Ok(user));
    assert_eq!(routes::user_id_of("somebody"), Err(AppError::InvalidToken));
    let down = routes::readyz(false).body.expect("a body");
    assert_eq!(down, json(r#"{"status":"degraded","database":"error"}"#));
    assert_eq!(
        routes::readyz(true).body.expect("a body"),
        json(r#"{"status":"ready","database":"ok"}"#)
    );
}

#[test]
fn services_give_rows() {
    let mut app = spawn();
    let (a, b) = (new_id(), new_id());
    let conversation = app.create_direct(a, b);
    let message = id_of(&app.send(a, conversation, "{}").expect(201)["id"]);
    let member = app.run(service::apply_read(b, conversation, 1)).expect("a member");
    assert_eq!(member.last_read_seq, 1);
    let row = app.run(service::recall_message(a, conversation, message)).expect("a message");
    assert_eq!(row.status, Status::Recalled);
    assert_eq!(row.recalled_at, Some(app.now));
    let found = app.run(repo::get_conversation_for_member(conversation, b)).expect("found");
    assert_eq!(repo::unread_for(&found.conversation, &found.member), 0);
    assert_eq!(repo::map_db_err("down".to_string()), AppError::Internal("down".to_string()));
}

#[test]
fn answers_of_the_tables_are_read() {
    assert_eq!(repo::allocated_seq(Event::Allocated(Some(4))), Ok(4));
    assert_eq!(
        repo::allocated_seq(Event::Allocated(None)),
        Err(AppError::ConversationNotFound)
    );
    assert_eq!(repo::allocated_seq(Event::Done), Err(AppError::UnexpectedReply));
    assert_eq!(repo::membership_ended(Event::Affected(1)), Ok(true));
    assert_eq!(repo::membership_ended(Event::Affected(0)), Ok(false));
    assert_eq!(
        repo::membership_ended(Event::Failed(AppError::Muted)),
        Err(AppError::Muted)
    );
    let mut app = spawn();
    let (a, b) = (new_id(), new_id());
    let conversation = app.create_direct(a, b);
    for _ in 0..2 {
        app.send(a, conversation, "{}").expect(201);
    }
    let newest_first = app.perform(repo::list_messages(conversation, None, 9));
    let rows = repo::messages_in_order(newest_first).expect("rows");
    assert_eq!(rows.iter().map(|m| m.seq).collect::<Vec<i64>>(), vec![1, 2]);
}
