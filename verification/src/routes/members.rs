//! Members of conversations: listing, inviting, removing, muting and appointing them.

use vstd::prelude::*;

use crate::clock::Timestamp;
use crate::entity::conversation::Kind;
use crate::entity::conversation_member::{self, Role};
use crate::error::AppError;
use crate::flow::{Action, ActionOf, ActionSpec, Env, Event, Flow, MemberChange, Step};
use crate::ids::Id;
use crate::json::{self, Json};
use crate::realtime::protocol::{event_line, event_text};
use crate::repo::membership::{access_start, change_start, join_start, Access, ChangeMember, Join};
use crate::repo::{
    self, ended, get_conversation_for_member, insert_member, membership_ended,
    ConversationWithMember,
};
use crate::routes::dto::{
    id_json, id_value, members_json, members_value, optional_time_json, optional_time_value,
};
use crate::routes::groups::{admin_start, ensure_group_admin, GroupAdmin};
use crate::routes::{
    no_content, ok, AddMembersRequest, MuteRequest, Reply, ReplyOf, ReplySpec, RoleRequest,
    SpeakRequest,
};

verus! {

/// Lists the members of a conversation.
#[derive(Debug)]
pub enum ListMembers {
    /// Looking the conversation up.
    Access { conversation_id: Id, access: Access },
    /// Waiting for the members.
    Members,
}

impl View for ListMembers {
    type V = ListMembers;

    open spec fn view(&self) -> ListMembers {
        *self
    }
}

impl ListMembers {
    /// The step that goes on with looking the conversation up.
    pub open spec fn accessing(
        conversation_id: Id,
        step: Step<Access, ActionSpec, ConversationWithMember>,
    ) -> Step<ListMembers, ActionSpec, ReplySpec> {
        match step {
            Step::Ask(access, action) => Step::Ask(
                ListMembers::Access { conversation_id, access },
                action,
            ),
            Step::Done(Err(e)) => Step::Done(Err(e)),
            Step::Done(Ok(_)) => Step::Ask(
                ListMembers::Members,
                ActionOf::MembersOf { conversation_id },
            ),
        }
    }

    fn on_access(
        conversation_id: Id,
        step: Step<Access, Action, ConversationWithMember>,
    ) -> (r: Step<ListMembers, Action, Reply>)
        ensures
            r@ == ListMembers::accessing(conversation_id, step@),
    {
        match step {
            Step::Ask(access, action) => Step::Ask(
                ListMembers::Access { conversation_id, access },
                action,
            ),
            Step::Done(Err(e)) => Step::Done(Err(e)),
            Step::Done(Ok(_)) => Step::Ask(
                ListMembers::Members,
                repo::list_members(conversation_id),
            ),
        }
    }
}

/// First step of listing the members of a conversation.
pub open spec fn list_members_start(user_id: Id, conversation_id: Id) -> Step<
    ListMembers,
    ActionSpec,
    ReplySpec,
> {
    ListMembers::accessing(conversation_id, access_start(conversation_id, user_id))
}

/// Starts to list the members of a conversation, for one of them.
pub fn list_members(user_id: Id, conversation_id: Id) -> (r: Step<ListMembers, Action, Reply>)
    ensures
        r@ == list_members_start(user_id, conversation_id),
{
    ListMembers::on_access(conversation_id, get_conversation_for_member(conversation_id, user_id))
}

impl Flow for ListMembers {
    type Output = Reply;

    open spec fn step(state: ListMembers, env: Env, event: Event) -> Step<
        ListMembers,
        ActionSpec,
        ReplySpec,
    > {
        match state {
            ListMembers::Access { conversation_id, access } => ListMembers::accessing(
                conversation_id,
                Access::step(access, env, event),
            ),
            ListMembers::Members => match event.spec_members() {
                Err(e) => Step::Done(Err(e)),
                Ok(members) => Step::Done(Ok(ok(Json::Arr(members_json(members@))))),
            },
        }
    }

    fn next(self, env: Env, event: Event) -> (r: Step<ListMembers, Action, Reply>)
        ensures
            r@ == ListMembers::step(self@, env, event),
    {
        match self {
            ListMembers::Access { conversation_id, access } => ListMembers::on_access(
                conversation_id,
                access.next(env, event),
            ),
            ListMembers::Members => match event.members() {
                Err(e) => Step::Done(Err(e)),
                Ok(members) => Step::Done(
                    Ok(ReplyOf { status: 200, body: Some(members_value(&members)) }),
                ),
            },
        }
    }
}

/// Adds members to a group.
#[derive(Debug)]
pub enum AddMembers {
    /// Looking the conversation up.
    Access { conversation_id: Id, user_ids: Vec<Id>, access: Access },
    /// Adding a member; the users from `next` on are still to be added.
    Joining { conversation_id: Id, user_ids: Vec<Id>, next: usize, now: Timestamp, join: Join },
}

impl View for AddMembers {
    type V = AddMembers;

    open spec fn view(&self) -> AddMembers {
        *self
    }
}

/// The verdict on inviting somebody to a conversation: it has to be a group, and the member its
/// owner or an administrator.
pub open spec fn invite_verdict(found: ConversationWithMember) -> Result<(), AppError> {
    if !(found.conversation.kind is Group) {
        Err(AppError::NotGroup)
    } else if !found.member.role.spec_manages() {
        Err(AppError::InviteForbidden)
    } else {
        Ok(())
    }
}

/// The verdict on inviting somebody to a conversation.
pub fn check_invite(found: &ConversationWithMember) -> (r: Result<(), AppError>)
    ensures
        r == invite_verdict(*found),
{
    match &found.conversation.kind {
        Kind::Group => {},
        _ => {
            return Err(AppError::NotGroup);
        },
    }
    if !found.member.role.manages() {
        return Err(AppError::InviteForbidden);
    }
    Ok(())
}

impl AddMembers {
    /// The step that adds the user at `from`, or ends where there is none.
    pub open spec fn add_next(
        conversation_id: Id,
        user_ids: Vec<Id>,
        from: int,
        now: Timestamp,
    ) -> Step<AddMembers, ActionSpec, ReplySpec> {
        if 0 <= from < user_ids@.len() {
            match join_start(conversation_id, user_ids@[from], Role::Member, now) {
                Step::Ask(join, action) => Step::Ask(
                    AddMembers::Joining {
                        conversation_id,
                        user_ids,
                        next: (from + 1) as usize,
                        now,
                        join,
                    },
                    action,
                ),
                Step::Done(Err(e)) => Step::Done(Err(e)),
                Step::Done(Ok(_)) => Step::Done(Ok(AddMembers::added(user_ids@.len() as int))),
            }
        } else {
            Step::Done(Ok(AddMembers::added(user_ids@.len() as int)))
        }
    }

    /// The answer that says how many users were added.
    pub open spec fn added(count: int) -> ReplySpec {
        ok(Json::Obj(map!["added"@ => Json::Int(count)]))
    }

    fn done(count: usize) -> (r: Reply)
        ensures
            r@ == AddMembers::added(count as int),
    {
        let mut body = json::new_map();
        json::put(&mut body, "added", json::count(count as u64));
        ReplyOf { status: 200, body: Some(json::object(body)) }
    }

    fn on_next(conversation_id: Id, user_ids: Vec<Id>, from: usize, now: Timestamp) -> (r: Step<
        AddMembers,
        Action,
        Reply,
    >)
        ensures
            r@ == AddMembers::add_next(conversation_id, user_ids, from as int, now),
    {
        if from < user_ids.len() {
            match insert_member(conversation_id, user_ids[from], Role::Member, now) {
                Step::Ask(join, action) => Step::Ask(
                    AddMembers::Joining { conversation_id, user_ids, next: from + 1, now, join },
                    action,
                ),
                Step::Done(Err(e)) => Step::Done(Err(e)),
                Step::Done(Ok(_)) => Step::Done(Ok(AddMembers::done(user_ids.len()))),
            }
        } else {
            Step::Done(Ok(AddMembers::done(user_ids.len())))
        }
    }

    /// The step that goes on with looking the conversation up.
    pub open spec fn accessing(
        conversation_id: Id,
        user_ids: Vec<Id>,
        env: Env,
        step: Step<Access, ActionSpec, ConversationWithMember>,
    ) -> Step<AddMembers, ActionSpec, ReplySpec> {
        match step {
            Step::Ask(access, action) => Step::Ask(
                AddMembers::Access { conversation_id, user_ids, access },
                action,
            ),
            Step::Done(Err(e)) => Step::Done(Err(e)),
            Step::Done(Ok(found)) => match invite_verdict(found) {
                Err(e) => Step::Done(Err(e)),
                Ok(_) => AddMembers::add_next(conversation_id, user_ids, 0, env.now),
            },
        }
    }

    fn on_access(
        conversation_id: Id,
        user_ids: Vec<Id>,
        env: Env,
        step: Step<Access, Action, ConversationWithMember>,
    ) -> (r: Step<AddMembers, Action, Reply>)
        ensures
            r@ == AddMembers::accessing(conversation_id, user_ids, env, step@),
    {
        match step {
            Step::Ask(access, action) => Step::Ask(
                AddMembers::Access { conversation_id, user_ids, access },
                action,
            ),
            Step::Done(Err(e)) => Step::Done(Err(e)),
            Step::Done(Ok(found)) => match check_invite(&found) {
                Err(e) => Step::Done(Err(e)),
                Ok(_) => AddMembers::on_next(conversation_id, user_ids, 0, env.now),
            },
        }
    }
}

/// First step of adding members to a group.
pub open spec fn add_members_start(
    user_id: Id,
    conversation_id: Id,
    input: AddMembersRequest,
    env: Env,
) -> Step<AddMembers, ActionSpec, ReplySpec> {
    AddMembers::accessing(
        conversation_id,
        input.user_ids,
        env,
        access_start(conversation_id, user_id),
    )
}

/// Starts to add members to a group, for its owner or one of its administrators.
pub fn add_members(user_id: Id, conversation_id: Id, input: AddMembersRequest, env: Env) -> (r:
    Step<AddMembers, Action, Reply>)
    ensures
        r@ == add_members_start(user_id, conversation_id, input, env),
{
    AddMembers::on_access(
        conversation_id,
        input.user_ids,
        env,
        get_conversation_for_member(conversation_id, user_id),
    )
}

impl Flow for AddMembers {
    type Output = Reply;

    open spec fn step(state: AddMembers, env: Env, event: Event) -> Step<
        AddMembers,
        ActionSpec,
        ReplySpec,
    > {
        match state {
            AddMembers::Access { conversation_id, user_ids, access } => AddMembers::accessing(
                conversation_id,
                user_ids,
                env,
                Access::step(access, env, event),
            ),
            AddMembers::Joining { conversation_id, user_ids, next, now, join } =>
                match Join::step(join, env, event) {
                Step::Ask(join, action) => Step::Ask(
                    AddMembers::Joining { conversation_id, user_ids, next, now, join },
                    action,
                ),
                Step::Done(Err(e)) => Step::Done(Err(e)),
                Step::Done(Ok(_)) => AddMembers::add_next(
                    conversation_id,
                    user_ids,
                    next as int,
                    now,
                ),
            },
        }
    }

    fn next(self, env: Env, event: Event) -> (r: Step<AddMembers, Action, Reply>)
        ensures
            r@ == AddMembers::step(self@, env, event),
    {
        match self {
            AddMembers::Access { conversation_id, user_ids, access } => AddMembers::on_access(
                conversation_id,
                user_ids,
                env,
                access.next(env, event),
            ),
            AddMembers::Joining { conversation_id, user_ids, next, now, join } => match join.next(
                env,
                event,
            ) {
                Step::Ask(join, action) => Step::Ask(
                    AddMembers::Joining { conversation_id, user_ids, next, now, join },
                    action,
                ),
                Step::Done(Err(e)) => Step::Done(Err(e)),
                Step::Done(Ok(_)) => AddMembers::on_next(conversation_id, user_ids, next, now),
            },
        }
    }
}

/// Removes a member from a conversation.
#[derive(Debug)]
pub enum RemoveMember {
    /// Looking the conversation up.
    Access { conversation_id: Id, user_id: Id, target_id: Id, access: Access },
    /// Waiting for the membership to end.
    Ended,
}

impl View for RemoveMember {
    type V = RemoveMember;

    open spec fn view(&self) -> RemoveMember {
        *self
    }
}

impl RemoveMember {
    /// The step that goes on with looking the conversation up: everybody may leave, and the owner
    /// and administrators may remove others.
    pub open spec fn accessing(
        conversation_id: Id,
        user_id: Id,
        target_id: Id,
        env: Env,
        step: Step<Access, ActionSpec, ConversationWithMember>,
    ) -> Step<RemoveMember, ActionSpec, ReplySpec> {
        match step {
            Step::Ask(access, action) => Step::Ask(
                RemoveMember::Access { conversation_id, user_id, target_id, access },
                action,
            ),
            Step::Done(Err(e)) => Step::Done(Err(e)),
            Step::Done(Ok(found)) => if user_id != target_id && !found.member.role.spec_manages() {
                Step::Done(Err(AppError::RemoveForbidden))
            } else {
                Step::Ask(
                    RemoveMember::Ended,
                    ActionOf::EndMembership { conversation_id, user_id: target_id, at: env.now },
                )
            },
        }
    }

    fn on_access(
        conversation_id: Id,
        user_id: Id,
        target_id: Id,
        env: Env,
        step: Step<Access, Action, ConversationWithMember>,
    ) -> (r: Step<RemoveMember, Action, Reply>)
        ensures
            r@ == RemoveMember::accessing(conversation_id, user_id, target_id, env, step@),
    {
        match step {
            Step::Ask(access, action) => Step::Ask(
                RemoveMember::Access { conversation_id, user_id, target_id, access },
                action,
            ),
            Step::Done(Err(e)) => Step::Done(Err(e)),
            Step::Done(Ok(found)) => {
                if user_id != target_id && !found.member.role.manages() {
                    return Step::Done(Err(AppError::RemoveForbidden));
                }
                Step::Ask(
                    RemoveMember::Ended,
                    repo::remove_member(conversation_id, target_id, env.now),
                )
            },
        }
    }
}

/// First step of removing a member.
pub open spec fn remove_member_start(
    user_id: Id,
    conversation_id: Id,
    target_id: Id,
    env: Env,
) -> Step<RemoveMember, ActionSpec, ReplySpec> {
    RemoveMember::accessing(
        conversation_id,
        user_id,
        target_id,
        env,
        access_start(conversation_id, user_id),
    )
}

/// Starts to remove a member, or to leave.
pub fn remove_member(user_id: Id, conversation_id: Id, target_id: Id, env: Env) -> (r: Step<
    RemoveMember,
    Action,
    Reply,
>)
    ensures
        r@ == remove_member_start(user_id, conversation_id, target_id, env),
{
    RemoveMember::on_access(
        conversation_id,
        user_id,
        target_id,
        env,
        get_conversation_for_member(conversation_id, user_id),
    )
}

impl Flow for RemoveMember {
    type Output = Reply;

    open spec fn step(state: RemoveMember, env: Env, event: Event) -> Step<
        RemoveMember,
        ActionSpec,
        ReplySpec,
    > {
        match state {
            RemoveMember::Access { conversation_id, user_id, target_id, access } =>
                RemoveMember::accessing(
                conversation_id,
                user_id,
                target_id,
                env,
                Access::step(access, env, event),
            ),
            RemoveMember::Ended => match ended(event) {
                Err(e) => Step::Done(Err(e)),
                Ok(_) => Step::Done(Ok(no_content())),
            },
        }
    }

    fn next(self, env: Env, event: Event) -> (r: Step<RemoveMember, Action, Reply>)
        ensures
            r@ == RemoveMember::step(self@, env, event),
    {
        match self {
            RemoveMember::Access { conversation_id, user_id, target_id, access } =>
                RemoveMember::on_access(
                conversation_id,
                user_id,
                target_id,
                env,
                access.next(env, event),
            ),
            RemoveMember::Ended => match membership_ended(event) {
                Err(e) => Step::Done(Err(e)),
                Ok(_) => Step::Done(Ok(ReplyOf { status: 204, body: None })),
            },
        }
    }
}

/// Mutes a member and tells them.
#[derive(Debug)]
pub enum MuteMember {
    /// Looking the group up.
    Admin {
        conversation_id: Id,
        target_id: Id,
        muted_until: Option<Timestamp>,
        admin: GroupAdmin,
    },
    /// Changing the member.
    Change { conversation_id: Id, target_id: Id, change: ChangeMember },
    /// Waiting for the member to be told.
    Pushed { target_id: Id, member: conversation_member::Model },
}

impl View for MuteMember {
    type V = MuteMember;

    open spec fn view(&self) -> MuteMember {
        *self
    }
}

/// What a member is told of being muted.
pub open spec fn muted_text(
    conversation_id: Id,
    target_id: Id,
    muted_until: Option<Timestamp>,
) -> Seq<char> {
    event_text(
        "member_muted"@,
        Json::Obj(
            map![
                "conversationId"@ => id_json(conversation_id),
                "userId"@ => id_json(target_id),
                "mutedUntil"@ => optional_time_json(muted_until),
            ],
        ),
    )
}

/// The verdict on muting a member of a group one may manage: administrators may not mute the
/// owner.
pub open spec fn mute_verdict(found: ConversationWithMember, target_id: Id) -> Result<
    (),
    AppError,
> {
    if found.member.role is Admin && found.conversation.owner_id == Some(target_id) {
        Err(AppError::OwnerMuteForbidden)
    } else {
        Ok(())
    }
}

/// The verdict on muting a member of a group one may manage.
pub fn check_mute(found: &ConversationWithMember, target_id: Id) -> (r: Result<(), AppError>)
    ensures
        r == mute_verdict(*found, target_id),
{
    let is_owner = match found.conversation.owner_id {
        Some(owner_id) => owner_id == target_id,
        None => false,
    };
    match &found.member.role {
        Role::Admin => if is_owner {
            Err(AppError::OwnerMuteForbidden)
        } else {
            Ok(())
        },
        _ => Ok(()),
    }
}

impl MuteMember {
    /// The step that goes on with looking the group up.
    pub open spec fn managing(
        conversation_id: Id,
        target_id: Id,
        muted_until: Option<Timestamp>,
        step: Step<GroupAdmin, ActionSpec, ConversationWithMember>,
    ) -> Step<MuteMember, ActionSpec, ReplySpec> {
        match step {
            Step::Ask(admin, action) => Step::Ask(
                MuteMember::Admin { conversation_id, target_id, muted_until, admin },
                action,
            ),
            Step::Done(Err(e)) => Step::Done(Err(e)),
            Step::Done(Ok(found)) => match mute_verdict(found, target_id) {
                Err(e) => Step::Done(Err(e)),
                Ok(_) => MuteMember::changing(
                    conversation_id,
                    target_id,
                    change_start(
                        conversation_id,
                        target_id,
                        MemberChange::MutedUntil(muted_until),
                    ),
                ),
            },
        }
    }

    fn on_admin(
        conversation_id: Id,
        target_id: Id,
        muted_until: Option<Timestamp>,
        step: Step<GroupAdmin, Action, ConversationWithMember>,
    ) -> (r: Step<MuteMember, Action, Reply>)
        ensures
            r@ == MuteMember::managing(conversation_id, target_id, muted_until, step@),
    {
        match step {
            Step::Ask(admin, action) => Step::Ask(
                MuteMember::Admin { conversation_id, target_id, muted_until, admin },
                action,
            ),
            Step::Done(Err(e)) => Step::Done(Err(e)),
            Step::Done(Ok(found)) => match check_mute(&found, target_id) {
                Err(e) => Step::Done(Err(e)),
                Ok(_) => MuteMember::on_change(
                    conversation_id,
                    target_id,
                    repo::set_member_mute(conversation_id, target_id, muted_until),
                ),
            },
        }
    }

    /// The step that goes on with changing the member.
    pub open spec fn changing(
        conversation_id: Id,
        target_id: Id,
        step: Step<ChangeMember, ActionSpec, conversation_member::Model>,
    ) -> Step<MuteMember, ActionSpec, ReplySpec> {
        match step {
            Step::Ask(change, action) => Step::Ask(
                MuteMember::Change { conversation_id, target_id, change },
                action,
            ),
            Step::Done(Err(e)) => Step::Done(Err(e)),
            Step::Done(Ok(member)) => Step::Ask(
                MuteMember::Pushed { target_id, member },
                ActionOf::Push {
                    user_ids: seq![target_id],
                    text: muted_text(conversation_id, target_id, member.muted_until),
                },
            ),
        }
    }

    fn on_change(
        conversation_id: Id,
        target_id: Id,
        step: Step<ChangeMember, Action, conversation_member::Model>,
    ) -> (r: Step<MuteMember, Action, Reply>)
        ensures
            r@ == MuteMember::changing(conversation_id, target_id, step@),
    {
        match step {
            Step::Ask(change, action) => Step::Ask(
                MuteMember::Change { conversation_id, target_id, change },
                action,
            ),
            Step::Done(Err(e)) => Step::Done(Err(e)),
            Step::Done(Ok(member)) => {
                let mut payload = json::new_map();
                json::put(&mut payload, "conversationId", id_value(conversation_id));
                json::put(&mut payload, "userId", id_value(target_id));
                json::put(&mut payload, "mutedUntil", optional_time_value(member.muted_until));
                let text = event_line("member_muted", json::object(payload));
                Step::Ask(
                    MuteMember::Pushed { target_id, member },
                    push_to(target_id, text),
                )
            },
        }
    }
}

/// Asks to push a text to one user.
fn push_to(user_id: Id, text: String) -> (r: Action)
    ensures
        r@ == (ActionSpec::Push { user_ids: seq![user_id], text: text@ }),
{
    let mut user_ids: Vec<Id> = Vec::new();
    user_ids.push(user_id);
    assert(user_ids@ == seq![user_id]);
    ActionOf::Push { user_ids, text }
}

/// First step of muting a member.
pub open spec fn mute_start(
    user_id: Id,
    conversation_id: Id,
    target_id: Id,
    input: MuteRequest,
) -> Step<MuteMember, ActionSpec, ReplySpec> {
    MuteMember::managing(
        conversation_id,
        target_id,
        input.muted_until,
        admin_start(conversation_id, user_id),
    )
}

/// Starts to mute a member of a group, or to let them speak again, for its owner or one of its
/// administrators.
pub fn mute_member(user_id: Id, conversation_id: Id, target_id: Id, input: MuteRequest) -> (r: Step<
    MuteMember,
    Action,
    Reply,
>)
    ensures
        r@ == mute_start(user_id, conversation_id, target_id, input),
{
    MuteMember::on_admin(
        conversation_id,
        target_id,
        input.muted_until,
        ensure_group_admin(conversation_id, user_id),
    )
}

impl Flow for MuteMember {
    type Output = Reply;

    open spec fn step(state: MuteMember, env: Env, event: Event) -> Step<
        MuteMember,
        ActionSpec,
        ReplySpec,
    > {
        match state {
            MuteMember::Admin { conversation_id, target_id, muted_until, admin } =>
                MuteMember::managing(
                conversation_id,
                target_id,
                muted_until,
                GroupAdmin::step(admin, env, event),
            ),
            MuteMember::Change { conversation_id, target_id, change } => MuteMember::changing(
                conversation_id,
                target_id,
                ChangeMember::step(change, env, event),
            ),
            MuteMember::Pushed { target_id, member } => Step::Done(
                Ok(
                    ok(
                        Json::Obj(
                            map![
                                "userId"@ => id_json(target_id),
                                "mutedUntil"@ => optional_time_json(member.muted_until),
                            ],
                        ),
                    ),
                ),
            ),
        }
    }

    fn next(self, env: Env, event: Event) -> (r: Step<MuteMember, Action, Reply>)
        ensures
            r@ == MuteMember::step(self@, env, event),
    {
        match self {
            MuteMember::Admin { conversation_id, target_id, muted_until, admin } =>
                MuteMember::on_admin(
                conversation_id,
                target_id,
                muted_until,
                admin.next(env, event),
            ),
            MuteMember::Change { conversation_id, target_id, change } => MuteMember::on_change(
                conversation_id,
                target_id,
                change.next(env, event),
            ),
            MuteMember::Pushed { target_id, member } => {
                let mut body = json::new_map();
                json::put(&mut body, "userId", id_value(target_id));
                json::put(&mut body, "mutedUntil", optional_time_value(member.muted_until));
                Step::Done(Ok(ReplyOf { status: 200, body: Some(json::object(body)) }))
            },
        }
    }
}

/// Sets whether a member may speak where only administrators may.
#[derive(Debug)]
pub enum SetSpeak {
    /// Looking the group up.
    Admin { conversation_id: Id, target_id: Id, can_speak: bool, admin: GroupAdmin },
    /// Changing the member.
    Change { target_id: Id, change: ChangeMember },
}

impl View for SetSpeak {
    type V = SetSpeak;

    open spec fn view(&self) -> SetSpeak {
        *self
    }
}

impl SetSpeak {
    /// The step that goes on with looking the group up.
    pub open spec fn managing(
        conversation_id: Id,
        target_id: Id,
        can_speak: bool,
        step: Step<GroupAdmin, ActionSpec, ConversationWithMember>,
    ) -> Step<SetSpeak, ActionSpec, ReplySpec> {
        match step {
            Step::Ask(admin, action) => Step::Ask(
                SetSpeak::Admin { conversation_id, target_id, can_speak, admin },
                action,
            ),
            Step::Done(Err(e)) => Step::Done(Err(e)),
            Step::Done(Ok(_)) => SetSpeak::changing(
                target_id,
                change_start(conversation_id, target_id, MemberChange::CanSpeak(can_speak)),
            ),
        }
    }

    fn on_admin(
        conversation_id: Id,
        target_id: Id,
        can_speak: bool,
        step: Step<GroupAdmin, Action, ConversationWithMember>,
    ) -> (r: Step<SetSpeak, Action, Reply>)
        ensures
            r@ == SetSpeak::managing(conversation_id, target_id, can_speak, step@),
    {
        match step {
            Step::Ask(admin, action) => Step::Ask(
                SetSpeak::Admin { conversation_id, target_id, can_speak, admin },
                action,
            ),
            Step::Done(Err(e)) => Step::Done(Err(e)),
            Step::Done(Ok(_)) => SetSpeak::on_change(
                target_id,
                repo::set_member_speak(conversation_id, target_id, can_speak),
            ),
        }
    }

    /// The step that goes on with changing the member.
    pub open spec fn changing(
        target_id: Id,
        step: Step<ChangeMember, ActionSpec, conversation_member::Model>,
    ) -> Step<SetSpeak, ActionSpec, ReplySpec> {
        match step {
            Step::Ask(change, action) => Step::Ask(SetSpeak::Change { target_id, change }, action),
            Step::Done(Err(e)) => Step::Done(Err(e)),
            Step::Done(Ok(member)) => Step::Done(
                Ok(
                    ok(
                        Json::Obj(
                            map![
                                "userId"@ => id_json(target_id),
                                "canSpeak"@ => Json::Bool(member.can_speak),
                            ],
                        ),
                    ),
                ),
            ),
        }
    }

    fn on_change(
        target_id: Id,
        step: Step<ChangeMember, Action, conversation_member::Model>,
    ) -> (r: Step<SetSpeak, Action, Reply>)
        ensures
            r@ == SetSpeak::changing(target_id, step@),
    {
        match step {
            Step::Ask(change, action) => Step::Ask(SetSpeak::Change { target_id, change }, action),
            Step::Done(Err(e)) => Step::Done(Err(e)),
            Step::Done(Ok(member)) => {
                let mut body = json::new_map();
                json::put(&mut body, "userId", id_value(target_id));
                json::put(&mut body, "canSpeak", json::boolean(member.can_speak));
                Step::Done(Ok(ReplyOf { status: 200, body: Some(json::object(body)) }))
            },
        }
    }
}

/// First step of setting whether a member may speak.
pub open spec fn speak_start(
    user_id: Id,
    conversation_id: Id,
    target_id: Id,
    input: SpeakRequest,
) -> Step<SetSpeak, ActionSpec, ReplySpec> {
    SetSpeak::managing(
        conversation_id,
        target_id,
        input.can_speak,
        admin_start(conversation_id, user_id),
    )
}

/// Starts to set whether a member may speak where only administrators may, for the owner of the
/// group or one of its administrators.
pub fn set_member_speak(
    user_id: Id,
    conversation_id: Id,
    target_id: Id,
    input: SpeakRequest,
) -> (r: Step<SetSpeak, Action, Reply>)
    ensures
        r@ == speak_start(user_id, conversation_id, target_id, input),
{
    SetSpeak::on_admin(
        conversation_id,
        target_id,
        input.can_speak,
        ensure_group_admin(conversation_id, user_id),
    )
}

impl Flow for SetSpeak {
    type Output = Reply;

    open spec fn step(state: SetSpeak, env: Env, event: Event) -> Step<
        SetSpeak,
        ActionSpec,
        ReplySpec,
    > {
        match state {
            SetSpeak::Admin { conversation_id, target_id, can_speak, admin } => SetSpeak::managing(
                conversation_id,
                target_id,
                can_speak,
                GroupAdmin::step(admin, env, event),
            ),
            SetSpeak::Change { target_id, change } => SetSpeak::changing(
                target_id,
                ChangeMember::step(change, env, event),
            ),
        }
    }

    fn next(self, env: Env, event: Event) -> (r: Step<SetSpeak, Action, Reply>)
        ensures
            r@ == SetSpeak::step(self@, env, event),
    {
        match self {
            SetSpeak::Admin { conversation_id, target_id, can_speak, admin } => SetSpeak::on_admin(
                conversation_id,
                target_id,
                can_speak,
                admin.next(env, event),
            ),
            SetSpeak::Change { target_id, change } => SetSpeak::on_change(
                target_id,
                change.next(env, event),
            ),
        }
    }
}

/// Sets the role of a member and tells them.
#[derive(Debug)]
pub enum SetRole {
    /// Looking the group up.
    Admin { conversation_id: Id, target_id: Id, role: Role, admin: GroupAdmin },
    /// Changing the member.
    Change { conversation_id: Id, target_id: Id, change: ChangeMember },
    /// Waiting for the members.
    Members { conversation_id: Id, target_id: Id, member: conversation_member::Model },
    /// Waiting for the member to be told.
    Pushed { target_id: Id, member: conversation_member::Model },
}

impl View for SetRole {
    type V = SetRole;

    open spec fn view(&self) -> SetRole {
        *self
    }
}

/// The verdict on giving a member a role in a group one may manage: only the owner may, the role
/// is administrator or member, and the owner's own role stays.
pub open spec fn role_verdict(found: ConversationWithMember, target_id: Id, role: Role) -> Result<
    (),
    AppError,
> {
    if !(found.member.role is Owner) {
        Err(AppError::OwnerOnlyRole)
    } else if !(role is Admin || role is Member) {
        Err(AppError::UnsupportedRole)
    } else if found.conversation.owner_id == Some(target_id) {
        Err(AppError::OwnerRoleFixed)
    } else {
        Ok(())
    }
}

/// The verdict on giving a member a role in a group one may manage.
pub fn check_role(found: &ConversationWithMember, target_id: Id, role: &Role) -> (r: Result<
    (),
    AppError,
>)
    ensures
        r == role_verdict(*found, target_id, *role),
{
    match &found.member.role {
        Role::Owner => {},
        _ => {
            return Err(AppError::OwnerOnlyRole);
        },
    }
    match role {
        Role::Admin | Role::Member => {},
        _ => {
            return Err(AppError::UnsupportedRole);
        },
    }
    match found.conversation.owner_id {
        Some(owner_id) => if owner_id == target_id {
            Err(AppError::OwnerRoleFixed)
        } else {
            Ok(())
        },
        None => Ok(()),
    }
}

/// What a member is told of a new role.
pub open spec fn role_text(conversation_id: Id, role: Role) -> Seq<char> {
    event_text(
        "my_role_updated"@,
        Json::Obj(
            map![
                "conversationId"@ => id_json(conversation_id),
                "role"@ => Json::Str(role.spec_text()),
            ],
        ),
    )
}

impl SetRole {
    /// The step that goes on with looking the group up.
    pub open spec fn managing(
        conversation_id: Id,
        target_id: Id,
        role: Role,
        step: Step<GroupAdmin, ActionSpec, ConversationWithMember>,
    ) -> Step<SetRole, ActionSpec, ReplySpec> {
        match step {
            Step::Ask(admin, action) => Step::Ask(
                SetRole::Admin { conversation_id, target_id, role, admin },
                action,
            ),
            Step::Done(Err(e)) => Step::Done(Err(e)),
            Step::Done(Ok(found)) => match role_verdict(found, target_id, role) {
                Err(e) => Step::Done(Err(e)),
                Ok(_) => SetRole::changing(
                    conversation_id,
                    target_id,
                    change_start(conversation_id, target_id, MemberChange::Role(role)),
                ),
            },
        }
    }

    fn on_admin(
        conversation_id: Id,
        target_id: Id,
        role: Role,
        step: Step<GroupAdmin, Action, ConversationWithMember>,
    ) -> (r: Step<SetRole, Action, Reply>)
        ensures
            r@ == SetRole::managing(conversation_id, target_id, role, step@),
    {
        match step {
            Step::Ask(admin, action) => Step::Ask(
                SetRole::Admin { conversation_id, target_id, role, admin },
                action,
            ),
            Step::Done(Err(e)) => Step::Done(Err(e)),
            Step::Done(Ok(found)) => match check_role(&found, target_id, &role) {
                Err(e) => Step::Done(Err(e)),
                Ok(_) => SetRole::on_change(
                    conversation_id,
                    target_id,
                    repo::set_member_role(conversation_id, target_id, role),
                ),
            },
        }
    }

    /// The step that goes on with changing the member.
    pub open spec fn changing(
        conversation_id: Id,
        target_id: Id,
        step: Step<ChangeMember, ActionSpec, conversation_member::Model>,
    ) -> Step<SetRole, ActionSpec, ReplySpec> {
        match step {
            Step::Ask(change, action) => Step::Ask(
                SetRole::Change { conversation_id, target_id, change },
                action,
            ),
            Step::Done(Err(e)) => Step::Done(Err(e)),
            Step::Done(Ok(member)) => Step::Ask(
                SetRole::Members { conversation_id, target_id, member },
                ActionOf::MembersOf { conversation_id },
            ),
        }
    }

    fn on_change(
        conversation_id: Id,
        target_id: Id,
        step: Step<ChangeMember, Action, conversation_member::Model>,
    ) -> (r: Step<SetRole, Action, Reply>)
        ensures
            r@ == SetRole::changing(conversation_id, target_id, step@),
    {
        match step {
            Step::Ask(change, action) => Step::Ask(
                SetRole::Change { conversation_id, target_id, change },
                action,
            ),
            Step::Done(Err(e)) => Step::Done(Err(e)),
            Step::Done(Ok(member)) => Step::Ask(
                SetRole::Members { conversation_id, target_id, member },
                repo::list_members(conversation_id),
            ),
        }
    }
}

/// First step of setting the role of a member.
pub open spec fn role_start(
    user_id: Id,
    conversation_id: Id,
    target_id: Id,
    input: RoleRequest,
) -> Step<SetRole, ActionSpec, ReplySpec> {
    SetRole::managing(
        conversation_id,
        target_id,
        Role::of(input.role),
        admin_start(conversation_id, user_id),
    )
}

/// Starts to make a member of a group an administrator or an ordinary member, for its owner.
pub fn set_member_role(
    user_id: Id,
    conversation_id: Id,
    target_id: Id,
    input: RoleRequest,
) -> (r: Step<SetRole, Action, Reply>)
    ensures
        r@ == role_start(user_id, conversation_id, target_id, input),
{
    SetRole::on_admin(
        conversation_id,
        target_id,
        Role::from_text(input.role),
        ensure_group_admin(conversation_id, user_id),
    )
}

impl Flow for SetRole {
    type Output = Reply;

    open spec fn step(state: SetRole, env: Env, event: Event) -> Step<
        SetRole,
        ActionSpec,
        ReplySpec,
    > {
        match state {
            SetRole::Admin { conversation_id, target_id, role, admin } => SetRole::managing(
                conversation_id,
                target_id,
                role,
                GroupAdmin::step(admin, env, event),
            ),
            SetRole::Change { conversation_id, target_id, change } => SetRole::changing(
                conversation_id,
                target_id,
                ChangeMember::step(change, env, event),
            ),
            SetRole::Members { conversation_id, target_id, member } => match event.spec_members() {
                Err(e) => Step::Done(Err(e)),
                Ok(_) => Step::Ask(
                    SetRole::Pushed { target_id, member },
                    ActionOf::Push {
                        user_ids: seq![target_id],
                        text: role_text(conversation_id, member.role),
                    },
                ),
            },
            SetRole::Pushed { target_id, member } => Step::Done(
                Ok(
                    ok(
                        Json::Obj(
                            map![
                                "userId"@ => id_json(target_id),
                                "role"@ => Json::Str(member.role.spec_text()),
                            ],
                        ),
                    ),
                ),
            ),
        }
    }

    fn next(self, env: Env, event: Event) -> (r: Step<SetRole, Action, Reply>)
        ensures
            r@ == SetRole::step(self@, env, event),
    {
        match self {
            SetRole::Admin { conversation_id, target_id, role, admin } => SetRole::on_admin(
                conversation_id,
                target_id,
                role,
                admin.next(env, event),
            ),
            SetRole::Change { conversation_id, target_id, change } => SetRole::on_change(
                conversation_id,
                target_id,
                change.next(env, event),
            ),
            SetRole::Members { conversation_id, target_id, member } => match event.members() {
                Err(e) => Step::Done(Err(e)),
                Ok(_) => {
                    let mut payload = json::new_map();
                    json::put(&mut payload, "conversationId", id_value(conversation_id));
                    json::put(&mut payload, "role", json::string(member.role.as_text()));
                    let text = event_line("my_role_updated", json::object(payload));
                    Step::Ask(SetRole::Pushed { target_id, member }, push_to(target_id, text))
                },
            },
            SetRole::Pushed { target_id, member } => {
                let mut body = json::new_map();
                json::put(&mut body, "userId", id_value(target_id));
                json::put(&mut body, "role", json::string(member.role.as_text()));
                Step::Done(Ok(ReplyOf { status: 200, body: Some(json::object(body)) }))
            },
        }
    }
}

} // verus!
