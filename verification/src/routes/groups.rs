//! Managing groups: settings, ownership and dissolution.

use vstd::prelude::*;

use crate::entity::conversation::{self, Kind};
use crate::entity::conversation_member::{self, Role};
use crate::error::AppError;
use crate::flow::{Action, ActionOf, ActionSpec, ConversationChange, Env, Event, Flow, Step};
use crate::ids::Id;
use crate::json::{self, optional_text, Json};
use crate::realtime::protocol::{event_line, event_text};
use crate::repo::membership::{access_start, Access};
use crate::repo::ownership::{dissolve_start, transfer_start, Dissolve, TransferOwner};
use crate::repo::{
    self, conversation_as_written, get_conversation_for_member, list_members, written_conversation,
    ConversationWithMember,
};
use crate::routes::dto::{
    id_json, id_value, optional_id_json, optional_id_value, optional_string_value,
    user_ids, users_of,
};
use crate::routes::{
    no_content, ok, GroupSettingsRequest, Reply, ReplyOf, ReplySpec, TransferRequest,
};
use crate::text::text_of;

verus! {

/// The verdict on managing a conversation: it has to be a group, and the member its owner or an
/// administrator.
pub open spec fn admin_verdict(found: ConversationWithMember) -> Result<
    ConversationWithMember,
    AppError,
> {
    if !(found.conversation.kind is Group) {
        Err(AppError::GroupOnly)
    } else if !found.member.role.spec_manages() {
        Err(AppError::AdminOnly)
    } else {
        Ok(found)
    }
}

/// The verdict on managing a conversation.
pub fn check_admin(found: ConversationWithMember) -> (r: Result<ConversationWithMember, AppError>)
    ensures
        r == admin_verdict(found),
{
    match found.conversation.kind {
        Kind::Group => {},
        _ => {
            return Err(AppError::GroupOnly);
        },
    }
    if !found.member.role.manages() {
        return Err(AppError::AdminOnly);
    }
    Ok(found)
}

/// Looks up a group for somebody who may manage it.
#[derive(Debug)]
pub struct GroupAdmin {
    /// Looking the conversation up.
    pub access: Access,
}

impl View for GroupAdmin {
    type V = GroupAdmin;

    open spec fn view(&self) -> GroupAdmin {
        *self
    }
}

impl GroupAdmin {
    /// The step that goes on with looking the conversation up.
    pub open spec fn accessing(step: Step<Access, ActionSpec, ConversationWithMember>) -> Step<
        GroupAdmin,
        ActionSpec,
        ConversationWithMember,
    > {
        match step {
            Step::Ask(access, action) => Step::Ask(GroupAdmin { access }, action),
            Step::Done(Err(e)) => Step::Done(Err(e)),
            Step::Done(Ok(found)) => Step::Done(admin_verdict(found)),
        }
    }

    fn on_access(step: Step<Access, Action, ConversationWithMember>) -> (r: Step<
        GroupAdmin,
        Action,
        ConversationWithMember,
    >)
        ensures
            r@ == GroupAdmin::accessing(step@),
    {
        match step {
            Step::Ask(access, action) => Step::Ask(GroupAdmin { access }, action),
            Step::Done(Err(e)) => Step::Done(Err(e)),
            Step::Done(Ok(found)) => Step::Done(check_admin(found)),
        }
    }
}

/// First step of looking up a group for somebody who may manage it.
pub open spec fn admin_start(conversation_id: Id, user_id: Id) -> Step<
    GroupAdmin,
    ActionSpec,
    ConversationWithMember,
> {
    GroupAdmin::accessing(access_start(conversation_id, user_id))
}

/// Starts to look up a group for its owner or one of its administrators.
pub fn ensure_group_admin(conversation_id: Id, user_id: Id) -> (r: Step<
    GroupAdmin,
    Action,
    ConversationWithMember,
>)
    ensures
        r@ == admin_start(conversation_id, user_id),
{
    GroupAdmin::on_access(get_conversation_for_member(conversation_id, user_id))
}

impl Flow for GroupAdmin {
    type Output = ConversationWithMember;

    open spec fn step(state: GroupAdmin, env: Env, event: Event) -> Step<
        GroupAdmin,
        ActionSpec,
        ConversationWithMember,
    > {
        GroupAdmin::accessing(Access::step(state.access, env, event))
    }

    fn next(self, env: Env, event: Event) -> (r: Step<GroupAdmin, Action, ConversationWithMember>)
        ensures
            r@ == GroupAdmin::step(self@, env, event),
    {
        GroupAdmin::on_access(self.access.next(env, event))
    }
}

/// Changes the settings of a group.
#[derive(Debug)]
pub enum ChangeSettings {
    /// Looking the group up.
    Admin {
        only_admins_speak: Option<bool>,
        notice: Option<Option<String>>,
        admin: GroupAdmin,
    },
    /// Waiting for the group as written.
    Written,
}

impl View for ChangeSettings {
    type V = ChangeSettings;

    open spec fn view(&self) -> ChangeSettings {
        *self
    }
}

/// The settings of a group as they are shown.
pub open spec fn settings_json(conversation: conversation::Model) -> Json {
    Json::Obj(
        map![
            "onlyAdminsSpeak"@ => Json::Bool(conversation.only_admins_speak),
            "notice"@ => optional_text(text_of(conversation.notice)),
        ],
    )
}

impl ChangeSettings {
    /// The step that goes on with looking the group up.
    pub open spec fn managing(
        only_admins_speak: Option<bool>,
        notice: Option<Option<String>>,
        env: Env,
        step: Step<GroupAdmin, ActionSpec, ConversationWithMember>,
    ) -> Step<ChangeSettings, ActionSpec, ReplySpec> {
        match step {
            Step::Ask(admin, action) => Step::Ask(
                ChangeSettings::Admin { only_admins_speak, notice, admin },
                action,
            ),
            Step::Done(Err(e)) => Step::Done(Err(e)),
            Step::Done(Ok(found)) => Step::Ask(
                ChangeSettings::Written,
                ActionOf::UpdateConversation {
                    conversation_id: found.conversation.id,
                    change: ConversationChange::Settings {
                        only_admins_speak,
                        notice,
                        at: env.now,
                    },
                },
            ),
        }
    }

    fn on_admin(
        only_admins_speak: Option<bool>,
        notice: Option<Option<String>>,
        env: Env,
        step: Step<GroupAdmin, Action, ConversationWithMember>,
    ) -> (r: Step<ChangeSettings, Action, Reply>)
        ensures
            r@ == ChangeSettings::managing(only_admins_speak, notice, env, step@),
    {
        match step {
            Step::Ask(admin, action) => Step::Ask(
                ChangeSettings::Admin { only_admins_speak, notice, admin },
                action,
            ),
            Step::Done(Err(e)) => Step::Done(Err(e)),
            Step::Done(Ok(found)) => Step::Ask(
                ChangeSettings::Written,
                repo::update_group_settings(
                    &found.conversation,
                    only_admins_speak,
                    notice,
                    env.now,
                ),
            ),
        }
    }
}

/// First step of changing the settings of a group.
pub open spec fn settings_start(
    user_id: Id,
    conversation_id: Id,
    input: GroupSettingsRequest,
    env: Env,
) -> Step<ChangeSettings, ActionSpec, ReplySpec> {
    ChangeSettings::managing(
        input.only_admins_speak,
        input.notice,
        env,
        admin_start(conversation_id, user_id),
    )
}

/// Starts to change the settings of a group, for its owner or one of its administrators.
pub fn update_group_settings(
    user_id: Id,
    conversation_id: Id,
    input: GroupSettingsRequest,
    env: Env,
) -> (r: Step<ChangeSettings, Action, Reply>)
    ensures
        r@ == settings_start(user_id, conversation_id, input, env),
{
    ChangeSettings::on_admin(
        input.only_admins_speak,
        input.notice,
        env,
        ensure_group_admin(conversation_id, user_id),
    )
}

impl Flow for ChangeSettings {
    type Output = Reply;

    open spec fn step(state: ChangeSettings, env: Env, event: Event) -> Step<
        ChangeSettings,
        ActionSpec,
        ReplySpec,
    > {
        match state {
            ChangeSettings::Admin { only_admins_speak, notice, admin } => ChangeSettings::managing(
                only_admins_speak,
                notice,
                env,
                GroupAdmin::step(admin, env, event),
            ),
            ChangeSettings::Written => match written_conversation(event) {
                Err(e) => Step::Done(Err(e)),
                Ok(conversation) => Step::Done(Ok(ok(settings_json(conversation)))),
            },
        }
    }

    fn next(self, env: Env, event: Event) -> (r: Step<ChangeSettings, Action, Reply>)
        ensures
            r@ == ChangeSettings::step(self@, env, event),
    {
        match self {
            ChangeSettings::Admin { only_admins_speak, notice, admin } => ChangeSettings::on_admin(
                only_admins_speak,
                notice,
                env,
                admin.next(env, event),
            ),
            ChangeSettings::Written => match conversation_as_written(event) {
                Err(e) => Step::Done(Err(e)),
                Ok(conversation) => {
                    let mut body = json::new_map();
                    json::put(
                        &mut body,
                        "onlyAdminsSpeak",
                        json::boolean(conversation.only_admins_speak),
                    );
                    json::put(&mut body, "notice", optional_string_value(&conversation.notice));
                    Step::Done(Ok(ReplyOf { status: 200, body: Some(json::object(body)) }))
                },
            },
        }
    }
}

/// Hands a group over and tells its members.
#[derive(Debug)]
pub enum HandOver {
    /// Looking the group up.
    Admin { conversation_id: Id, new_owner: Id, admin: GroupAdmin },
    /// Handing it over.
    Transfer { conversation_id: Id, new_owner: Id, transfer: TransferOwner },
    /// Waiting for the members.
    Members { conversation_id: Id, new_owner: Id, conversation: conversation::Model },
    /// Waiting for the members to be told.
    Pushed { conversation: conversation::Model },
}

impl View for HandOver {
    type V = HandOver;

    open spec fn view(&self) -> HandOver {
        *self
    }
}

/// What the members are told of a new owner.
pub open spec fn handed_over_text(conversation_id: Id, new_owner: Id) -> Seq<char> {
    event_text(
        "owner_transferred"@,
        Json::Obj(
            map!["conversationId"@ => id_json(conversation_id), "ownerId"@ => id_json(new_owner)],
        ),
    )
}

impl HandOver {
    /// The step that goes on with looking the group up: only its owner may hand it over.
    pub open spec fn managing(
        conversation_id: Id,
        new_owner: Id,
        env: Env,
        step: Step<GroupAdmin, ActionSpec, ConversationWithMember>,
    ) -> Step<HandOver, ActionSpec, ReplySpec> {
        match step {
            Step::Ask(admin, action) => Step::Ask(
                HandOver::Admin { conversation_id, new_owner, admin },
                action,
            ),
            Step::Done(Err(e)) => Step::Done(Err(e)),
            Step::Done(Ok(found)) => if !(found.member.role is Owner) {
                Step::Done(Err(AppError::OwnerOnlyTransfer))
            } else {
                HandOver::transferring(
                    conversation_id,
                    new_owner,
                    transfer_start(found.conversation, new_owner, env.now),
                )
            },
        }
    }

    fn on_admin(
        conversation_id: Id,
        new_owner: Id,
        env: Env,
        step: Step<GroupAdmin, Action, ConversationWithMember>,
    ) -> (r: Step<HandOver, Action, Reply>)
        ensures
            r@ == HandOver::managing(conversation_id, new_owner, env, step@),
    {
        match step {
            Step::Ask(admin, action) => Step::Ask(
                HandOver::Admin { conversation_id, new_owner, admin },
                action,
            ),
            Step::Done(Err(e)) => Step::Done(Err(e)),
            Step::Done(Ok(found)) => match found.member.role {
                Role::Owner => HandOver::on_transfer(
                    conversation_id,
                    new_owner,
                    repo::transfer_owner(found.conversation, new_owner, env.now),
                ),
                _ => Step::Done(Err(AppError::OwnerOnlyTransfer)),
            },
        }
    }

    /// The step that goes on with handing the group over.
    pub open spec fn transferring(
        conversation_id: Id,
        new_owner: Id,
        step: Step<TransferOwner, ActionSpec, conversation::Model>,
    ) -> Step<HandOver, ActionSpec, ReplySpec> {
        match step {
            Step::Ask(transfer, action) => Step::Ask(
                HandOver::Transfer { conversation_id, new_owner, transfer },
                action,
            ),
            Step::Done(Err(e)) => Step::Done(Err(e)),
            Step::Done(Ok(conversation)) => Step::Ask(
                HandOver::Members { conversation_id, new_owner, conversation },
                ActionOf::MembersOf { conversation_id },
            ),
        }
    }

    fn on_transfer(
        conversation_id: Id,
        new_owner: Id,
        step: Step<TransferOwner, Action, conversation::Model>,
    ) -> (r: Step<HandOver, Action, Reply>)
        ensures
            r@ == HandOver::transferring(conversation_id, new_owner, step@),
    {
        match step {
            Step::Ask(transfer, action) => Step::Ask(
                HandOver::Transfer { conversation_id, new_owner, transfer },
                action,
            ),
            Step::Done(Err(e)) => Step::Done(Err(e)),
            Step::Done(Ok(conversation)) => Step::Ask(
                HandOver::Members { conversation_id, new_owner, conversation },
                list_members(conversation_id),
            ),
        }
    }
}

/// First step of handing a group over.
pub open spec fn hand_over_start(
    user_id: Id,
    conversation_id: Id,
    input: TransferRequest,
    env: Env,
) -> Step<HandOver, ActionSpec, ReplySpec> {
    HandOver::managing(
        conversation_id,
        input.user_id,
        env,
        admin_start(conversation_id, user_id),
    )
}

/// Starts to hand a group over, for its owner, and to tell the members.
pub fn transfer_owner(user_id: Id, conversation_id: Id, input: TransferRequest, env: Env) -> (r:
    Step<HandOver, Action, Reply>)
    ensures
        r@ == hand_over_start(user_id, conversation_id, input, env),
{
    HandOver::on_admin(
        conversation_id,
        input.user_id,
        env,
        ensure_group_admin(conversation_id, user_id),
    )
}

impl Flow for HandOver {
    type Output = Reply;

    open spec fn step(state: HandOver, env: Env, event: Event) -> Step<
        HandOver,
        ActionSpec,
        ReplySpec,
    > {
        match state {
            HandOver::Admin { conversation_id, new_owner, admin } => HandOver::managing(
                conversation_id,
                new_owner,
                env,
                GroupAdmin::step(admin, env, event),
            ),
            HandOver::Transfer { conversation_id, new_owner, transfer } => HandOver::transferring(
                conversation_id,
                new_owner,
                TransferOwner::step(transfer, env, event),
            ),
            HandOver::Members { conversation_id, new_owner, conversation } =>
                match event.spec_members() {
                Err(e) => Step::Done(Err(e)),
                Ok(members) => Step::Ask(
                    HandOver::Pushed { conversation },
                    ActionOf::Push {
                        user_ids: users_of(members@),
                        text: handed_over_text(conversation_id, new_owner),
                    },
                ),
            },
            HandOver::Pushed { conversation } => Step::Done(
                Ok(
                    ok(
                        Json::Obj(map!["ownerId"@ => optional_id_json(conversation.owner_id)]),
                    ),
                ),
            ),
        }
    }

    fn next(self, env: Env, event: Event) -> (r: Step<HandOver, Action, Reply>)
        ensures
            r@ == HandOver::step(self@, env, event),
    {
        match self {
            HandOver::Admin { conversation_id, new_owner, admin } => HandOver::on_admin(
                conversation_id,
                new_owner,
                env,
                admin.next(env, event),
            ),
            HandOver::Transfer { conversation_id, new_owner, transfer } => HandOver::on_transfer(
                conversation_id,
                new_owner,
                transfer.next(env, event),
            ),
            HandOver::Members { conversation_id, new_owner, conversation } =>
                match event.members() {
                Err(e) => Step::Done(Err(e)),
                Ok(members) => {
                    let mut payload = json::new_map();
                    json::put(&mut payload, "conversationId", id_value(conversation_id));
                    json::put(&mut payload, "ownerId", id_value(new_owner));
                    let text = event_line("owner_transferred", json::object(payload));
                    Step::Ask(
                        HandOver::Pushed { conversation },
                        ActionOf::Push { user_ids: user_ids(&members), text },
                    )
                },
            },
            HandOver::Pushed { conversation } => {
                let mut body = json::new_map();
                json::put(&mut body, "ownerId", optional_id_value(conversation.owner_id));
                Step::Done(Ok(ReplyOf { status: 200, body: Some(json::object(body)) }))
            },
        }
    }
}

/// Dissolves a group and tells those who were its members.
#[derive(Debug)]
pub enum DissolveGroup {
    /// Looking the group up.
    Admin { conversation_id: Id, admin: GroupAdmin },
    /// Waiting for the members.
    Members { conversation_id: Id },
    /// Dissolving it.
    Dissolve {
        conversation_id: Id,
        members: Vec<conversation_member::Model>,
        dissolve: Dissolve,
    },
    /// Waiting for the members to be told.
    Pushed,
}

impl View for DissolveGroup {
    type V = DissolveGroup;

    open spec fn view(&self) -> DissolveGroup {
        *self
    }
}

/// What the members are told of the end of a group.
pub open spec fn dissolved_text(conversation_id: Id) -> Seq<char> {
    event_text(
        "conversation_dissolved"@,
        Json::Obj(map!["conversationId"@ => id_json(conversation_id)]),
    )
}

impl DissolveGroup {
    /// The step that goes on with looking the group up: only its owner may dissolve it.
    pub open spec fn managing(
        conversation_id: Id,
        step: Step<GroupAdmin, ActionSpec, ConversationWithMember>,
    ) -> Step<DissolveGroup, ActionSpec, ReplySpec> {
        match step {
            Step::Ask(admin, action) => Step::Ask(
                DissolveGroup::Admin { conversation_id, admin },
                action,
            ),
            Step::Done(Err(e)) => Step::Done(Err(e)),
            Step::Done(Ok(found)) => if !(found.member.role is Owner) {
                Step::Done(Err(AppError::OwnerOnlyDissolve))
            } else {
                Step::Ask(
                    DissolveGroup::Members { conversation_id },
                    ActionOf::MembersOf { conversation_id },
                )
            },
        }
    }

    fn on_admin(
        conversation_id: Id,
        step: Step<GroupAdmin, Action, ConversationWithMember>,
    ) -> (r: Step<DissolveGroup, Action, Reply>)
        ensures
            r@ == DissolveGroup::managing(conversation_id, step@),
    {
        match step {
            Step::Ask(admin, action) => Step::Ask(
                DissolveGroup::Admin { conversation_id, admin },
                action,
            ),
            Step::Done(Err(e)) => Step::Done(Err(e)),
            Step::Done(Ok(found)) => match found.member.role {
                Role::Owner => Step::Ask(
                    DissolveGroup::Members { conversation_id },
                    list_members(conversation_id),
                ),
                _ => Step::Done(Err(AppError::OwnerOnlyDissolve)),
            },
        }
    }

    /// The step that goes on with dissolving the group.
    pub open spec fn dissolving(
        conversation_id: Id,
        members: Vec<conversation_member::Model>,
        step: Step<Dissolve, ActionSpec, ()>,
    ) -> Step<DissolveGroup, ActionSpec, ReplySpec> {
        match step {
            Step::Ask(dissolve, action) => Step::Ask(
                DissolveGroup::Dissolve { conversation_id, members, dissolve },
                action,
            ),
            Step::Done(Err(e)) => Step::Done(Err(e)),
            Step::Done(Ok(_)) => Step::Ask(
                DissolveGroup::Pushed,
                ActionOf::Push {
                    user_ids: users_of(members@),
                    text: dissolved_text(conversation_id),
                },
            ),
        }
    }

    fn on_dissolve(
        conversation_id: Id,
        members: Vec<conversation_member::Model>,
        step: Step<Dissolve, Action, ()>,
    ) -> (r: Step<DissolveGroup, Action, Reply>)
        ensures
            r@ == DissolveGroup::dissolving(conversation_id, members, step@),
    {
        match step {
            Step::Ask(dissolve, action) => Step::Ask(
                DissolveGroup::Dissolve { conversation_id, members, dissolve },
                action,
            ),
            Step::Done(Err(e)) => Step::Done(Err(e)),
            Step::Done(Ok(_)) => {
                let mut payload = json::new_map();
                json::put(&mut payload, "conversationId", id_value(conversation_id));
                let text = event_line("conversation_dissolved", json::object(payload));
                Step::Ask(
                    DissolveGroup::Pushed,
                    ActionOf::Push { user_ids: user_ids(&members), text },
                )
            },
        }
    }
}

/// First step of dissolving a group.
pub open spec fn dissolve_group_start(user_id: Id, conversation_id: Id) -> Step<
    DissolveGroup,
    ActionSpec,
    ReplySpec,
> {
    DissolveGroup::managing(conversation_id, admin_start(conversation_id, user_id))
}

/// Starts to dissolve a group, for its owner, and to tell those who were its members.
pub fn dissolve_conversation(user_id: Id, conversation_id: Id) -> (r: Step<
    DissolveGroup,
    Action,
    Reply,
>)
    ensures
        r@ == dissolve_group_start(user_id, conversation_id),
{
    DissolveGroup::on_admin(conversation_id, ensure_group_admin(conversation_id, user_id))
}

impl Flow for DissolveGroup {
    type Output = Reply;

    open spec fn step(state: DissolveGroup, env: Env, event: Event) -> Step<
        DissolveGroup,
        ActionSpec,
        ReplySpec,
    > {
        match state {
            DissolveGroup::Admin { conversation_id, admin } => DissolveGroup::managing(
                conversation_id,
                GroupAdmin::step(admin, env, event),
            ),
            DissolveGroup::Members { conversation_id } => match event.spec_members() {
                Err(e) => Step::Done(Err(e)),
                Ok(members) => DissolveGroup::dissolving(
                    conversation_id,
                    members,
                    dissolve_start(conversation_id),
                ),
            },
            DissolveGroup::Dissolve { conversation_id, members, dissolve } =>
                DissolveGroup::dissolving(
                conversation_id,
                members,
                Dissolve::step(dissolve, env, event),
            ),
            DissolveGroup::Pushed => Step::Done(Ok(no_content())),
        }
    }

    fn next(self, env: Env, event: Event) -> (r: Step<DissolveGroup, Action, Reply>)
        ensures
            r@ == DissolveGroup::step(self@, env, event),
    {
        match self {
            DissolveGroup::Admin { conversation_id, admin } => DissolveGroup::on_admin(
                conversation_id,
                admin.next(env, event),
            ),
            DissolveGroup::Members { conversation_id } => match event.members() {
                Err(e) => Step::Done(Err(e)),
                Ok(members) => DissolveGroup::on_dissolve(
                    conversation_id,
                    members,
                    repo::dissolve_conversation(conversation_id),
                ),
            },
            DissolveGroup::Dissolve { conversation_id, members, dissolve } =>
                DissolveGroup::on_dissolve(
                conversation_id,
                members,
                dissolve.next(env, event),
            ),
            DissolveGroup::Pushed => Step::Done(Ok(ReplyOf { status: 204, body: None })),
        }
    }
}

} // verus!
