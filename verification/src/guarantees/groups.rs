//! Who may manage a group, and what managing it does.

use vstd::prelude::*;

use crate::clock::Timestamp;
use crate::entity::conversation_member::Role;
use crate::error::AppError;
use crate::flow::{ConversationChange, Env, Event, MemberChange};
use crate::guarantees::access::access_result;
use crate::ids::Id;
use crate::json::Json;
use crate::repo::ConversationWithMember;
use crate::routes::dto::{id_json, optional_time_json};
use crate::routes::groups::{
    admin_verdict, dissolve_group_start, hand_over_start, settings_json, settings_start,
    ChangeSettings, DissolveGroup, HandOver,
};
use crate::routes::members::{
    mute_start, mute_verdict, role_start, role_verdict, speak_start, MuteMember, SetRole, SetSpeak,
};
use crate::routes::{
    no_content, ok, GroupSettingsRequest, MuteRequest, ReplySpec, RoleRequest, SpeakRequest,
    TransferRequest,
};
use crate::store::{changed_conversation, changed_member, outcome, Store};

verus! {

/// What somebody who wants to manage a conversation is given.
pub open spec fn admin_result(store: Store, conversation_id: Id, user_id: Id) -> Result<
    ConversationWithMember,
    AppError,
> {
    match access_result(store, conversation_id, user_id) {
        Err(e) => Err(e),
        Ok(found) => admin_verdict(found),
    }
}

/// The tables with one membership changed.
pub open spec fn with_member_changed(
    store: Store,
    conversation_id: Id,
    user_id: Id,
    change: MemberChange,
) -> Store {
    Store {
        members: store.members.insert(
            (conversation_id, user_id),
            changed_member(store.members[(conversation_id, user_id)], change),
        ),
        ..store
    }
}

/// The tables with one conversation changed.
pub open spec fn with_conversation_changed(
    store: Store,
    conversation_id: Id,
    change: ConversationChange,
) -> Store {
    Store {
        conversations: store.conversations.insert(
            conversation_id,
            changed_conversation(store.conversations[conversation_id], change),
        ),
        ..store
    }
}

/// Whether an outcome, if there is one, is a refusal with the tables as they were.
pub open spec fn refused<T>(
    outcome: Option<(Store, Result<T, AppError>)>,
    store: Store,
    error: AppError,
) -> bool {
    outcome matches Some((end, result)) ==> end == store && result == Err::<T, AppError>(error)
}

/// Whether an outcome, if there is one, is an answer and the given tables.
pub open spec fn answered(
    outcome: Option<(Store, Result<ReplySpec, AppError>)>,
    store: Store,
    reply: ReplySpec,
) -> bool {
    outcome matches Some((end, result)) ==> end == store && result == Ok::<ReplySpec, AppError>(
        reply,
    )
}

/// The settings of a group are changed by those who may manage it, only where given, and nothing
/// else changes; everybody else is refused, and nothing changes.
pub proof fn law_settings_are_changed_by_managers(
    store: Store,
    conversation_id: Id,
    user_id: Id,
    input: GroupSettingsRequest,
    env: Env,
    answers: Seq<(Env, Event)>,
)
    requires
        store.keyed(),
    ensures
        ({
            let run = outcome::<ChangeSettings>(
                settings_start(user_id, conversation_id, input, env),
                store,
                answers,
            );
            let change = ConversationChange::Settings {
                only_admins_speak: input.only_admins_speak,
                notice: input.notice,
                at: answers[1].0.now,
            };
            match admin_result(store, conversation_id, user_id) {
                Err(e) => refused(run, store, e),
                Ok(found) => answered(
                    run,
                    with_conversation_changed(store, conversation_id, change),
                    ok(settings_json(changed_conversation(found.conversation, change))),
                ),
            }
        }),
{
    reveal_with_fuel(outcome, 5);
}

/// A member is muted, until the time given, by those who may manage the group, and nothing else
/// changes. An administrator cannot mute the owner. Where the request is refused, or its target is
/// no active member, nothing changes.
pub proof fn law_members_are_muted_by_managers(
    store: Store,
    conversation_id: Id,
    user_id: Id,
    target_id: Id,
    input: MuteRequest,
    answers: Seq<(Env, Event)>,
)
    ensures
        ({
            let run = outcome::<MuteMember>(
                mute_start(user_id, conversation_id, target_id, input),
                store,
                answers,
            );
            match admin_result(store, conversation_id, user_id) {
                Err(e) => refused(run, store, e),
                Ok(found) => match mute_verdict(found, target_id) {
                    Err(e) => refused(run, store, e),
                    Ok(_) => if !store.is_active(conversation_id, target_id) {
                        refused(run, store, AppError::MemberNotFound)
                    } else {
                        answered(
                            run,
                            with_member_changed(
                                store,
                                conversation_id,
                                target_id,
                                MemberChange::MutedUntil(input.muted_until),
                            ),
                            ok(
                                Json::Obj(
                                    map![
                                        "userId"@ => id_json(target_id),
                                        "mutedUntil"@ => optional_time_json(input.muted_until),
                                    ],
                                ),
                            ),
                        )
                    },
                },
            }
        }),
{
    reveal_with_fuel(outcome, 7);
}

/// Leave to speak is given and taken by those who may manage the group, and nothing else changes.
/// Where the request is refused, or its target is no active member, nothing changes.
pub proof fn law_speech_is_granted_by_managers(
    store: Store,
    conversation_id: Id,
    user_id: Id,
    target_id: Id,
    input: SpeakRequest,
    answers: Seq<(Env, Event)>,
)
    ensures
        ({
            let run = outcome::<SetSpeak>(
                speak_start(user_id, conversation_id, target_id, input),
                store,
                answers,
            );
            match admin_result(store, conversation_id, user_id) {
                Err(e) => refused(run, store, e),
                Ok(found) => if !store.is_active(conversation_id, target_id) {
                    refused(run, store, AppError::MemberNotFound)
                } else {
                    answered(
                        run,
                        with_member_changed(
                            store,
                            conversation_id,
                            target_id,
                            MemberChange::CanSpeak(input.can_speak),
                        ),
                        ok(
                            Json::Obj(
                                map![
                                    "userId"@ => id_json(target_id),
                                    "canSpeak"@ => Json::Bool(input.can_speak),
                                ],
                            ),
                        ),
                    )
                },
            }
        }),
{
    reveal_with_fuel(outcome, 6);
}

/// A member is made an administrator or an ordinary member by the owner alone, the owner keeps
/// their role, and nothing else changes. Where the request is refused, or its target is no active
/// member, nothing changes.
pub proof fn law_members_are_appointed_by_the_owner(
    store: Store,
    conversation_id: Id,
    user_id: Id,
    target_id: Id,
    input: RoleRequest,
    answers: Seq<(Env, Event)>,
)
    ensures
        ({
            let run = outcome::<SetRole>(
                role_start(user_id, conversation_id, target_id, input),
                store,
                answers,
            );
            let role = Role::of(input.role);
            match admin_result(store, conversation_id, user_id) {
                Err(e) => refused(run, store, e),
                Ok(found) => match role_verdict(found, target_id, role) {
                    Err(e) => refused(run, store, e),
                    Ok(_) => if !store.is_active(conversation_id, target_id) {
                        refused(run, store, AppError::MemberNotFound)
                    } else {
                        answered(
                            run,
                            with_member_changed(
                                store,
                                conversation_id,
                                target_id,
                                MemberChange::Role(role),
                            ),
                            ok(
                                Json::Obj(
                                    map![
                                        "userId"@ => id_json(target_id),
                                        "role"@ => Json::Str(role.spec_text()),
                                    ],
                                ),
                            ),
                        )
                    },
                },
            }
        }),
{
    reveal_with_fuel(outcome, 8);
}

/// Whether all rows of a conversation are gone, and all others are as they were.
pub open spec fn is_dissolved(end: Store, store: Store, conversation_id: Id) -> bool {
    &&& end.conversations == store.conversations.remove(conversation_id)
    &&& forall|key: (Id, Id)| #[trigger]
        end.members.contains_key(key) <==> store.members.contains_key(key) && key.0
            != conversation_id
    &&& forall|key: (Id, Id)| #[trigger]
        end.members.contains_key(key) ==> end.members[key] == store.members[key]
    &&& forall|id: Id| #[trigger]
        end.messages.contains_key(id) <==> store.messages.contains_key(id)
            && store.messages[id].conversation_id != conversation_id
    &&& forall|id: Id| #[trigger]
        end.messages.contains_key(id) ==> end.messages[id] == store.messages[id]
}

/// A group is dissolved by its owner alone: the group, its members and its messages are gone, and
/// everything else stays. Everybody else is refused, and nothing changes.
pub proof fn law_groups_are_dissolved_by_the_owner(
    store: Store,
    conversation_id: Id,
    user_id: Id,
    answers: Seq<(Env, Event)>,
)
    ensures
        ({
            let run = outcome::<DissolveGroup>(
                dissolve_group_start(user_id, conversation_id),
                store,
                answers,
            );
            match admin_result(store, conversation_id, user_id) {
                Err(e) => refused(run, store, e),
                Ok(found) => if !(found.member.role is Owner) {
                    refused(run, store, AppError::OwnerOnlyDissolve)
                } else {
                    run matches Some((end, result)) ==> result == Ok::<ReplySpec, AppError>(
                        no_content(),
                    ) && is_dissolved(end, store, conversation_id)
                },
            }
        }),
{
    reveal_with_fuel(outcome, 9);
}

/// How handing a group over ends, by what its owner column says: the tables, and the new owner or
/// the error.
pub open spec fn handed_over(
    store: Store,
    conversation_id: Id,
    new_owner: Id,
    now: Timestamp,
) -> (Store, Result<Id, AppError>) {
    let demoted = match store.conversations[conversation_id].owner_id {
        Some(old_owner) => with_member_changed(
            store,
            conversation_id,
            old_owner,
            MemberChange::Role(Role::Admin),
        ),
        None => store,
    };
    match store.conversations[conversation_id].owner_id {
        Some(old_owner) => if old_owner == new_owner {
            (store, Ok(new_owner))
        } else if !store.is_active(conversation_id, old_owner) {
            (store, Err(AppError::MemberNotFound))
        } else if !store.is_active(conversation_id, new_owner) {
            (demoted, Err(AppError::MemberNotFound))
        } else {
            (promoted(demoted, conversation_id, new_owner, now), Ok(new_owner))
        },
        None => if !store.is_active(conversation_id, new_owner) {
            (store, Err(AppError::MemberNotFound))
        } else {
            (promoted(store, conversation_id, new_owner, now), Ok(new_owner))
        },
    }
}

/// The tables with a new owner of a group.
pub open spec fn promoted(
    store: Store,
    conversation_id: Id,
    new_owner: Id,
    now: Timestamp,
) -> Store {
    with_conversation_changed(
        with_member_changed(store, conversation_id, new_owner, MemberChange::Role(Role::Owner)),
        conversation_id,
        ConversationChange::Owner { owner_id: new_owner, at: now },
    )
}

/// A group is handed over by its owner alone. The old owner becomes an administrator, the new one
/// the owner, and nothing else changes; where the new owner is the owner already, nothing changes.
/// The steps are not undone where a later one fails: handing a group over to somebody who is no
/// active member is refused after the old owner has become an administrator.
pub proof fn law_groups_are_handed_over_by_the_owner(
    store: Store,
    conversation_id: Id,
    user_id: Id,
    input: TransferRequest,
    env: Env,
    answers: Seq<(Env, Event)>,
)
    requires
        store.keyed(),
    ensures
        ({
            let run = outcome::<HandOver>(
                hand_over_start(user_id, conversation_id, input, env),
                store,
                answers,
            );
            let (end, result) = handed_over(
                store,
                conversation_id,
                input.user_id,
                answers[1].0.now,
            );
            match admin_result(store, conversation_id, user_id) {
                Err(e) => refused(run, store, e),
                Ok(found) => if !(found.member.role is Owner) {
                    refused(run, store, AppError::OwnerOnlyTransfer)
                } else {
                    match result {
                        Err(e) => refused(run, end, e),
                        Ok(owner_id) => answered(
                            run,
                            end,
                            ok(Json::Obj(map!["ownerId"@ => id_json(owner_id)])),
                        ),
                    }
                },
            }
        }),
{
    reveal_with_fuel(outcome, 11);
}

/// After a group was handed over, its owner column names the new owner, who has the owner's role;
/// the old owner is an administrator; and both are still members.
pub proof fn law_handing_over_swaps_the_roles(
    store: Store,
    conversation_id: Id,
    old_owner: Id,
    new_owner: Id,
    now: Timestamp,
)
    requires
        store.conversations.contains_key(conversation_id),
        store.conversations[conversation_id].owner_id == Some(old_owner),
        old_owner != new_owner,
        store.is_active(conversation_id, old_owner),
        store.is_active(conversation_id, new_owner),
    ensures
        ({
            let end = handed_over(store, conversation_id, new_owner, now).0;
            &&& end.conversations[conversation_id].owner_id == Some(new_owner)
            &&& end.is_active(conversation_id, new_owner)
            &&& end.members[(conversation_id, new_owner)].role == Role::Owner
            &&& end.is_active(conversation_id, old_owner)
            &&& end.members[(conversation_id, old_owner)].role == Role::Admin
            &&& end.messages == store.messages
            &&& forall|key: (Id, Id)|
                key != (conversation_id, old_owner) && key != (conversation_id, new_owner) ==> (
                #[trigger] end.members.contains_key(key) <==> store.members.contains_key(key))
                    && end.members[key] == store.members[key]
            &&& forall|id: Id|
                id != conversation_id ==> (#[trigger] end.conversations.contains_key(id)
                    <==> store.conversations.contains_key(id)) && end.conversations[id]
                    == store.conversations[id]
        }),
{
}

} // verus!
