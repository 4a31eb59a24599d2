//! Joining, leaving and being removed.

use vstd::prelude::*;

use crate::clock::Timestamp;
use crate::entity::conversation_member::{self, Role};
use crate::error::AppError;
use crate::flow::{Env, Event, MemberChange};
use crate::guarantees::access::access_result;
use crate::guarantees::groups::{answered, refused, with_member_changed};
use crate::ids::Id;
use crate::repo::membership::{join_start, new_member, Join};
use crate::routes::members::{
    add_members_start, invite_verdict, remove_member_start, AddMembers, RemoveMember,
};
use crate::routes::{no_content, AddMembersRequest};
use crate::store::{outcome, Store};

verus! {

/// The tables after a user joined a conversation.
pub open spec fn joined(
    store: Store,
    conversation_id: Id,
    user_id: Id,
    role: Role,
    now: Timestamp,
) -> Store {
    if store.members.contains_key((conversation_id, user_id)) {
        with_member_changed(store, conversation_id, user_id, MemberChange::Rejoin(role))
    } else {
        Store {
            members: store.members.insert(
                (conversation_id, user_id),
                new_member(conversation_id, user_id, role, now),
            ),
            ..store
        }
    }
}

/// The tables after users joined a conversation as ordinary members, one after the other.
pub open spec fn all_joined(
    store: Store,
    conversation_id: Id,
    users: Seq<Id>,
    now: Timestamp,
) -> Store
    decreases users.len(),
{
    if users.len() == 0 {
        store
    } else {
        all_joined(
            joined(store, conversation_id, users[0], Role::Member, now),
            conversation_id,
            users.drop_first(),
            now,
        )
    }
}

/// Joining makes a user a member, in the role given; the result is the membership.
pub proof fn law_joining_adds_one_member(
    store: Store,
    conversation_id: Id,
    user_id: Id,
    role: Role,
    now: Timestamp,
    answers: Seq<(Env, Event)>,
)
    ensures
        outcome::<Join>(join_start(conversation_id, user_id, role, now), store, answers) matches
            Some((end, result)) ==> end == joined(store, conversation_id, user_id, role, now)
            && result == Ok::<conversation_member::Model, AppError>(
            end.members[(conversation_id, user_id)],
        ),
{
    reveal_with_fuel(outcome, 4);
}

/// Joining always comes to an end.
pub proof fn law_joining_comes_to_an_end(
    store: Store,
    conversation_id: Id,
    user_id: Id,
    role: Role,
    now: Timestamp,
    env: Env,
)
    ensures
        exists|answers: Seq<(Env, Event)>| #[trigger]
            outcome::<Join>(
                join_start(conversation_id, user_id, role, now),
                store,
                answers,
            ) is Some,
{
    reveal_with_fuel(outcome, 4);
    let key = (conversation_id, user_id);
    let found = if store.members.contains_key(key) {
        Some(store.members[key])
    } else {
        None
    };
    let end = joined(store, conversation_id, user_id, role, now);
    let answers = seq![
        (env, Event::Member(found)),
        (env, Event::Member(Some(end.members[key]))),
    ];
    assert(answers.drop_first()[0] == answers[1]);
    assert(outcome::<Join>(
        join_start(conversation_id, user_id, role, now),
        store,
        answers,
    ) is Some);
}

/// Somebody who joined is an active member in the role given. Joining again changes nothing, and
/// somebody who was a member before keeps their read mark and everything else. Nobody else is
/// affected.
pub proof fn law_joining_is_idempotent(
    store: Store,
    conversation_id: Id,
    user_id: Id,
    role: Role,
    now: Timestamp,
    later: Timestamp,
)
    ensures
        ({
            let key = (conversation_id, user_id);
            let end = joined(store, conversation_id, user_id, role, now);
            &&& end.is_active(conversation_id, user_id)
            &&& end.members[key].role == role
            &&& joined(end, conversation_id, user_id, role, later) == end
            &&& store.members.contains_key(key) ==> end.members[key] == (
            conversation_member::Model { role, left_at: None, ..store.members[key] })
            &&& !store.members.contains_key(key) ==> end.members[key].last_read_seq == 0
            &&& end.conversations == store.conversations
            &&& end.messages == store.messages
            &&& forall|other: (Id, Id)|
                other != key ==> (#[trigger] end.members.contains_key(other)
                    <==> store.members.contains_key(other)) && end.members[other]
                    == store.members[other]
        }),
{
    let end = joined(store, conversation_id, user_id, role, now);
    assert(joined(end, conversation_id, user_id, role, later).members =~= end.members);
}

/// The tables after a membership ended; nothing changes where it is not active.
pub open spec fn left(store: Store, conversation_id: Id, user_id: Id, now: Timestamp) -> Store {
    if store.is_active(conversation_id, user_id) {
        Store {
            members: store.members.insert(
                (conversation_id, user_id),
                conversation_member::Model {
                    left_at: Some(now),
                    ..store.members[(conversation_id, user_id)]
                },
            ),
            ..store
        }
    } else {
        store
    }
}

/// Everybody may leave, and those who may manage a conversation may remove others; the membership
/// ends and nothing else changes. Everybody else is refused, and nothing changes.
pub proof fn law_members_leave_or_are_removed_by_managers(
    store: Store,
    conversation_id: Id,
    user_id: Id,
    target_id: Id,
    env: Env,
    answers: Seq<(Env, Event)>,
)
    ensures
        ({
            let run = outcome::<RemoveMember>(
                remove_member_start(user_id, conversation_id, target_id, env),
                store,
                answers,
            );
            match access_result(store, conversation_id, user_id) {
                Err(e) => refused(run, store, e),
                Ok(found) => if user_id != target_id && !found.member.role.spec_manages() {
                    refused(run, store, AppError::RemoveForbidden)
                } else {
                    answered(
                        run,
                        left(store, conversation_id, target_id, answers[1].0.now),
                        no_content(),
                    )
                },
            }
        }),
{
    reveal_with_fuel(outcome, 5);
}

/// Somebody whose membership ended is refused the conversation. Nobody else is affected.
pub proof fn law_removed_members_lose_access(
    store: Store,
    conversation_id: Id,
    user_id: Id,
    now: Timestamp,
)
    ensures
        ({
            let end = left(store, conversation_id, user_id, now);
            &&& !end.is_active(conversation_id, user_id)
            &&& access_result(end, conversation_id, user_id) is Err
            &&& forall|other: (Id, Id)|
                other != (conversation_id, user_id) ==> (#[trigger] end.members.contains_key(other)
                    <==> store.members.contains_key(other)) && end.members[other]
                    == store.members[other]
        }),
{
}

proof fn lemma_adding(
    store: Store,
    conversation_id: Id,
    user_ids: Vec<Id>,
    from: int,
    now: Timestamp,
    answers: Seq<(Env, Event)>,
)
    requires
        0 <= from <= user_ids@.len(),
    ensures
        answered(
            outcome::<AddMembers>(
                AddMembers::add_next(conversation_id, user_ids, from, now),
                store,
                answers,
            ),
            all_joined(store, conversation_id, user_ids@.skip(from), now),
            AddMembers::added(user_ids@.len() as int),
        ),
    decreases user_ids@.len() - from,
{
    reveal_with_fuel(outcome, 3);
    assert(user_ids.len() == user_ids@.len());
    if from < user_ids@.len() {
        let rest = user_ids@.skip(from);
        assert(rest[0] == user_ids@[from]);
        assert(rest.drop_first() == user_ids@.skip(from + 1));
        let next = joined(store, conversation_id, user_ids@[from], Role::Member, now);
        lemma_adding(
            next,
            conversation_id,
            user_ids,
            from + 1,
            now,
            answers.drop_first().drop_first(),
        );
    }
}

/// Members are invited to groups only, and by those who may manage them: everybody named is a
/// member afterwards, and nothing else changes. Everybody else is refused, and nothing changes.
pub proof fn law_members_are_invited_by_managers(
    store: Store,
    conversation_id: Id,
    user_id: Id,
    input: AddMembersRequest,
    env: Env,
    answers: Seq<(Env, Event)>,
)
    ensures
        ({
            let run = outcome::<AddMembers>(
                add_members_start(user_id, conversation_id, input, env),
                store,
                answers,
            );
            match access_result(store, conversation_id, user_id) {
                Err(e) => refused(run, store, e),
                Ok(found) => match invite_verdict(found) {
                    Err(e) => refused(run, store, e),
                    Ok(_) => answered(
                        run,
                        all_joined(
                            store,
                            conversation_id,
                            input.user_ids@,
                            answers[1].0.now,
                        ),
                        AddMembers::added(input.user_ids@.len() as int),
                    ),
                },
            }
        }),
{
    reveal_with_fuel(outcome, 3);
    assert(input.user_ids@.skip(0) == input.user_ids@);
    if access_result(store, conversation_id, user_id) is Ok {
        lemma_adding(
            store,
            conversation_id,
            input.user_ids,
            0,
            answers[1].0.now,
            answers.drop_first().drop_first(),
        );
    }
}

/// Everybody who was invited is an active and ordinary member afterwards; everybody else's
/// membership stays as it is; nobody's read mark moves; and no other conversation is affected.
pub proof fn law_inviting_affects_the_invited_only(
    store: Store,
    conversation_id: Id,
    users: Seq<Id>,
    now: Timestamp,
)
    ensures
        ({
            let end = all_joined(store, conversation_id, users, now);
            &&& forall|user_id: Id|
                users.contains(user_id) ==> #[trigger] end.is_active(conversation_id, user_id)
                    && end.members[(conversation_id, user_id)].role == Role::Member
            &&& forall|key: (Id, Id)|
                !(key.0 == conversation_id && users.contains(key.1)) ==> (
                #[trigger] end.members.contains_key(key) <==> store.members.contains_key(key))
                    && end.members[key] == store.members[key]
            &&& forall|key: (Id, Id)| #[trigger]
                store.members.contains_key(key) ==> end.members.contains_key(key)
                    && end.members[key].last_read_seq == store.members[key].last_read_seq
            &&& end.conversations == store.conversations
            &&& end.messages == store.messages
        }),
    decreases users.len(),
{
    if users.len() > 0 {
        let next = joined(store, conversation_id, users[0], Role::Member, now);
        law_inviting_affects_the_invited_only(next, conversation_id, users.drop_first(), now);
        let end = all_joined(store, conversation_id, users, now);
        assert forall|user_id: Id| users.contains(user_id) implies #[trigger] end.is_active(
            conversation_id,
            user_id,
        ) && end.members[(conversation_id, user_id)].role == Role::Member by {
            if !users.drop_first().contains(user_id) {
                assert(user_id == users[0]) by {
                    let i = choose|i: int| 0 <= i < users.len() && users[i] == user_id;
                    if i > 0 {
                        assert(users.drop_first()[i - 1] == user_id);
                    }
                }
                assert(next.is_active(conversation_id, user_id));
                assert(end.members.contains_key((conversation_id, user_id)));
            }
        }
        assert forall|key: (Id, Id)| !(key.0 == conversation_id && users.contains(key.1)) implies (
        #[trigger] end.members.contains_key(key) <==> store.members.contains_key(key))
            && end.members[key] == store.members[key] by {
            assert(users.contains(users[0]));
            if key.0 == conversation_id {
                assert(!users.drop_first().contains(key.1)) by {
                    if users.drop_first().contains(key.1) {
                        let i = choose|i: int|
                            0 <= i < users.drop_first().len() && users.drop_first()[i] == key.1;
                        assert(users[i + 1] == key.1);
                    }
                }
            }
            assert(next.members.contains_key(key) <==> store.members.contains_key(key));
        }
        assert forall|key: (Id, Id)| #[trigger] store.members.contains_key(key) implies
            end.members.contains_key(key) && end.members[key].last_read_seq
            == store.members[key].last_read_seq by {
            assert(next.members.contains_key(key));
        }
    }
}

} // verus!
