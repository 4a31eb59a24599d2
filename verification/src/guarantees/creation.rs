//! Creating conversations.

use vstd::prelude::*;

use crate::clock::Timestamp;
use crate::entity::conversation::{self, TYPE_DIRECT, TYPE_GROUP};
use crate::entity::conversation_member::{self, Role};
use crate::entity::message;
use crate::error::AppError;
use crate::flow::{ActionOf, ActionSpec, Env, Event, Flow, Step};
use crate::guarantees::groups::refused;
use crate::guarantees::membership::{all_joined, joined, law_inviting_affects_the_invited_only};
use crate::ids::Id;
use crate::repo::creation::{
    conversations_of, direct_start, first_with_id, group_start, ids_of, new_direct, new_group,
    next_invitee, CreateDirect, CreateGroup,
};
use crate::repo::ConversationWithMember;
use crate::routes::conversations::{
    create_conversation_start, seen_by_member, CreateConversation,
};
use crate::routes::dto::is_other;
use crate::routes::{created_or_ok, ReplySpec};
use crate::store::{in_conversation, of_user, outcome, Store};

verus! {

/// Whether a conversation is a direct one that both users are active members of.
pub open spec fn is_direct_between(store: Store, row: conversation::Model, a: Id, b: Id) -> bool {
    store.has_conversation(row) && row.kind is Direct && store.is_active(row.id, a)
        && store.is_active(row.id, b)
}

/// Whether two users share a direct conversation.
pub open spec fn share_direct(store: Store, a: Id, b: Id) -> bool {
    exists|row: conversation::Model| #[trigger] is_direct_between(store, row, a, b)
}

/// Every membership belongs to a conversation.
pub open spec fn members_are_placed(store: Store) -> bool {
    forall|key: (Id, Id)| #[trigger]
        store.members.contains_key(key) ==> store.conversations.contains_key(key.0)
}

/// Two users share one direct conversation at most.
pub open spec fn one_direct_per_pair(store: Store) -> bool {
    forall|r: conversation::Model, s: conversation::Model, a: Id, b: Id| #[trigger]
        is_direct_between(store, r, a, b) && #[trigger] is_direct_between(store, s, a, b) && a != b
            ==> r == s
}

/// The tables with a new conversation.
pub open spec fn with_conversation(store: Store, row: conversation::Model) -> Store {
    Store { conversations: store.conversations.insert(row.id, row), ..store }
}

/// The tables after a direct conversation was created.
pub open spec fn direct_created(
    store: Store,
    row: conversation::Model,
    self_id: Id,
    other_id: Id,
    now: Timestamp,
) -> Store {
    joined(
        joined(with_conversation(store, row), row.id, self_id, Role::Member, now),
        row.id,
        other_id,
        Role::Member,
        now,
    )
}

/// What creating a direct conversation ends with: the one there is, or a new one.
pub open spec fn direct_result(
    store: Store,
    self_id: Id,
    other_id: Id,
    now: Timestamp,
    end: Store,
    result: Result<(conversation::Model, bool), AppError>,
) -> bool {
    if share_direct(store, self_id, other_id) {
        &&& end == store
        &&& result matches Ok((row, created)) && !created && is_direct_between(
            store,
            row,
            self_id,
            other_id,
        )
    } else {
        &&& result matches Ok((row, created)) && created && row == new_direct(row.id, now)
            && !store.conversations.contains_key(row.id) && end == direct_created(
            store,
            row,
            self_id,
            other_id,
            now,
        )
    }
}

proof fn lemma_first_with_id(rows: Seq<conversation::Model>, row: conversation::Model)
    requires
        rows.contains(row),
    ensures
        first_with_id(rows, row.id) matches Some(found) && rows.contains(found) && found.id
            == row.id,
    decreases rows.len(),
{
    if rows[0].id != row.id {
        let i = choose|i: int| 0 <= i < rows.len() && rows[i] == row;
        assert(rows.drop_first()[i - 1] == row);
        lemma_first_with_id(rows.drop_first(), row);
        let found = first_with_id(rows.drop_first(), row.id)->0;
        let j = choose|j: int| 0 <= j < rows.drop_first().len() && rows.drop_first()[j] == found;
        assert(rows[j + 1] == found);
    }
}

proof fn lemma_direct_is_created(
    store: Store,
    self_id: Id,
    other_id: Id,
    now: Timestamp,
    fresh_id: Id,
    answers: Seq<(Env, Event)>,
)
    requires
        !share_direct(store, self_id, other_id),
    ensures
        outcome::<CreateDirect>(
            CreateDirect::create(self_id, other_id, now, fresh_id),
            store,
            answers,
        ) matches Some((end, result)) ==> direct_result(
            store,
            self_id,
            other_id,
            now,
            end,
            result,
        ),
{
    reveal_with_fuel(outcome, 7);
}

/// Creating a direct conversation with oneself is refused at once.
pub proof fn law_nobody_chats_with_themselves(user_id: Id, now: Timestamp)
    ensures
        direct_start(user_id, user_id, now) == Step::<
            CreateDirect,
            ActionSpec,
            (conversation::Model, bool),
        >::Done(Err(AppError::SelfChat)),
{
}

/// Creating a direct conversation finds the one that both users share, and then changes nothing;
/// where there is none, a new one is created with just the two of them.
pub proof fn law_direct_conversations_are_found_or_created(
    store: Store,
    self_id: Id,
    other_id: Id,
    now: Timestamp,
    answers: Seq<(Env, Event)>,
)
    requires
        store.keyed(),
        self_id != other_id,
    ensures
        outcome::<CreateDirect>(direct_start(self_id, other_id, now), store, answers) matches Some(
            (end, result),
        ) ==> direct_result(store, self_id, other_id, now, end, result),
{
    reveal_with_fuel(outcome, 3);
    let start = direct_start(self_id, other_id, now);
    if outcome::<CreateDirect>(start, store, answers) is Some {
        let (env0, event0) = answers[0];
        let rest0 = answers.drop_first();
        let rows0 = event0->Members_0@;
        assert(store.admits(ActionOf::MembershipsOf { user_id: self_id }, event0));
        let mine = conversations_of(rows0);
        assert forall|row: conversation::Model| is_direct_between(store, row, self_id, other_id)
            implies #[trigger] mine.contains(row.id) by {
            let member = store.members[(row.id, self_id)];
            assert(store.has_active(member));
            assert(rows0.contains(member));
            let i = choose|i: int| 0 <= i < rows0.len() && rows0[i] == member;
            assert(mine[i] == row.id);
        }
        if rows0.len() == 0 {
            assert(!share_direct(store, self_id, other_id)) by {
                if share_direct(store, self_id, other_id) {
                    let row = choose|row: conversation::Model| #[trigger]
                        is_direct_between(store, row, self_id, other_id);
                    assert(mine.contains(row.id));
                }
            }
            lemma_direct_is_created(store, self_id, other_id, now, env0.fresh_id, rest0);
        } else {
            let (env1, event1) = rest0[0];
            let rest1 = rest0.drop_first();
            let candidates = event1->Conversations_0;
            assert(store.admits(ActionOf::DirectAmong { conversation_ids: mine }, event1));
            assert forall|row: conversation::Model|
                is_direct_between(
                    store,
                    row,
                    self_id,
                    other_id,
                ) implies #[trigger] candidates@.contains(row) by {
                assert(mine.contains(row.id));
                assert(store.has_conversation(row));
            }
            if candidates@.len() == 0 {
                assert(!share_direct(store, self_id, other_id)) by {
                    if share_direct(store, self_id, other_id) {
                        let row = choose|row: conversation::Model| #[trigger]
                            is_direct_between(store, row, self_id, other_id);
                        assert(candidates@.contains(row));
                    }
                }
                lemma_direct_is_created(store, self_id, other_id, now, env1.fresh_id, rest1);
            } else {
                lemma_peer_step(
                    store,
                    self_id,
                    other_id,
                    now,
                    mine,
                    rows0,
                    candidates,
                    rest1,
                );
            }
        }
    }
}

proof fn lemma_created_id(
    store: Store,
    self_id: Id,
    other_id: Id,
    now: Timestamp,
    fresh_id: Id,
    answers: Seq<(Env, Event)>,
)
    ensures
        outcome::<CreateDirect>(
            CreateDirect::create(self_id, other_id, now, fresh_id),
            store,
            answers,
        ) matches Some((_, result)) ==> (result matches Ok((row, created)) && created && row.id
            == fresh_id),
{
    reveal_with_fuel(outcome, 7);
}

/// A new direct conversation has an identifier that was fresh when the last lookup for a shared
/// one had come to nothing.
pub proof fn law_new_direct_conversations_have_fresh_identifiers(
    store: Store,
    self_id: Id,
    other_id: Id,
    now: Timestamp,
    answers: Seq<(Env, Event)>,
)
    ensures
        outcome::<CreateDirect>(direct_start(self_id, other_id, now), store, answers) matches Some(
            (_, Ok((row, created))),
        ) ==> (created ==> row.id == answers[0].0.fresh_id || row.id == answers[1].0.fresh_id
            || row.id == answers[2].0.fresh_id),
{
    reveal_with_fuel(outcome, 4);
    let rest0 = answers.drop_first();
    let rest1 = rest0.drop_first();
    lemma_created_id(store, self_id, other_id, now, answers[0].0.fresh_id, rest0);
    lemma_created_id(store, self_id, other_id, now, rest0[0].0.fresh_id, rest1);
    lemma_created_id(store, self_id, other_id, now, rest1[0].0.fresh_id, rest1.drop_first());
}

proof fn lemma_peer_step(
    store: Store,
    self_id: Id,
    other_id: Id,
    now: Timestamp,
    mine: Seq<Id>,
    rows0: Seq<conversation_member::Model>,
    candidates: Vec<conversation::Model>,
    answers: Seq<(Env, Event)>,
)
    requires
        store.keyed(),
        self_id != other_id,
        mine == conversations_of(rows0),
        store.lists_members(rows0, of_user(self_id)),
        store.admits(
            ActionOf::DirectAmong { conversation_ids: mine },
            Event::Conversations(candidates),
        ),
        forall|row: conversation::Model|
            is_direct_between(store, row, self_id, other_id)
                ==> #[trigger] candidates@.contains(row),
    ensures
        outcome::<CreateDirect>(
            Step::Ask(
                CreateDirect::Peer { self_id, other_id, now, candidates },
                ActionOf::MembershipsIn {
                    conversation_ids: ids_of(candidates@),
                    user_id: other_id,
                },
            ),
            store,
            answers,
        ) matches Some((end, result)) ==> direct_result(
            store,
            self_id,
            other_id,
            now,
            end,
            result,
        ),
{
    let ids = ids_of(candidates@);
    let action = ActionOf::MembershipsIn { conversation_ids: ids, user_id: other_id };
    if answers.len() > 0 && store.admits(action, answers[0].1) {
        let (env2, event2) = answers[0];
        let rest2 = answers.drop_first();
        let rows2 = event2->Members_0@;
        assert forall|row: conversation::Model|
            is_direct_between(store, row, self_id, other_id) implies rows2.contains(
            #[trigger] store.members[(row.id, other_id)],
        ) by {
            let member = store.members[(row.id, other_id)];
            assert(candidates@.contains(row));
            let i = choose|i: int| 0 <= i < candidates@.len() && candidates@[i] == row;
            assert(ids[i] == row.id);
            assert(store.has_active(member));
        }
        if rows2.len() == 0 {
            assert(!share_direct(store, self_id, other_id)) by {
                if share_direct(store, self_id, other_id) {
                    let row = choose|row: conversation::Model| #[trigger]
                        is_direct_between(store, row, self_id, other_id);
                    assert(rows2.contains(store.members[(row.id, other_id)]));
                }
            }
            lemma_direct_is_created(store, self_id, other_id, now, env2.fresh_id, rest2);
        } else {
            let member = rows2[0];
            assert(rows2.contains(member));
            assert(store.has_active(member));
            assert(ids.contains(member.conversation_id));
            let i = choose|i: int| 0 <= i < ids.len() && ids[i] == member.conversation_id;
            lemma_first_with_id(candidates@, candidates@[i]);
            let found = first_with_id(candidates@, member.conversation_id)->0;
            assert(candidates@.contains(found));
            assert(store.has_conversation(found));
            assert(mine.contains(found.id));
            let j = choose|j: int| 0 <= j < mine.len() && mine[j] == found.id;
            assert(rows0.contains(rows0[j]));
            assert(store.has_active(rows0[j]));
            assert(is_direct_between(store, found, self_id, other_id));
            assert(outcome::<CreateDirect>(
                CreateDirect::step(
                    CreateDirect::Peer { self_id, other_id, now, candidates },
                    env2,
                    event2,
                ),
                store,
                rest2,
            ) is Some ==> rest2.len() == 0);
        }
    }
}

/// After a direct conversation was found or created, the two users share one. Where memberships
/// belong to conversations, that stays so; and where two users share one direct conversation at
/// most, that stays so too.
pub proof fn law_direct_conversations_stay_unique(
    store: Store,
    self_id: Id,
    other_id: Id,
    now: Timestamp,
    end: Store,
    result: Result<(conversation::Model, bool), AppError>,
)
    requires
        store.keyed(),
        members_are_placed(store),
        self_id != other_id,
        direct_result(store, self_id, other_id, now, end, result),
    ensures
        result is Ok,
        is_direct_between(end, result->Ok_0.0, self_id, other_id),
        is_direct_between(end, result->Ok_0.0, other_id, self_id),
        end.keyed(),
        members_are_placed(end),
        one_direct_per_pair(store) ==> one_direct_per_pair(end),
{
    if !share_direct(store, self_id, other_id) {
        let row = result->Ok_0.0;
        assert(!store.members.contains_key((row.id, self_id)));
        assert(!store.members.contains_key((row.id, other_id)));
        assert(is_direct_between(end, row, self_id, other_id));
        assert forall|m: message::Model| #[trigger] end.has_message(m) implies store.has_message(
            m,
        ) by {}
        if one_direct_per_pair(store) {
            assert forall|r: conversation::Model, s: conversation::Model, a: Id, b: Id| #[trigger]
                is_direct_between(end, r, a, b) && #[trigger] is_direct_between(end, s, a, b) && a
                    != b implies r == s by {
                assert forall|x: conversation::Model|
                    x.id != row.id && #[trigger] is_direct_between(
                        end,
                        x,
                        a,
                        b,
                    ) implies is_direct_between(store, x, a, b) by {}
                if r.id == row.id && s.id != row.id {
                    lemma_only_two(store, row, self_id, other_id, now, a);
                    lemma_only_two(store, row, self_id, other_id, now, b);
                    lemma_other_order(store, s, a, b, self_id, other_id);
                } else if s.id == row.id && r.id != row.id {
                    lemma_only_two(store, row, self_id, other_id, now, a);
                    lemma_only_two(store, row, self_id, other_id, now, b);
                    lemma_other_order(store, r, a, b, self_id, other_id);
                }
            }
        }
    }
}

proof fn lemma_only_two(
    store: Store,
    row: conversation::Model,
    self_id: Id,
    other_id: Id,
    now: Timestamp,
    user_id: Id,
)
    requires
        members_are_placed(store),
        !store.conversations.contains_key(row.id),
        direct_created(store, row, self_id, other_id, now).is_active(row.id, user_id),
    ensures
        user_id == self_id || user_id == other_id,
{
    assert(!store.members.contains_key((row.id, user_id)));
}

proof fn lemma_other_order(
    store: Store,
    row: conversation::Model,
    a: Id,
    b: Id,
    self_id: Id,
    other_id: Id,
)
    requires
        is_direct_between(store, row, a, b),
        a != b,
        a == self_id || a == other_id,
        b == self_id || b == other_id,
    ensures
        share_direct(store, self_id, other_id),
{
    assert(is_direct_between(store, row, self_id, other_id));
}

/// Creating a direct conversation again, by either of the two users, finds the conversation that
/// the first creation ended with, and changes nothing.
pub proof fn law_direct_creation_is_idempotent(
    store: Store,
    self_id: Id,
    other_id: Id,
    now: Timestamp,
    answers: Seq<(Env, Event)>,
    by_the_other: bool,
    later: Timestamp,
    answers_later: Seq<(Env, Event)>,
)
    requires
        store.keyed(),
        members_are_placed(store),
        one_direct_per_pair(store),
        self_id != other_id,
        outcome::<CreateDirect>(direct_start(self_id, other_id, now), store, answers) is Some,
    ensures
        ({
            let (end, result) = outcome::<CreateDirect>(
                direct_start(self_id, other_id, now),
                store,
                answers,
            )->0;
            let (first, second) = if by_the_other {
                (other_id, self_id)
            } else {
                (self_id, other_id)
            };
            &&& result is Ok
            &&& outcome::<CreateDirect>(
                direct_start(first, second, later),
                end,
                answers_later,
            ) matches Some((end_later, result_later)) ==> end_later == end && result_later == Ok::<
                (conversation::Model, bool),
                AppError,
            >((result->Ok_0.0, false))
        }),
{
    law_direct_conversations_are_found_or_created(store, self_id, other_id, now, answers);
    let (end, result) = outcome::<CreateDirect>(
        direct_start(self_id, other_id, now),
        store,
        answers,
    )->0;
    law_direct_conversations_stay_unique(store, self_id, other_id, now, end, result);
    let (first, second) = if by_the_other {
        (other_id, self_id)
    } else {
        (self_id, other_id)
    };
    assert(is_direct_between(end, result->Ok_0.0, first, second));
    law_direct_conversations_are_found_or_created(end, first, second, later, answers_later);
}

/// The tables after a group was created.
pub open spec fn group_created(
    store: Store,
    row: conversation::Model,
    owner_id: Id,
    member_ids: Seq<Id>,
    now: Timestamp,
) -> Store {
    all_joined(
        joined(with_conversation(store, row), row.id, owner_id, Role::Owner, now),
        row.id,
        member_ids.filter(is_other(owner_id)),
        now,
    )
}

pub(crate) proof fn lemma_filter_from(ids: Seq<Id>, owner_id: Id, from: int)
    requires
        0 <= from <= ids.len(),
    ensures
        ({
            let i = next_invitee(ids, owner_id, from);
            &&& from <= i <= ids.len()
            &&& i < ids.len() ==> ids.skip(from).filter(is_other(owner_id)) == seq![ids[i]]
                + ids.skip(i + 1).filter(is_other(owner_id)) && ids[i] != owner_id
            &&& i == ids.len() ==> ids.skip(from).filter(is_other(owner_id)) == Seq::<Id>::empty()
        }),
    decreases ids.len() - from,
{
    let other = is_other(owner_id);
    if from < ids.len() {
        assert(ids.skip(from) == seq![ids[from]] + ids.skip(from + 1));
        Seq::filter_distributes_over_add(seq![ids[from]], ids.skip(from + 1), other);
        assert(seq![ids[from]] == Seq::<Id>::empty().push(ids[from]));
        Seq::<Id>::empty().lemma_filter_push(ids[from], other);
        assert(Seq::<Id>::empty().filter(other) == Seq::<Id>::empty()) by {
            reveal(Seq::filter);
        }
        if ids[from] == owner_id {
            lemma_filter_from(ids, owner_id, from + 1);
            assert(ids.skip(from).filter(other) == ids.skip(from + 1).filter(other));
        }
    } else {
        assert(ids.skip(from) == Seq::<Id>::empty());
        reveal(Seq::filter);
    }
}

proof fn lemma_inviting(
    store: Store,
    conversation: conversation::Model,
    owner_id: Id,
    member_ids: Vec<Id>,
    from: int,
    now: Timestamp,
    answers: Seq<(Env, Event)>,
)
    requires
        0 <= from <= member_ids@.len(),
    ensures
        outcome::<CreateGroup>(
            CreateGroup::add_next(conversation, owner_id, member_ids, from, now),
            store,
            answers,
        ) matches Some((end, result)) ==> end == all_joined(
            store,
            conversation.id,
            member_ids@.skip(from).filter(is_other(owner_id)),
            now,
        ) && result == Ok::<conversation::Model, AppError>(conversation),
    decreases member_ids@.len() - from,
{
    reveal_with_fuel(outcome, 3);
    assert(member_ids.len() == member_ids@.len());
    lemma_filter_from(member_ids@, owner_id, from);
    let i = next_invitee(member_ids@, owner_id, from);
    if i < member_ids@.len() {
        let next = joined(store, conversation.id, member_ids@[i], Role::Member, now);
        let rest = member_ids@.skip(i + 1).filter(is_other(owner_id));
        assert((seq![member_ids@[i]] + rest).drop_first() == rest);
        lemma_inviting(
            next,
            conversation,
            owner_id,
            member_ids,
            i + 1,
            now,
            answers.drop_first().drop_first(),
        );
    }
}

/// Creating a group adds the group, its owner, and everybody else who is named as an ordinary
/// member; nothing else changes.
pub proof fn law_groups_are_created(
    store: Store,
    owner_id: Id,
    member_ids: Vec<Id>,
    name: String,
    now: Timestamp,
    fresh_id: Id,
    answers: Seq<(Env, Event)>,
)
    ensures
        outcome::<CreateGroup>(
            group_start(owner_id, member_ids, name, now, fresh_id),
            store,
            answers,
        ) matches Some((end, result)) ==> end == group_created(
            store,
            new_group(fresh_id, name, owner_id, now),
            owner_id,
            member_ids@,
            now,
        ) && result == Ok::<conversation::Model, AppError>(
            new_group(fresh_id, name, owner_id, now),
        ) && !store.conversations.contains_key(fresh_id),
{
    reveal_with_fuel(outcome, 4);
    let row = new_group(fresh_id, name, owner_id, now);
    assert(member_ids@.skip(0) == member_ids@);
    lemma_inviting(
        joined(with_conversation(store, row), fresh_id, owner_id, Role::Owner, now),
        row,
        owner_id,
        member_ids,
        0,
        now,
        answers.drop_first().drop_first().drop_first(),
    );
}

/// The owner of a new group is its owner by column and by role, everybody else who is named is an
/// active and ordinary member, and nobody else is a member, where every membership belonged to a
/// conversation and the group is none of those; other conversations, their members and all
/// messages stay as they are.
pub proof fn law_new_groups_have_their_members(
    store: Store,
    row: conversation::Model,
    owner_id: Id,
    member_ids: Seq<Id>,
    now: Timestamp,
)
    ensures
        ({
            let end = group_created(store, row, owner_id, member_ids, now);
            &&& end.has_conversation(row)
            &&& end.is_active(row.id, owner_id)
            &&& end.members[(row.id, owner_id)].role == Role::Owner
            &&& forall|user_id: Id|
                member_ids.contains(user_id) && user_id != owner_id ==> #[trigger] end.is_active(
                    row.id,
                    user_id,
                ) && end.members[(row.id, user_id)].role == Role::Member
            &&& members_are_placed(store) && !store.conversations.contains_key(row.id) ==> forall|
                user_id: Id,
            | #[trigger]
                end.members.contains_key((row.id, user_id)) <==> user_id == owner_id
                    || member_ids.contains(user_id)
            &&& forall|key: (Id, Id)|
                key.0 != row.id ==> (#[trigger] end.members.contains_key(key)
                    <==> store.members.contains_key(key)) && end.members[key]
                    == store.members[key]
            &&& end.messages == store.messages
        }),
{
    let others = member_ids.filter(is_other(owner_id));
    let base = joined(with_conversation(store, row), row.id, owner_id, Role::Owner, now);
    law_inviting_affects_the_invited_only(base, row.id, others, now);
    let end = group_created(store, row, owner_id, member_ids, now);
    assert(!others.contains(owner_id)) by {
        if others.contains(owner_id) {
            let i = choose|i: int| 0 <= i < others.len() && others[i] == owner_id;
            member_ids.lemma_filter_pred(is_other(owner_id), i);
        }
    }
    assert(end.members.contains_key((row.id, owner_id)));
    assert forall|user_id: Id|
        member_ids.contains(user_id) && user_id != owner_id implies #[trigger] end.is_active(
        row.id,
        user_id,
    ) && end.members[(row.id, user_id)].role == Role::Member by {
        let i = choose|i: int| 0 <= i < member_ids.len() && member_ids[i] == user_id;
        member_ids.lemma_filter_contains(is_other(owner_id), i);
    }
    if members_are_placed(store) && !store.conversations.contains_key(row.id) {
        assert forall|user_id: Id| #[trigger]
            end.members.contains_key((row.id, user_id)) <==> user_id == owner_id
                || member_ids.contains(user_id) by {
            if member_ids.contains(user_id) && user_id != owner_id {
                assert(end.is_active(row.id, user_id));
            }
            if others.contains(user_id) {
                member_ids.lemma_filter_contains_rev(is_other(owner_id), user_id);
            } else {
                assert(end.members.contains_key((row.id, user_id)) <==> base.members.contains_key(
                    (row.id, user_id),
                ));
                assert(!store.members.contains_key((row.id, user_id)));
            }
        }
    }
    assert forall|key: (Id, Id)| key.0 != row.id implies (#[trigger] end.members.contains_key(key)
        <==> store.members.contains_key(key)) && end.members[key] == store.members[key] by {
        assert(key != (row.id, owner_id));
        assert(base.members.contains_key(key) <==> store.members.contains_key(key));
        assert(base.members[key] == store.members[key]);
        assert(all_joined(base, row.id, others, now).members.contains_key(key)
            <==> base.members.contains_key(key));
    }
}

/// What creating a conversation is answered with: the conversation as its creator sees it, without
/// a last message.
pub open spec fn is_shown_to_creator(
    end: Store,
    conversation: conversation::Model,
    user_id: Id,
    created: bool,
    result: Result<ReplySpec, AppError>,
) -> bool {
    if !end.is_active(conversation.id, user_id) {
        result == Err::<ReplySpec, AppError>(AppError::MemberRowMissing)
    } else {
        exists|members: Seq<conversation_member::Model>| #[trigger]
            end.lists_members(members, in_conversation(conversation.id)) && result
                == match seen_by_member(
                ConversationWithMember {
                    conversation,
                    member: end.members[(conversation.id, user_id)],
                },
                members,
                None,
            ) {
                Err(e) => Err::<ReplySpec, AppError>(e),
                Ok(body) => Ok(created_or_ok(created, body)),
            }
    }
}

proof fn lemma_creating_direct(
    store: Store,
    user_id: Id,
    step: Step<CreateDirect, ActionSpec, (conversation::Model, bool)>,
    answers: Seq<(Env, Event)>,
) -> (k: nat)
    ensures
        outcome::<CreateConversation>(
            CreateConversation::creating_direct(user_id, step),
            store,
            answers,
        ) matches Some((end, result)) ==> k <= answers.len() && (outcome::<CreateDirect>(
            step,
            store,
            answers.take(k as int),
        ) matches Some((end_created, created)) && end_created == end && match created {
            Err(e) => result == Err::<ReplySpec, AppError>(e),
            Ok((row, is_new)) => is_shown_to_creator(end, row, user_id, is_new, result),
        }),
    decreases answers.len(),
{
    match step {
        Step::Done(result) => {
            reveal_with_fuel(outcome, 4);
            0
        },
        Step::Ask(state, action) => {
            if answers.len() > 0 && store.admits(action, answers[0].1) {
                let rest = answers.drop_first();
                let k = lemma_creating_direct(
                    store.after(action),
                    user_id,
                    CreateDirect::step(state, answers[0].0, answers[0].1),
                    rest,
                );
                if k <= rest.len() {
                    assert(answers.take(k as int + 1).drop_first() == rest.take(k as int));
                    assert(answers.take(k as int + 1)[0] == answers[0]);
                }
                k + 1
            } else {
                0
            }
        },
    }
}

proof fn lemma_creating_group(
    store: Store,
    user_id: Id,
    step: Step<CreateGroup, ActionSpec, conversation::Model>,
    answers: Seq<(Env, Event)>,
) -> (k: nat)
    ensures
        outcome::<CreateConversation>(
            CreateConversation::creating_group(user_id, step),
            store,
            answers,
        ) matches Some((end, result)) ==> k <= answers.len() && (outcome::<CreateGroup>(
            step,
            store,
            answers.take(k as int),
        ) matches Some((end_created, created)) && end_created == end && match created {
            Err(e) => result == Err::<ReplySpec, AppError>(e),
            Ok(row) => is_shown_to_creator(end, row, user_id, true, result),
        }),
    decreases answers.len(),
{
    match step {
        Step::Done(result) => {
            reveal_with_fuel(outcome, 4);
            0
        },
        Step::Ask(state, action) => {
            if answers.len() > 0 && store.admits(action, answers[0].1) {
                let rest = answers.drop_first();
                let k = lemma_creating_group(
                    store.after(action),
                    user_id,
                    CreateGroup::step(state, answers[0].0, answers[0].1),
                    rest,
                );
                if k <= rest.len() {
                    assert(answers.take(k as int + 1).drop_first() == rest.take(k as int));
                    assert(answers.take(k as int + 1)[0] == answers[0]);
                }
                k + 1
            } else {
                0
            }
        },
    }
}

/// A request for a direct conversation is for one with the first user named, who has to be
/// somebody else. It is answered with the conversation, and with whether it is a new one.
pub proof fn law_direct_conversations_are_requested(
    store: Store,
    user_id: Id,
    member_ids: Vec<Id>,
    name: Option<String>,
    env: Env,
    answers: Seq<(Env, Event)>,
)
    requires
        store.keyed(),
    ensures
        ({
            let run = outcome::<CreateConversation>(
                create_conversation_start(user_id, TYPE_DIRECT@, member_ids, name, env),
                store,
                answers,
            );
            if member_ids@.len() == 0 {
                refused(run, store, AppError::PeerMissing)
            } else if member_ids@[0] == user_id {
                refused(run, store, AppError::SelfChat)
            } else {
                run matches Some((end, result)) ==> exists|row: conversation::Model, is_new: bool|
                    #![trigger is_shown_to_creator(end, row, user_id, is_new, result)]
                    is_shown_to_creator(end, row, user_id, is_new, result) && direct_result(
                        store,
                        user_id,
                        member_ids@[0],
                        env.now,
                        end,
                        Ok((row, is_new)),
                    )
            }
        }),
{
    if member_ids@.len() > 0 && member_ids@[0] != user_id {
        let step = direct_start(user_id, member_ids@[0], env.now);
        let k = lemma_creating_direct(store, user_id, step, answers);
        law_direct_conversations_are_found_or_created(
            store,
            user_id,
            member_ids@[0],
            env.now,
            answers.take(k as int),
        );
    }
}

/// A request for a group needs a name and somebody to invite. It is answered with the new group.
pub proof fn law_groups_are_requested(
    store: Store,
    user_id: Id,
    member_ids: Vec<Id>,
    name: Option<String>,
    env: Env,
    answers: Seq<(Env, Event)>,
)
    ensures
        ({
            let run = outcome::<CreateConversation>(
                create_conversation_start(user_id, TYPE_GROUP@, member_ids, name, env),
                store,
                answers,
            );
            let row = new_group(env.fresh_id, name->0, user_id, env.now);
            if name is None {
                refused(run, store, AppError::GroupNameMissing)
            } else if member_ids@.len() == 0 {
                refused(run, store, AppError::GroupMembersMissing)
            } else {
                run matches Some((end, result)) ==> end == group_created(
                    store,
                    row,
                    user_id,
                    member_ids@,
                    env.now,
                ) && !store.conversations.contains_key(row.id) && is_shown_to_creator(
                    end,
                    row,
                    user_id,
                    true,
                    result,
                )
            }
        }),
{
    assert(TYPE_DIRECT@ != TYPE_GROUP@) by {
        reveal_strlit("direct");
        reveal_strlit("group");
        assert(TYPE_DIRECT@.len() == 6 && TYPE_GROUP@.len() == 5);
    }
    if name is Some && member_ids@.len() > 0 {
        let step = group_start(user_id, member_ids, name->0, env.now, env.fresh_id);
        let k = lemma_creating_group(store, user_id, step, answers);
        law_groups_are_created(
            store,
            user_id,
            member_ids,
            name->0,
            env.now,
            env.fresh_id,
            answers.take(k as int),
        );
    }
}

/// A request for any other type of conversation is refused.
pub proof fn law_other_types_are_refused(
    user_id: Id,
    kind: Seq<char>,
    member_ids: Vec<Id>,
    name: Option<String>,
    env: Env,
)
    requires
        kind != TYPE_DIRECT@,
        kind != TYPE_GROUP@,
    ensures
        create_conversation_start(user_id, kind, member_ids, name, env) == Step::<
            CreateConversation,
            ActionSpec,
            ReplySpec,
        >::Done(Err(AppError::UnsupportedConversationType)),
{
}

} // verus!
