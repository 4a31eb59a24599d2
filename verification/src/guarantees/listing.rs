//! The list of a user's conversations.

use vstd::prelude::*;

use crate::entity::{conversation_member, message};
use crate::error::AppError;
use crate::flow::{ActionSpec, Env, Event, Flow, Step};
use crate::guarantees::reading::counters_are_natural;
use crate::ids::Id;
use crate::json::Json;
use crate::repo::listing::{
    latest_first, law_latest_first_is_a_stable_sort, listing_next, listing_start,
    ListConversations, ListConversationsSpec,
};
use crate::repo::ConversationWithMember;
use crate::routes::conversations::{
    list_conversations_start, looking_up, oldest, seen_by_member, show_next, Listing,
};
use crate::routes::{ok, ReplySpec};
use crate::store::{in_conversation, of_user, outcome, Store};

verus! {

/// The rows of memberships whose conversation is there, in their order.
pub open spec fn found_rows(store: Store, members: Seq<conversation_member::Model>) -> Seq<
    ConversationWithMember,
>
    decreases members.len(),
{
    if members.len() == 0 {
        seq![]
    } else {
        let rest = found_rows(store, members.drop_first());
        if store.conversations.contains_key(members[0].conversation_id) {
            seq![
                ConversationWithMember {
                    conversation: store.conversations[members[0].conversation_id],
                    member: members[0],
                },
            ] + rest
        } else {
            rest
        }
    }
}

/// Whether a row belongs to the list of a user's conversations.
pub open spec fn is_listed(store: Store, user_id: Id, row: ConversationWithMember) -> bool {
    store.has_active(row.member) && row.member.user_id == user_id
        && store.conversations.contains_key(row.member.conversation_id) && row.conversation
        == store.conversations[row.member.conversation_id]
}

/// Whether the rows are the list of a user's conversations: every one of them, each once, the
/// latest changed first.
pub open spec fn is_listing(store: Store, user_id: Id, rows: Seq<ConversationWithMember>) -> bool {
    &&& rows.no_duplicates()
    &&& forall|row: ConversationWithMember| #[trigger]
        rows.contains(row) <==> is_listed(store, user_id, row)
    &&& forall|i: int, j: int|
        0 <= i < j < rows.len() ==> rows[i].conversation.updated_at.total()
            >= rows[j].conversation.updated_at.total()
}

proof fn lemma_looking_up(
    store: Store,
    pending: Seq<conversation_member::Model>,
    rows: Seq<ConversationWithMember>,
    answers: Seq<(Env, Event)>,
)
    ensures
        outcome::<ListConversations>(listing_next(pending, rows), store, answers) matches Some(
            (end, result),
        ) ==> end == store && result == Ok::<Seq<ConversationWithMember>, AppError>(
            latest_first(rows + found_rows(store, pending)),
        ),
    decreases pending.len(),
{
    reveal_with_fuel(outcome, 2);
    if pending.len() == 0 {
        assert(rows + found_rows(store, pending) == rows);
    } else {
        let rest = pending.drop_first();
        if store.conversations.contains_key(pending[0].conversation_id) {
            let row = ConversationWithMember {
                conversation: store.conversations[pending[0].conversation_id],
                member: pending[0],
            };
            lemma_looking_up(store, rest, rows.push(row), answers.drop_first());
            assert(rows.push(row) + found_rows(store, rest) == rows + found_rows(store, pending));
        } else {
            lemma_looking_up(store, rest, rows, answers.drop_first());
        }
    }
}

proof fn lemma_found_rows(store: Store, members: Seq<conversation_member::Model>)
    requires
        members.no_duplicates(),
    ensures
        found_rows(store, members).no_duplicates(),
        forall|row: ConversationWithMember| #[trigger]
            found_rows(store, members).contains(row) <==> members.contains(row.member)
                && store.conversations.contains_key(row.member.conversation_id) && row.conversation
                == store.conversations[row.member.conversation_id],
    decreases members.len(),
{
    if members.len() > 0 {
        let tail = members.drop_first();
        let rest = found_rows(store, tail);
        let all = found_rows(store, members);
        lemma_found_rows(store, tail);
        assert(members.contains(members[0]));
        assert(!tail.contains(members[0])) by {
            if tail.contains(members[0]) {
                let i = choose|i: int| 0 <= i < tail.len() && tail[i] == members[0];
                assert(members[i + 1] == members[0]);
            }
        }
        assert forall|m: conversation_member::Model| #[trigger] members.contains(m) <==> m
            == members[0] || tail.contains(m) by {
            if members.contains(m) && m != members[0] {
                let i = choose|i: int| 0 <= i < members.len() && members[i] == m;
                assert(tail[i - 1] == m);
            }
            if tail.contains(m) {
                let i = choose|i: int| 0 <= i < tail.len() && tail[i] == m;
                assert(members[i + 1] == m);
            }
        }
        if store.conversations.contains_key(members[0].conversation_id) {
            let first = all[0];
            assert(all.drop_first() == rest);
            assert forall|row: ConversationWithMember| #[trigger] all.contains(row) <==> row
                == first || rest.contains(row) by {
                if all.contains(row) && row != first {
                    let i = choose|i: int| 0 <= i < all.len() && all[i] == row;
                    assert(rest[i - 1] == row);
                }
                if rest.contains(row) {
                    let i = choose|i: int| 0 <= i < rest.len() && rest[i] == row;
                    assert(all[i + 1] == row);
                }
                assert(all[0] == first);
            }
            assert(!rest.contains(first));
            assert(all.no_duplicates()) by {
                assert forall|i: int, j: int|
                    0 <= i < all.len() && 0 <= j < all.len() && i != j implies all[i] != all[j] by {
                    if i == 0 {
                        assert(rest[j - 1] == all[j]);
                    } else if j == 0 {
                        assert(rest[i - 1] == all[i]);
                    } else {
                        assert(rest[i - 1] == all[i] && rest[j - 1] == all[j]);
                    }
                }
            }
        }
    }
}

proof fn lemma_sorted_is_listing(
    store: Store,
    user_id: Id,
    members: Seq<conversation_member::Model>,
)
    requires
        store.lists_members(members, of_user(user_id)),
    ensures
        is_listing(store, user_id, latest_first(found_rows(store, members))),
{
    let rows = found_rows(store, members);
    let sorted = latest_first(rows);
    lemma_found_rows(store, members);
    law_latest_first_is_a_stable_sort(rows);
    rows.to_multiset_ensures();
    sorted.to_multiset_ensures();
    rows.lemma_multiset_has_no_duplicates();
    sorted.lemma_multiset_has_no_duplicates_conv();
    assert forall|row: ConversationWithMember| #[trigger] sorted.contains(row) <==> is_listed(
        store,
        user_id,
        row,
    ) by {
        assert(sorted.to_multiset().count(row) == rows.to_multiset().count(row));
        assert(members.contains(row.member) <==> store.has_active(row.member) && row.member.user_id
            == user_id);
    }
}

/// Looking up the conversations of a user gives every one that they are an active member of, each
/// once, the latest changed first; nothing changes.
pub proof fn law_all_conversations_are_listed(
    store: Store,
    user_id: Id,
    answers: Seq<(Env, Event)>,
)
    ensures
        outcome::<ListConversations>(listing_start(user_id), store, answers) matches Some(
            (end, result),
        ) ==> end == store && (result matches Ok(rows) && is_listing(store, user_id, rows)),
{
    reveal_with_fuel(outcome, 2);
    if answers.len() > 0 {
        let members = answers[0].1->Members_0@;
        lemma_looking_up(store, members, seq![], answers.drop_first());
        assert(Seq::<ConversationWithMember>::empty() + found_rows(store, members) == found_rows(
            store,
            members,
        ));
        if store.lists_members(members, of_user(user_id)) {
            lemma_sorted_is_listing(store, user_id, members);
        }
    }
}

/// Whether a document shows a row with the members of its conversation and its last message.
pub open spec fn is_shown(store: Store, row: ConversationWithMember, document: Json) -> bool {
    exists|members: Seq<conversation_member::Model>, last: Seq<message::Model>|
        #[trigger]
        store.lists_members(members, in_conversation(row.conversation.id)) && #[trigger]
        store.is_page(last, row.conversation.id, None, 1) && seen_by_member(row, members, oldest(last)) == Ok::<Json, AppError>(document)
}

/// Whether the documents show the rows, in their order.
pub open spec fn are_shown(
    store: Store,
    rows: Seq<ConversationWithMember>,
    documents: Seq<Json>,
) -> bool {
    documents.len() == rows.len() && forall|i: int|
        0 <= i < rows.len() ==> is_shown(store, rows[i], #[trigger] documents[i])
}

/// Whether the unread counts of all rows fit.
pub open spec fn unread_fits(rows: Seq<ConversationWithMember>) -> bool {
    forall|i: int|
        0 <= i < rows.len() ==> i64::MIN <= (#[trigger] rows[i]).conversation.next_seq
            - rows[i].member.last_read_seq <= i64::MAX
}

proof fn lemma_showing(
    store: Store,
    pending: Seq<ConversationWithMember>,
    items: Seq<Json>,
    answers: Seq<(Env, Event)>,
) -> (documents: Seq<Json>)
    requires
        unread_fits(pending),
    ensures
        outcome::<Listing>(show_next(pending, items), store, answers) matches Some((end, result))
            ==> end == store && are_shown(store, pending, documents) && result == Ok::<
            ReplySpec,
            AppError,
        >(ok(Json::Arr(items + documents))),
    decreases pending.len(),
{
    reveal_with_fuel(outcome, 3);
    if pending.len() == 0 {
        assert(items + Seq::<Json>::empty() == items);
        Seq::<Json>::empty()
    } else {
        let row = pending[0];
        let members = answers[0].1->Members_0;
        let last = answers.drop_first()[0].1->Messages_0;
        let seen = seen_by_member(row, members@, oldest(last@));
        let item = seen->Ok_0;
        let rest = pending.drop_first();
        assert(unread_fits(rest)) by {
            assert forall|i: int| 0 <= i < rest.len() implies i64::MIN <= (
            #[trigger] rest[i]).conversation.next_seq - rest[i].member.last_read_seq
                <= i64::MAX by {
                assert(rest[i] == pending[i + 1]);
            }
        }
        let tail = lemma_showing(
            store,
            rest,
            items.push(item),
            answers.drop_first().drop_first(),
        );
        let documents = seq![item] + tail;
        assert(items.push(item) + tail == items + documents);
        if outcome::<Listing>(show_next(pending, items), store, answers) is Some {
            assert(store.lists_members(members@, in_conversation(row.conversation.id)));
            assert(store.is_page(last@, row.conversation.id, None, 1));
            assert(is_shown(store, row, item));
            assert forall|i: int| 0 <= i < pending.len() implies is_shown(
                store,
                pending[i],
                #[trigger] documents[i],
            ) by {
                if i > 0 {
                    assert(pending[i] == rest[i - 1]);
                    assert(documents[i] == tail[i - 1]);
                }
            }
        }
        documents
    }
}

proof fn lemma_lookup_then_show(
    store: Store,
    step: Step<ListConversationsSpec, ActionSpec, Seq<ConversationWithMember>>,
    answers: Seq<(Env, Event)>,
) -> (k: nat)
    ensures
        outcome::<Listing>(looking_up(step), store, answers) matches Some((end, result)) ==> k
            <= answers.len() && (outcome::<ListConversations>(
            step,
            store,
            answers.take(k as int),
        ) matches Some((found_end, found)) && match found {
            Err(e) => end == found_end && result == Err::<ReplySpec, AppError>(e),
            Ok(rows) => outcome::<Listing>(
                show_next(rows, seq![]),
                found_end,
                answers.skip(k as int),
            ) == Some((end, result)),
        }),
    decreases answers.len(),
{
    match step {
        Step::Done(result) => {
            assert(answers.skip(0) == answers);
            0
        },
        Step::Ask(state, action) => {
            if answers.len() > 0 && store.admits(action, answers[0].1) {
                let rest = answers.drop_first();
                let k = lemma_lookup_then_show(
                    store.after(action),
                    ListConversations::step(state, answers[0].0, answers[0].1),
                    rest,
                );
                if k <= rest.len() {
                    assert(answers.take(k as int + 1).drop_first() == rest.take(k as int));
                    assert(answers.take(k as int + 1)[0] == answers[0]);
                    assert(answers.skip(k as int + 1) == rest.skip(k as int));
                }
                k + 1
            } else {
                0
            }
        },
    }
}

/// A user is shown every conversation they are an active member of, each once, the latest changed
/// first, with its members, its last message and what is unread; nothing changes.
pub proof fn law_all_conversations_are_shown(
    store: Store,
    user_id: Id,
    answers: Seq<(Env, Event)>,
)
    requires
        counters_are_natural(store),
    ensures
        outcome::<Listing>(list_conversations_start(user_id), store, answers) matches Some(
            (end, result),
        ) ==> end == store && exists|rows: Seq<ConversationWithMember>, documents: Seq<Json>|
            #![trigger is_listing(store, user_id, rows), are_shown(store, rows, documents)]
            is_listing(store, user_id, rows) && are_shown(store, rows, documents) && result == Ok::<
                ReplySpec,
                AppError,
            >(ok(Json::Arr(documents))),
{
    let start = listing_start(user_id);
    let k = lemma_lookup_then_show(store, start, answers);
    if outcome::<Listing>(list_conversations_start(user_id), store, answers) is Some {
        let looked_up = answers.take(k as int);
        law_all_conversations_are_listed(store, user_id, looked_up);
        let (_, found) = outcome::<ListConversations>(start, store, looked_up)->0;
        let rows = found->Ok_0;
        assert(unread_fits(rows)) by {
            assert forall|i: int| 0 <= i < rows.len() implies i64::MIN <= (
            #[trigger] rows[i]).conversation.next_seq - rows[i].member.last_read_seq
                <= i64::MAX by {
                assert(rows.contains(rows[i]));
                assert(store.members.contains_key(
                    (rows[i].member.conversation_id, rows[i].member.user_id),
                ));
            }
        }
        let documents = lemma_showing(store, rows, seq![], answers.skip(k as int));
        assert(Seq::<Json>::empty() + documents == documents);
    }
}

} // verus!
