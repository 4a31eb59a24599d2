//! Reading: history, read marks, unread counts and receipts.

use vstd::prelude::*;

use crate::domain::unread;
use crate::entity::{conversation_member, message};
use crate::error::AppError;
use crate::flow::{Env, Event, MemberChange};
use crate::guarantees::access::access_result;
use crate::guarantees::groups::{answered, refused, with_member_changed};
use crate::ids::Id;
use crate::json::Json;
use crate::realtime::commands::CommandOf;
use crate::realtime::dialogue::{dialogue_start, Dialogue};
use crate::repo::ConversationWithMember;
use crate::routes::conversations::seen_by_member;
use crate::routes::dto::{members_json, messages_json};
use crate::routes::members::{list_members_start, ListMembers};
use crate::routes::messages::{
    list_messages_start, mark_read_start, message_receipts_start, page_size, ListMessages, MarkRead,
    MessageReceipts,
};
use crate::routes::{ok, MessageQuery, ReadRequest, ReplySpec};
use crate::service::receipts_json;
use crate::store::{in_conversation, outcome, Store};

verus! {

/// The tables after somebody read up to a sequence number: the mark moves forward, never back.
pub open spec fn read_up_to(store: Store, conversation_id: Id, user_id: Id, seq: i64) -> Store {
    if seq <= store.members[(conversation_id, user_id)].last_read_seq {
        store
    } else {
        with_member_changed(store, conversation_id, user_id, MemberChange::LastRead(seq))
    }
}

/// A member moves their own read mark, forward only; the answer is where it stands. Nothing else
/// changes.
pub proof fn law_read_marks_move_forward(
    store: Store,
    conversation_id: Id,
    user_id: Id,
    input: ReadRequest,
    answers: Seq<(Env, Event)>,
)
    ensures
        ({
            let run = outcome::<MarkRead>(
                mark_read_start(user_id, conversation_id, input),
                store,
                answers,
            );
            let end = read_up_to(store, conversation_id, user_id, input.seq);
            let mark = end.members[(conversation_id, user_id)].last_read_seq;
            if !store.is_active(conversation_id, user_id) {
                refused(run, store, AppError::NotMember)
            } else {
                answered(run, end, ok(Json::Obj(map!["lastReadSeq"@ => Json::Int(mark as int)])))
            }
        }),
{
    reveal_with_fuel(outcome, 4);
}

/// A client that moves its read mark over a connection is never answered; the mark moves as for
/// any other request, and nothing changes for somebody who is no member.
pub proof fn law_read_marks_move_without_an_answer(
    store: Store,
    user_id: Id,
    conversation_id: Id,
    seq: i64,
    env: Env,
    answers: Seq<(Env, Event)>,
)
    ensures
        outcome::<Dialogue>(
            dialogue_start(user_id, CommandOf::Read { conversation_id, seq }, env),
            store,
            answers,
        ) matches Some((end, result)) ==> result == Ok::<Option<Seq<char>>, AppError>(None) && end
            == if store.is_active(conversation_id, user_id) {
            read_up_to(store, conversation_id, user_id, seq)
        } else {
            store
        },
{
    reveal_with_fuel(outcome, 6);
}

/// A note on typing changes nothing in the tables, and is never answered.
pub proof fn law_typing_leaves_no_trace(
    store: Store,
    user_id: Id,
    conversation_id: Id,
    started: bool,
    env: Env,
    answers: Seq<(Env, Event)>,
)
    ensures
        outcome::<Dialogue>(
            dialogue_start(user_id, CommandOf::Typing { conversation_id, started }, env),
            store,
            answers,
        ) matches Some((end, result)) ==> result == Ok::<Option<Seq<char>>, AppError>(None) && end
            == store,
{
    reveal_with_fuel(outcome, 4);
}

/// Reading moves the mark to the greater of where it stood and where it was asked to go. Nothing
/// is unread after reading up to the last message, and reading never adds to what is unread.
pub proof fn law_reading_lowers_the_unread_count(
    store: Store,
    conversation_id: Id,
    user_id: Id,
    seq: i64,
)
    requires
        store.is_active(conversation_id, user_id),
    ensures
        ({
            let key = (conversation_id, user_id);
            let before = store.members[key].last_read_seq;
            let end = read_up_to(store, conversation_id, user_id, seq);
            let after = end.members[key].last_read_seq;
            let next_seq = end.conversations[conversation_id].next_seq;
            &&& after == if seq > before {
                seq
            } else {
                before
            }
            &&& after >= before
            &&& end.conversations == store.conversations
            &&& unread(next_seq, after) <= unread(next_seq, before)
            &&& seq >= next_seq ==> unread(next_seq, after) == 0
            &&& forall|other: (Id, Id)|
                other != key ==> (#[trigger] end.members.contains_key(other)
                    <==> store.members.contains_key(other)) && end.members[other]
                    == store.members[other]
        }),
{
}

/// No counter is negative.
pub open spec fn counters_are_natural(store: Store) -> bool {
    &&& forall|id: Id| #[trigger]
        store.conversations.contains_key(id) ==> store.conversations[id].next_seq >= 0
    &&& forall|key: (Id, Id)| #[trigger]
        store.members.contains_key(key) ==> store.members[key].last_read_seq >= 0
}

/// Where no counter is negative, reading keeps it so, and a conversation can always be shown to
/// its members.
pub proof fn law_counters_stay_natural_when_reading(
    store: Store,
    conversation_id: Id,
    user_id: Id,
    seq: i64,
    members: Seq<conversation_member::Model>,
    last_message: Option<message::Model>,
)
    requires
        counters_are_natural(store),
        store.is_active(conversation_id, user_id),
        store.conversations.contains_key(conversation_id),
    ensures
        counters_are_natural(read_up_to(store, conversation_id, user_id, seq)),
        seen_by_member(
            ConversationWithMember {
                conversation: store.conversations[conversation_id],
                member: store.members[(conversation_id, user_id)],
            },
            members,
            last_message,
        ) is Ok,
{
}

/// A member is shown a page of the history, the oldest message first; nothing changes.
pub proof fn law_history_is_shown_by_pages(
    store: Store,
    conversation_id: Id,
    user_id: Id,
    query: MessageQuery,
    answers: Seq<(Env, Event)>,
)
    ensures
        ({
            let run = outcome::<ListMessages>(
                list_messages_start(user_id, conversation_id, query),
                store,
                answers,
            );
            match access_result(store, conversation_id, user_id) {
                Err(e) => refused(run, store, e),
                Ok(_) => run matches Some((end, result)) ==> end == store && exists|
                    rows: Seq<message::Model>,
                | #[trigger]
                    store.is_page(
                        rows,
                        conversation_id,
                        query.before_seq,
                        page_size(query.limit),
                    ) && result == Ok::<ReplySpec, AppError>(
                        ok(Json::Arr(messages_json(rows.reverse()))),
                    ),
            }
        }),
{
    reveal_with_fuel(outcome, 5);
}

/// A page is shown in ascending order of sequence numbers, holds at least one message where there
/// is one to show, and never more than the maximum.
pub proof fn law_pages_ascend(
    store: Store,
    rows: Seq<message::Model>,
    conversation_id: Id,
    query: MessageQuery,
)
    requires
        store.is_page(rows, conversation_id, query.before_seq, page_size(query.limit)),
    ensures
        forall|i: int, j: int|
            0 <= i < j < rows.len() ==> rows.reverse()[i].seq < rows.reverse()[j].seq,
        1 <= page_size(query.limit) <= 200,
        rows.len() <= 200,
        query.limit is None ==> page_size(query.limit) == 50,
        (exists|row: message::Model| #[trigger]
            store.has_message(row) && Store::is_before(row, conversation_id, query.before_seq))
            ==> rows.len() > 0,
{
}

/// Turning the page loses nothing and shows nothing twice: a full page, together with the page
/// before its oldest message, is a page of the joint length.
pub proof fn law_pages_join_up(
    store: Store,
    newer: Seq<message::Model>,
    older: Seq<message::Model>,
    conversation_id: Id,
    before: Option<i64>,
    limit: u64,
    limit_older: u64,
)
    requires
        limit + limit_older <= u64::MAX,
        store.is_page(newer, conversation_id, before, limit),
        newer.len() == limit,
        limit > 0,
        store.is_page(older, conversation_id, Some(newer.last().seq), limit_older),
    ensures
        store.is_page(newer + older, conversation_id, before, (limit + limit_older) as u64),
{
    let rows = newer + older;
    assert forall|i: int, j: int| 0 <= i < j < rows.len() implies rows[i].seq > rows[j].seq by {
        if i < newer.len() && j >= newer.len() {
            assert(Store::is_before(
                older[j - newer.len()],
                conversation_id,
                Some(newer.last().seq),
            ));
        }
    }
    assert forall|i: int| 0 <= i < rows.len() implies store.has_message(#[trigger] rows[i])
        && Store::is_before(rows[i], conversation_id, before) by {
        if i >= newer.len() {
            assert(store.has_message(older[i - newer.len()]));
            assert(Store::is_before(newer.last(), conversation_id, before));
        } else {
            assert(store.has_message(newer[i]));
        }
    }
    assert forall|row: message::Model| #[trigger]
        store.has_message(row) && Store::is_before(row, conversation_id, before) && !rows.contains(
            row,
        ) implies rows.len() == (limit + limit_older) as u64 && forall|i: int|
        0 <= i < rows.len() ==> row.seq < #[trigger] rows[i].seq by {
        assert(!newer.contains(row)) by {
            if newer.contains(row) {
                let i = choose|i: int| 0 <= i < newer.len() && newer[i] == row;
                assert(rows[i] == row);
            }
        }
        assert(!older.contains(row)) by {
            if older.contains(row) {
                let i = choose|i: int| 0 <= i < older.len() && older[i] == row;
                assert(rows[i + newer.len()] == row);
            }
        }
        assert(row.seq < newer[newer.len() - 1].seq);
        assert(Store::is_before(row, conversation_id, Some(newer.last().seq)));
        assert forall|i: int| 0 <= i < rows.len() implies row.seq < #[trigger] rows[i].seq by {
            if i >= newer.len() {
                assert(row.seq < older[i - newer.len()].seq);
            } else {
                assert(row.seq < newer[i].seq);
            }
        }
    }
}

/// A member is shown the active members of a conversation, each once; nothing changes.
pub proof fn law_members_are_shown(
    store: Store,
    conversation_id: Id,
    user_id: Id,
    answers: Seq<(Env, Event)>,
)
    ensures
        ({
            let run = outcome::<ListMembers>(
                list_members_start(user_id, conversation_id),
                store,
                answers,
            );
            match access_result(store, conversation_id, user_id) {
                Err(e) => refused(run, store, e),
                Ok(_) => run matches Some((end, result)) ==> end == store && exists|
                    rows: Seq<conversation_member::Model>,
                | #[trigger]
                    store.lists_members(rows, in_conversation(conversation_id)) && result == Ok::<
                        ReplySpec,
                        AppError,
                    >(ok(Json::Arr(members_json(rows)))),
            }
        }),
{
    reveal_with_fuel(outcome, 5);
}

/// A member is shown, for every other active member, how far they have read, and whether that
/// takes in the message; nothing changes. A message that is not in the conversation has no
/// receipts.
pub proof fn law_receipts_tell_who_has_read(
    store: Store,
    conversation_id: Id,
    user_id: Id,
    message_id: Id,
    answers: Seq<(Env, Event)>,
)
    ensures
        ({
            let run = outcome::<MessageReceipts>(
                message_receipts_start(user_id, conversation_id, message_id),
                store,
                answers,
            );
            match access_result(store, conversation_id, user_id) {
                Err(e) => refused(run, store, e),
                Ok(_) => if !(store.messages.contains_key(message_id)
                    && store.messages[message_id].conversation_id == conversation_id) {
                    refused(run, store, AppError::MessageNotFound)
                } else {
                    run matches Some((end, result)) ==> end == store && exists|
                        rows: Seq<conversation_member::Model>,
                    | #[trigger]
                        store.lists_members(rows, in_conversation(conversation_id)) && result
                            == Ok::<ReplySpec, AppError>(
                            ok(
                                Json::Arr(
                                    receipts_json(rows, user_id, store.messages[message_id].seq),
                                ),
                            ),
                        )
                },
            }
        }),
{
    reveal_with_fuel(outcome, 6);
}

} // verus!
