//! What the documents say that messages, conversations, members and receipts are shown as.

use vstd::prelude::*;

use crate::clock::{rfc3339_text, Timestamp};
use crate::entity::conversation::Kind;
use crate::entity::conversation_member::Role;
use crate::entity::message::Status;
use crate::entity::{conversation, conversation_member, message};
use crate::error::AppError;
use crate::flow::{Env, Event};
use crate::guarantees::access::access_result;
use crate::guarantees::listing::is_shown;
use crate::guarantees::reading::law_receipts_tell_who_has_read;
use crate::guarantees::words::lemma_keys;
use crate::ids::{id_text, law_id_text_is_injective, Id};
use crate::json::{json_of, Json};
use crate::repo::ConversationWithMember;
use crate::routes::conversations::{oldest, seen_by_member};
use crate::routes::dto::{
    is_other, member_json, members_json, message_json, messages_json, others_of, users_of,
};
use crate::routes::groups::settings_json;
use crate::routes::messages::{message_receipts_start, MessageReceipts};
use crate::routes::{ok, ReplySpec};
use crate::service::{announcement, is_other_member, receipt_json, receipts_json};
use crate::store::{in_conversation, outcome, Store};

verus! {

/// Whether a document holds a text under a key, or `null` where there is none.
pub open spec fn holds_text(document: Json, key: Seq<char>, text: Option<String>) -> bool {
    match text {
        Some(text) => document.member(key) == Some(Json::Str(text@)),
        None => document.member(key) == Some(Json::Null),
    }
}

/// Whether a document holds an identifier under a key, as text, or `null` where there is none.
pub open spec fn holds_id(document: Json, key: Seq<char>, id: Option<Id>) -> bool {
    match id {
        Some(id) => document.member(key) == Some(Json::Str(id_text(id))),
        None => document.member(key) == Some(Json::Null),
    }
}

/// Whether a document holds a point in time under a key, as text, or `null` where there is none
/// or the point has no text.
pub open spec fn holds_time(document: Json, key: Seq<char>, at: Option<Timestamp>) -> bool {
    match at {
        Some(at) => match rfc3339_text(at.secs, at.nanos) {
            Some(text) => document.member(key) == Some(Json::Str(text)),
            None => document.member(key) == Some(Json::Null),
        },
        None => document.member(key) == Some(Json::Null),
    }
}

/// Whether a document is an object with these keys and no others.
pub open spec fn has_just(document: Json, keys: Set<Seq<char>>) -> bool {
    document is Obj && forall|key: Seq<char>| #[trigger]
        document.member(key) is Some <==> keys.contains(key)
}

/// Whether a document holds the texts of users' identifiers under a key, in their order.
pub open spec fn holds_users_of(
    document: Json,
    key: Seq<char>,
    rows: Seq<conversation_member::Model>,
) -> bool {
    document.member(key) matches Some(Json::Arr(items)) && items.len() == rows.len() && forall|
        i: int,
    |
        0 <= i < rows.len() ==> #[trigger] items[i] == Json::Str(id_text(rows[i].user_id))
}

/// The document of a message shows the stored row: its identifier, its place, its sender, its own
/// type, whatever it is, its content, what it replies to, its status and when it was sent; and
/// nothing else.
pub proof fn law_messages_are_shown_as_stored(row: message::Model)
    ensures
        holds_id(message_json(row), "id"@, Some(row.id)),
        message_json(row).member("seq"@) == Some(Json::Int(row.seq as int)),
        holds_id(message_json(row), "senderId"@, row.sender_id),
        message_json(row).member("type"@) == Some(Json::Str(row.kind@)),
        message_json(row).member("content"@) == Some(json_of(row.content)),
        holds_id(message_json(row), "replyToId"@, row.reply_to_id),
        message_json(row).text_at("status"@) == Some(
            match row.status {
                Status::Normal => "normal"@,
                Status::Recalled => "recalled"@,
                Status::Other(text) => text@,
            },
        ),
        holds_time(message_json(row), "createdAt"@, Some(row.created_at)),
        has_just(
            message_json(row),
            set!["id"@, "seq"@, "senderId"@, "type"@, "content"@, "replyToId"@, "status"@,
                "createdAt"@],
        ),
{
    lemma_keys();
}

/// Messages that differ in what is shown have different documents: one that is shown tells which
/// message it is, where it stands, who sent it, of which type it is, what it holds and what it
/// replies to.
pub proof fn law_different_messages_look_different(a: message::Model, b: message::Model)
    requires
        message_json(a) == message_json(b),
    ensures
        a.id == b.id,
        a.seq == b.seq,
        a.sender_id == b.sender_id,
        a.kind@ == b.kind@,
        json_of(a.content) == json_of(b.content),
        a.reply_to_id == b.reply_to_id,
{
    law_messages_are_shown_as_stored(a);
    law_messages_are_shown_as_stored(b);
    law_id_text_is_injective(a.id, b.id);
    if a.sender_id is Some && b.sender_id is Some {
        law_id_text_is_injective(a.sender_id->0, b.sender_id->0);
    }
    if a.reply_to_id is Some && b.reply_to_id is Some {
        law_id_text_is_injective(a.reply_to_id->0, b.reply_to_id->0);
    }
}

/// A list of messages shows each of them, in the order given.
pub proof fn law_lists_show_every_message(rows: Seq<message::Model>)
    ensures
        messages_json(rows).len() == rows.len(),
        forall|i: int|
            0 <= i < rows.len() ==> #[trigger] messages_json(rows)[i] == message_json(rows[i]),
{
}

/// A conversation is shown to a member as it is stored, with the identifiers of its members, how
/// many messages lie past the member's own read mark, and its last message just where there is
/// one. It cannot be shown just where what is unread is no number that fits.
pub proof fn law_conversations_are_shown_as_stored(
    row: ConversationWithMember,
    members: Seq<conversation_member::Model>,
    last_message: Option<message::Model>,
)
    ensures
        seen_by_member(row, members, last_message) is Err <==> row.conversation.next_seq
            - row.member.last_read_seq > i64::MAX || row.conversation.next_seq
            - row.member.last_read_seq < i64::MIN,
        seen_by_member(row, members, last_message) matches Err(e) ==> e == AppError::UnreadOverflow,
        seen_by_member(row, members, last_message) matches Ok(document) ==> {
            &&& holds_id(document, "id"@, Some(row.conversation.id))
            &&& document.text_at("type"@) == Some(
                match row.conversation.kind {
                    Kind::Direct => "direct"@,
                    Kind::Group => "group"@,
                    Kind::Other(text) => text@,
                },
            )
            &&& holds_text(document, "name"@, row.conversation.name)
            &&& holds_text(document, "notice"@, row.conversation.notice)
            &&& document.member("onlyAdminsSpeak"@) == Some(
                Json::Bool(row.conversation.only_admins_speak),
            )
            &&& row.member.last_read_seq >= row.conversation.next_seq ==> document.member(
                "unread"@,
            ) == Some(Json::Int(0))
            &&& row.member.last_read_seq < row.conversation.next_seq ==> document.member(
                "unread"@,
            ) == Some(Json::Int(row.conversation.next_seq - row.member.last_read_seq))
            &&& document.member("muted"@) == Some(Json::Bool(row.member.muted))
            &&& document.member("pinned"@) == Some(Json::Bool(row.member.pinned))
            &&& holds_users_of(document, "memberIds"@, members)
            &&& match last_message {
                Some(message) => document.member("lastMessage"@) == Some(message_json(message)),
                None => document.member("lastMessage"@) == Some(Json::Null),
            }
            &&& holds_time(document, "updatedAt"@, Some(row.conversation.updated_at))
            &&& has_just(
                document,
                set!["id"@, "type"@, "name"@, "notice"@, "onlyAdminsSpeak"@, "unread"@, "muted"@,
                    "pinned"@, "memberIds"@, "lastMessage"@, "updatedAt"@],
            )
        },
{
    lemma_keys();
}

/// The last message that a list of conversations shows is the one with the greatest sequence
/// number of its conversation, however much of it has been read; it is missing just where the
/// conversation has no message.
pub proof fn law_the_last_message_is_shown(
    store: Store,
    row: ConversationWithMember,
    document: Json,
)
    requires
        is_shown(store, row, document),
    ensures
        forall|message: message::Model| #[trigger]
            store.has_message(message) && message.conversation_id == row.conversation.id && (
            forall|other: message::Model| #[trigger]
                store.has_message(other) && other.conversation_id == row.conversation.id
                    && other != message ==> other.seq < message.seq) ==> document.member(
                "lastMessage"@,
            ) == Some(message_json(message)),
        document.member("lastMessage"@) == Some(Json::Null) <==> forall|message: message::Model|
            #[trigger]
            store.has_message(message) ==> message.conversation_id != row.conversation.id,
{
    let id = row.conversation.id;
    let (members, last) = choose|
        members: Seq<conversation_member::Model>,
        last: Seq<message::Model>,
    |
        #[trigger]
        store.lists_members(members, in_conversation(id)) && #[trigger]
        store.is_page(last, id, None, 1) && seen_by_member(row, members, oldest(last)) == Ok::<
            Json,
            AppError,
        >(document);
    law_conversations_are_shown_as_stored(row, members, oldest(last));
    assert forall|message: message::Model| #[trigger]
        store.has_message(message) && message.conversation_id == id && (forall|
            other: message::Model,
        | #[trigger]
            store.has_message(other) && other.conversation_id == id && other != message ==> other.seq
                < message.seq) implies document.member("lastMessage"@) == Some(
        message_json(message),
    ) by {
        assert(Store::is_before(message, id, None));
        if last.len() == 0 {
            assert(!last.contains(message));
        } else {
            assert(store.has_message(last[0]));
            if !last.contains(message) {
                assert(message.seq < last[0].seq);
            } else {
                let i = choose|i: int| 0 <= i < last.len() && last[i] == message;
            }
        }
    }
    if forall|message: message::Model| #[trigger]
        store.has_message(message) ==> message.conversation_id != id {
        if last.len() > 0 {
            assert(store.has_message(last[0]));
        }
    }
    if document.member("lastMessage"@) == Some(Json::Null) {
        if last.len() > 0 {
            assert(message_json(last.reverse()[0]) is Obj);
        }
        assert forall|message: message::Model| #[trigger]
            store.has_message(message) implies message.conversation_id != id by {
            if message.conversation_id == id {
                assert(Store::is_before(message, id, None));
                assert(!last.contains(message));
            }
        }
    }
}

/// A member is shown as stored: who it is, the role, how far they have read, until when they are
/// muted, whether they may speak where only administrators do, and since when they are a member.
pub proof fn law_members_are_shown_as_stored(row: conversation_member::Model)
    ensures
        holds_id(member_json(row), "userId"@, Some(row.user_id)),
        member_json(row).text_at("role"@) == Some(
            match row.role {
                Role::Owner => "owner"@,
                Role::Admin => "admin"@,
                Role::Member => "member"@,
                Role::Other(text) => text@,
            },
        ),
        member_json(row).member("lastReadSeq"@) == Some(Json::Int(row.last_read_seq as int)),
        holds_time(member_json(row), "mutedUntil"@, row.muted_until),
        member_json(row).member("canSpeak"@) == Some(Json::Bool(row.can_speak)),
        holds_time(member_json(row), "joinedAt"@, Some(row.joined_at)),
        has_just(
            member_json(row),
            set!["userId"@, "role"@, "lastReadSeq"@, "mutedUntil"@, "canSpeak"@, "joinedAt"@],
        ),
{
    lemma_keys();
}

/// A list of members shows each of them, in the order given.
pub proof fn law_lists_show_every_member(rows: Seq<conversation_member::Model>)
    ensures
        members_json(rows).len() == rows.len(),
        forall|i: int|
            0 <= i < rows.len() ==> #[trigger] members_json(rows)[i] == member_json(rows[i]),
{
}

/// The settings of a group are shown as stored.
pub proof fn law_settings_are_shown_as_stored(row: conversation::Model)
    ensures
        settings_json(row).member("onlyAdminsSpeak"@) == Some(Json::Bool(row.only_admins_speak)),
        holds_text(settings_json(row), "notice"@, row.notice),
        has_just(settings_json(row), set!["onlyAdminsSpeak"@, "notice"@]),
{
    lemma_keys();
}

/// Whether a receipt is that of a member for a message: it says that the message was read just
/// where the member's read mark has reached the message or gone past it.
pub open spec fn is_receipt(
    receipt: Json,
    member: conversation_member::Model,
    seq: i64,
) -> bool {
    &&& holds_id(receipt, "userId"@, Some(member.user_id))
    &&& receipt.member("read"@) == Some(Json::Bool(true)) <==> seq <= member.last_read_seq
    &&& receipt.member("read"@) == Some(Json::Bool(false)) <==> seq > member.last_read_seq
    &&& receipt.member("lastReadSeq"@) == Some(Json::Int(member.last_read_seq as int))
    &&& has_just(receipt, set!["userId"@, "read"@, "lastReadSeq"@])
}

/// A receipt tells that a message was read just where the member's read mark has reached it. It
/// keeps telling so when the mark moves forward, and for every earlier message.
pub proof fn law_a_read_message_stays_read(
    member: conversation_member::Model,
    seq: i64,
    later: conversation_member::Model,
    earlier_seq: i64,
)
    requires
        later.last_read_seq >= member.last_read_seq,
        earlier_seq <= seq,
    ensures
        is_receipt(receipt_json(member, seq), member, seq),
        receipt_json(member, seq).member("read"@) == Some(Json::Bool(true)) ==> receipt_json(
            later,
            earlier_seq,
        ).member("read"@) == Some(Json::Bool(true)),
{
    lemma_keys();
}

/// Whether a receipt is that of one of the members, but not of the one who asks.
pub open spec fn is_receipt_of_another(
    receipt: Json,
    members: Seq<conversation_member::Model>,
    user_id: Id,
    seq: i64,
) -> bool {
    exists|member: conversation_member::Model| #[trigger]
        members.contains(member) && member.user_id != user_id && is_receipt(receipt, member, seq)
}

/// Whether there is a receipt of a member.
pub open spec fn has_receipt(
    receipts: Seq<Json>,
    member: conversation_member::Model,
    seq: i64,
) -> bool {
    exists|i: int| 0 <= i < receipts.len() && is_receipt(#[trigger] receipts[i], member, seq)
}

/// There is a receipt for every member but the one who asks, and no other.
pub proof fn law_receipts_are_of_the_others(
    members: Seq<conversation_member::Model>,
    user_id: Id,
    seq: i64,
)
    ensures
        forall|i: int|
            0 <= i < receipts_json(members, user_id, seq).len() ==> is_receipt_of_another(
                #[trigger] receipts_json(members, user_id, seq)[i],
                members,
                user_id,
                seq,
            ),
        forall|member: conversation_member::Model| #[trigger]
            members.contains(member) && member.user_id != user_id ==> has_receipt(
                receipts_json(members, user_id, seq),
                member,
                seq,
            ),
        (forall|i: int|
            0 <= i < members.len() ==> (#[trigger] members[i]).user_id != user_id)
            ==> receipts_json(members, user_id, seq).len() == members.len(),
{
    let others = members.filter(is_other_member(user_id));
    let receipts = receipts_json(members, user_id, seq);
    assert forall|i: int| 0 <= i < receipts.len() implies is_receipt_of_another(
        #[trigger] receipts[i],
        members,
        user_id,
        seq,
    ) by {
        members.lemma_filter_pred(is_other_member(user_id), i);
        members.lemma_filter_contains_rev(is_other_member(user_id), others[i]);
        law_a_read_message_stays_read(others[i], seq, others[i], seq);
        assert(members.contains(others[i]));
    }
    assert forall|member: conversation_member::Model| #[trigger]
        members.contains(member) && member.user_id != user_id implies has_receipt(
        receipts,
        member,
        seq,
    ) by {
        let k = choose|k: int| 0 <= k < members.len() && members[k] == member;
        members.lemma_filter_contains(is_other_member(user_id), k);
        let i = choose|i: int| 0 <= i < others.len() && others[i] == member;
        law_a_read_message_stays_read(member, seq, member, seq);
        assert(receipts[i] == receipt_json(member, seq));
    }
    if forall|i: int| 0 <= i < members.len() ==> (#[trigger] members[i]).user_id != user_id {
        lemma_filter_keeps_all(members, user_id);
    }
}

proof fn lemma_filter_keeps_all(members: Seq<conversation_member::Model>, user_id: Id)
    requires
        forall|i: int| 0 <= i < members.len() ==> (#[trigger] members[i]).user_id != user_id,
    ensures
        members.filter(is_other_member(user_id)).len() == members.len(),
    decreases members.len(),
{
    reveal(Seq::filter);
    if members.len() > 0 {
        lemma_filter_keeps_all(members.drop_last(), user_id);
    }
}

/// Whether a receipt is that of an active member other than the one who asks.
pub open spec fn is_receipt_of_active(
    store: Store,
    conversation_id: Id,
    user_id: Id,
    receipt: Json,
    seq: i64,
) -> bool {
    exists|other: Id| #[trigger]
        store.is_active(conversation_id, other) && other != user_id && is_receipt(
            receipt,
            store.members[(conversation_id, other)],
            seq,
        )
}

/// Somebody who asks for the receipts of a message is told of every other active member, and of
/// nobody else, whether their read mark has reached the message.
pub proof fn law_receipts_compare_read_marks(
    store: Store,
    conversation_id: Id,
    user_id: Id,
    message_id: Id,
    answers: Seq<(Env, Event)>,
)
    requires
        access_result(store, conversation_id, user_id) is Ok,
        store.keyed(),
        store.messages.contains_key(message_id),
        store.messages[message_id].conversation_id == conversation_id,
    ensures
        outcome::<MessageReceipts>(
            message_receipts_start(user_id, conversation_id, message_id),
            store,
            answers,
        ) matches Some((end, result)) ==> end == store && (result matches Ok(reply) && reply.status
            == 200 && (reply.body matches Some(Json::Arr(receipts)) && {
            let seq = store.messages[message_id].seq;
            &&& forall|other: Id| #[trigger]
                store.is_active(conversation_id, other) && other != user_id ==> has_receipt(
                    receipts,
                    store.members[(conversation_id, other)],
                    seq,
                )
            &&& forall|i: int|
                0 <= i < receipts.len() ==> is_receipt_of_active(
                    store,
                    conversation_id,
                    user_id,
                    #[trigger] receipts[i],
                    seq,
                )
        })),
{
    law_receipts_tell_who_has_read(store, conversation_id, user_id, message_id, answers);
    let run = outcome::<MessageReceipts>(
        message_receipts_start(user_id, conversation_id, message_id),
        store,
        answers,
    );
    if run is Some {
        let seq = store.messages[message_id].seq;
        let (_, result) = run->0;
        let rows = choose|rows: Seq<conversation_member::Model>| #[trigger]
            store.lists_members(rows, in_conversation(conversation_id)) && result == Ok::<
                ReplySpec,
                AppError,
            >(ok(Json::Arr(receipts_json(rows, user_id, seq))));
        lemma_receipts_of_active(store, conversation_id, user_id, rows, seq);
    }
}

proof fn lemma_receipts_of_active(
    store: Store,
    conversation_id: Id,
    user_id: Id,
    rows: Seq<conversation_member::Model>,
    seq: i64,
)
    requires
        store.keyed(),
        store.lists_members(rows, in_conversation(conversation_id)),
    ensures
        forall|other: Id| #[trigger]
            store.is_active(conversation_id, other) && other != user_id ==> has_receipt(
                receipts_json(rows, user_id, seq),
                store.members[(conversation_id, other)],
                seq,
            ),
        forall|i: int|
            0 <= i < receipts_json(rows, user_id, seq).len() ==> is_receipt_of_active(
                store,
                conversation_id,
                user_id,
                #[trigger] receipts_json(rows, user_id, seq)[i],
                seq,
            ),
{
    let receipts = receipts_json(rows, user_id, seq);
    law_receipts_are_of_the_others(rows, user_id, seq);
    assert forall|other: Id| #[trigger]
        store.is_active(conversation_id, other) && other != user_id implies has_receipt(
        receipts,
        store.members[(conversation_id, other)],
        seq,
    ) by {
        let row = store.members[(conversation_id, other)];
        assert(store.has_active(row));
        assert(rows.contains(row));
    }
    assert forall|i: int| 0 <= i < receipts.len() implies is_receipt_of_active(
        store,
        conversation_id,
        user_id,
        #[trigger] receipts[i],
        seq,
    ) by {
        assert(is_receipt_of_another(receipts[i], rows, user_id, seq));
        let row = choose|row: conversation_member::Model| #[trigger]
            rows.contains(row) && row.user_id != user_id && is_receipt(receipts[i], row, seq);
        assert(store.has_active(row));
        assert(store.is_active(conversation_id, row.user_id));
    }
}

/// What is announced of a new message names the message, its sender, its conversation and what it
/// is about, and is meant for every other member and nobody else.
pub proof fn law_announcements_tell_of_the_message(
    conversation: conversation::Model,
    conversation_id: Id,
    sender_id: Id,
    row: message::Model,
    members: Seq<conversation_member::Model>,
)
    ensures
        ({
            let document = announcement(conversation, conversation_id, sender_id, row, members);
            &&& holds_id(document, "id"@, Some(row.id))
            &&& document.text_at("type"@) == Some("im.message.created"@)
            &&& holds_id(document, "actorId"@, Some(sender_id))
            &&& document.member("targetUsers"@) matches Some(Json::Arr(items)) && forall|user: Id|
                #[trigger] items.contains(Json::Str(id_text(user))) <==> user != sender_id
                    && exists|k: int|
                    0 <= k < members.len() && (#[trigger] members[k]).user_id == user
            &&& document.member("resource"@) matches Some(resource) && resource.text_at("type"@)
                == Some("im"@) && holds_id(resource, "id"@, Some(conversation_id))
                && resource.text_at("url"@) == Some("/im/"@ + id_text(conversation_id)) && has_just(
                resource,
                set!["type"@, "id"@, "url"@],
            )
            &&& conversation.kind is Group && conversation.name is Some ==> document.text_at(
                "title"@,
            ) == Some(conversation.name->0@)
            &&& conversation.kind is Group && conversation.name is None ==> document.text_at(
                "title"@,
            ) == Some("群聊"@)
            &&& !(conversation.kind is Group) ==> document.text_at("title"@) == Some("新消息"@)
            &&& document.text_at("body"@) == Some(
                crate::domain::preview(row.kind@, json_of(row.content)),
            )
            &&& document.text_at("priority"@) == Some("high"@)
            &&& has_just(
                document,
                set!["id"@, "type"@, "actorId"@, "targetUsers"@, "resource"@, "title"@, "body"@,
                    "priority"@],
            )
        }),
{
    lemma_keys();
    let document = announcement(conversation, conversation_id, sender_id, row, members);
    let users = users_of(members);
    let others = others_of(members, sender_id);
    let items = document.member("targetUsers"@)->0->Arr_0;
    assert forall|user: Id| #[trigger] items.contains(Json::Str(id_text(user))) <==> user
        != sender_id && exists|k: int|
        0 <= k < members.len() && (#[trigger] members[k]).user_id == user by {
        if items.contains(Json::Str(id_text(user))) {
            let i = choose|i: int| 0 <= i < items.len() && items[i] == Json::Str(id_text(user));
            law_id_text_is_injective(others[i], user);
            users.lemma_filter_pred(is_other(sender_id), i);
            users.lemma_filter_contains_rev(is_other(sender_id), user);
            let k = choose|k: int| 0 <= k < users.len() && users[k] == user;
            assert(members[k].user_id == user);
        }
        if user != sender_id && exists|k: int|
            0 <= k < members.len() && (#[trigger] members[k]).user_id == user {
            let k = choose|k: int| 0 <= k < members.len() && (#[trigger] members[k]).user_id
                == user;
            assert(users[k] == user);
            users.lemma_filter_contains(is_other(sender_id), k);
            let i = choose|i: int| 0 <= i < others.len() && others[i] == user;
            assert(items[i] == Json::Str(id_text(user)));
        }
    }
}

} // verus!
