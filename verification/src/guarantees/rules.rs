//! What is accepted, from whom, and how single values are read and shown.

use vstd::prelude::*;

use crate::clock::Timestamp;
use crate::domain::{message_verdict, preview, unread, verdict_on};
use crate::entity::conversation::Kind;
use crate::entity::conversation_member::Role;
use crate::entity::message::Status;
use crate::error::AppError;
use crate::guarantees::words::lemma_vocabulary;
use crate::ids::Id;
use crate::json::{json_encoded, optional_text, Json};
use crate::realtime::socket::{frame_step, Frame, SocketStep};
use crate::repo::ConversationWithMember;
use crate::routes::conversations::is_group_name;
use crate::routes::groups::admin_verdict;
use crate::routes::members::{invite_verdict, mute_verdict, role_verdict};
use crate::routes::messages::{page_size, speech_verdict};
use crate::routes::{created_or_ok, no_content, ok, user_of};
use crate::text::{is_white_space, text_of, trimmed, trimmed_end, trimmed_start};

verus! {

/// Whether a text is one of the four types of message that users send.
pub open spec fn is_sendable(kind: Seq<char>) -> bool {
    kind == "text"@ || kind == "image"@ || kind == "video"@ || kind == "file"@
}

/// A message of any of the types that users send, with a content that is not `null`, is refused as
/// too large just where its content takes more than sixteen kibibytes, and accepted otherwise. The
/// type makes no difference.
pub proof fn law_size_alone_limits_contents(kind: Seq<char>, size: int, other_kind: Seq<char>)
    requires
        is_sendable(kind),
        is_sendable(other_kind),
    ensures
        size > 16384 ==> message_verdict(kind, false, size) == Err::<(), AppError>(
            AppError::ContentTooLarge,
        ),
        size <= 16384 ==> message_verdict(kind, false, size) == Ok::<(), AppError>(()),
        message_verdict(kind, false, size) == message_verdict(other_kind, false, size),
{
}

/// A message is refused for its type just where it is of none of the types that users send,
/// whatever it holds; of these, one is refused as empty just where its content is `null`.
pub proof fn law_other_messages_are_refused(kind: Seq<char>, is_null: bool, size: int)
    ensures
        message_verdict(kind, is_null, size) == Err::<(), AppError>(
            AppError::UnsupportedMessageType,
        ) <==> !is_sendable(kind),
        message_verdict(kind, is_null, size) == Err::<(), AppError>(AppError::EmptyContent)
            <==> is_sendable(kind) && is_null,
        message_verdict(kind, is_null, size) is Ok <==> is_sendable(kind) && !is_null && size
            <= 16384,
{
}

/// A message that a user wants to send is accepted just where it is of one of the types that users
/// send, its content is not `null`, and the content can be written in sixteen kibibytes. A content
/// that fits is accepted for every such type, and one that is written in fewer bytes fits too.
pub proof fn law_contents_that_fit_are_accepted(
    kind: Seq<char>,
    content: Json,
    other_kind: Seq<char>,
    smaller: Json,
)
    ensures
        verdict_on(kind, content) is Ok <==> is_sendable(kind) && !(content is Null) && (
        json_encoded(content) matches Some(bytes) && bytes.len() <= 16384),
        is_sendable(kind) && !(content is Null) && !(json_encoded(content) matches Some(bytes)
            && bytes.len() <= 16384) ==> verdict_on(kind, content) == Err::<(), AppError>(
            AppError::ContentTooLarge,
        ),
        verdict_on(kind, content) is Ok && is_sendable(other_kind) && !(smaller is Null) && (
        json_encoded(smaller) matches Some(bytes) && bytes.len() <= json_encoded(
            content,
        )->0.len()) ==> verdict_on(other_kind, smaller) is Ok,
{
}

/// What is unread is what lies past the read mark: nothing where the mark has reached the last
/// sequence number, and otherwise as many messages as the mark has to go to reach it. Another
/// message adds one, and reading one takes one away.
pub proof fn law_unread_is_what_lies_past_the_mark(next_seq: i64, last_read_seq: i64)
    ensures
        unread(next_seq, last_read_seq) >= 0,
        unread(next_seq, last_read_seq) == 0 <==> last_read_seq >= next_seq,
        last_read_seq <= next_seq ==> last_read_seq + unread(next_seq, last_read_seq) == next_seq,
        last_read_seq <= next_seq < i64::MAX ==> unread((next_seq + 1) as i64, last_read_seq)
            == unread(next_seq, last_read_seq) + 1,
        last_read_seq < next_seq ==> unread(next_seq, (last_read_seq + 1) as i64) == unread(
            next_seq,
            last_read_seq,
        ) - 1,
{
}

/// The preview of a text message is its text where that has at most eighty characters, and its
/// first eighty characters otherwise; nothing where it holds no text.
pub proof fn law_text_previews(content: Json)
    ensures
        content.text_at("text"@) matches Some(text) ==> {
            &&& text.len() <= 80 ==> preview("text"@, content) == text
            &&& text.len() > 80 ==> preview("text"@, content).len() == 80 && preview(
                "text"@,
                content,
            ).is_prefix_of(text)
        },
        content.text_at("text"@) is None ==> preview("text"@, content).len() == 0,
{
    lemma_vocabulary();
}

/// The preview of an image or a video says just that, and never shows what the message holds. That
/// of a file gives the name of its first attachment where it has one; that of a system message
/// gives its event where it has one. Other messages have an empty preview.
pub proof fn law_previews_of_the_other_types(kind: Seq<char>, content: Json)
    ensures
        preview("image"@, content) == "[图片]"@,
        preview("video"@, content) == "[视频]"@,
        (content.member("attachments"@) matches Some(Json::Arr(items)) && items.len() > 0
            && items[0].text_at("name"@) is Some) ==> preview("file"@, content) == "[文件] "@
            + content.member("attachments"@)->0->Arr_0[0].text_at("name"@)->0,
        !(content.member("attachments"@) matches Some(Json::Arr(items)) && items.len() > 0
            && items[0].text_at("name"@) is Some) ==> preview("file"@, content) == "[文件]"@,
        content.text_at("event"@) matches Some(event) ==> preview("system"@, content) == event,
        content.text_at("event"@) is None ==> preview("system"@, content) == "系统消息"@,
        !is_sendable(kind) && kind != "system"@ ==> preview(kind, content).len() == 0,
{
    lemma_vocabulary();
}

/// A request is shown as many messages as it asks for, but at least one and at most two hundred;
/// fifty where it does not say.
pub proof fn law_page_sizes(limit: u64)
    ensures
        1 <= limit <= 200 ==> page_size(Some(limit)) == limit,
        limit > 200 ==> page_size(Some(limit)) == 200,
        limit == 0 ==> page_size(Some(limit)) == 1,
        page_size(None) == 50,
{
}

/// Types, roles and states are read back from the texts they are stored as, and each text stands
/// for one of them.
pub proof fn law_vocabularies_are_read_back(text: String)
    ensures
        Kind::of(text).spec_text() == text@,
        Kind::of(text) is Direct <==> text@ == "direct"@,
        Kind::of(text) is Group <==> text@ == "group"@,
        Role::of(text).spec_text() == text@,
        Role::of(text) is Owner <==> text@ == "owner"@,
        Role::of(text) is Admin <==> text@ == "admin"@,
        Role::of(text) is Member <==> text@ == "member"@,
        Status::of(text).spec_text() == text@,
        Status::of(text) is Normal <==> text@ == "normal"@,
        Status::of(text) is Recalled <==> text@ == "recalled"@,
{
    lemma_vocabulary();
}

/// Owners and administrators manage a group, and nobody else.
pub proof fn law_managers_are_owners_and_administrators(role: Role)
    ensures
        role is Owner ==> role.spec_manages(),
        role is Admin ==> role.spec_manages(),
        role is Member ==> !role.spec_manages(),
        role is Other ==> !role.spec_manages(),
{
}

/// Outside groups every member may speak. In a group nobody who is muted may, be it the owner,
/// until the mute has run out; and where only administrators speak, nobody may who is neither
/// owner nor administrator and has no leave. Everybody else may speak.
pub proof fn law_who_may_speak_and_who_may_not(found: ConversationWithMember, now: Timestamp)
    ensures
        ({
            let muted = found.member.muted_until is Some && found.member.muted_until->0.total()
                > now.total();
            let silent = found.conversation.only_admins_speak && !(found.member.role is Owner)
                && !(found.member.role is Admin) && !found.member.can_speak;
            let verdict = speech_verdict(found, now);
            &&& verdict is Ok <==> !(found.conversation.kind is Group) || !muted && !silent
            &&& verdict == Err::<(), AppError>(AppError::Muted) <==> found.conversation.kind is Group
                && muted
            &&& verdict == Err::<(), AppError>(AppError::ReadonlyGroup)
                <==> found.conversation.kind is Group && !muted && silent
        }),
{
}

/// Somebody may invite just where the conversation is a group and they own or administer it.
pub proof fn law_who_may_invite(found: ConversationWithMember)
    ensures
        ({
            let manages = found.member.role is Owner || found.member.role is Admin;
            let verdict = invite_verdict(found);
            &&& verdict is Ok <==> found.conversation.kind is Group && manages
            &&& verdict == Err::<(), AppError>(AppError::NotGroup) <==> !(
            found.conversation.kind is Group)
            &&& verdict == Err::<(), AppError>(AppError::InviteForbidden)
                <==> found.conversation.kind is Group && !manages
        }),
{
}

/// Somebody may manage a conversation just where it is a group and they own or administer it; they
/// are then given the group and their own membership.
pub proof fn law_who_may_manage(found: ConversationWithMember)
    ensures
        ({
            let manages = found.member.role is Owner || found.member.role is Admin;
            let verdict = admin_verdict(found);
            &&& verdict matches Ok(given) ==> given == found
            &&& verdict is Ok <==> found.conversation.kind is Group && manages
            &&& verdict == Err::<ConversationWithMember, AppError>(AppError::GroupOnly) <==> !(
            found.conversation.kind is Group)
            &&& verdict == Err::<ConversationWithMember, AppError>(AppError::AdminOnly)
                <==> found.conversation.kind is Group && !manages
        }),
{
}

/// Whoever manages a group may mute everybody, but an administrator may not mute the owner.
pub proof fn law_who_may_be_muted(found: ConversationWithMember, target_id: Id)
    ensures
        mute_verdict(found, target_id) is Err <==> found.member.role is Admin
            && found.conversation.owner_id == Some(target_id),
        mute_verdict(found, target_id) matches Err(e) ==> e == AppError::OwnerMuteForbidden,
        found.member.role is Owner ==> mute_verdict(found, target_id) is Ok,
{
}

/// A role is given by the owner alone, is administrator or member, and is never the owner's own.
pub proof fn law_which_roles_are_given(found: ConversationWithMember, target_id: Id, role: Role)
    ensures
        ({
            let verdict = role_verdict(found, target_id, role);
            let fit = role is Admin || role is Member;
            let owner = found.member.role is Owner;
            &&& verdict is Ok <==> owner && fit && found.conversation.owner_id != Some(target_id)
            &&& verdict == Err::<(), AppError>(AppError::OwnerOnlyRole) <==> !owner
            &&& verdict == Err::<(), AppError>(AppError::UnsupportedRole) <==> owner && !fit
            &&& verdict == Err::<(), AppError>(AppError::OwnerRoleFixed) <==> owner && fit
                && found.conversation.owner_id == Some(target_id)
        }),
{
}

/// A login is for the user that its subject reads as; one that reads as no user is refused.
pub proof fn law_logins_are_for_their_subject(parsed: Option<Id>)
    ensures
        parsed matches Some(user_id) ==> user_of(parsed) == Ok::<Id, AppError>(user_id),
        parsed is None ==> user_of(parsed) == Err::<Id, AppError>(AppError::InvalidToken),
{
}

/// An answer carries its body unchanged; its status tells something new from something that was
/// there before, and an answer without a body from both.
pub proof fn law_answers_have_their_status(body: Json)
    ensures
        ok(body).status == 200,
        ok(body).body == Some(body),
        created_or_ok(true, body).status == 201,
        created_or_ok(true, body).body == Some(body),
        created_or_ok(false, body) == ok(body),
        no_content().status == 204,
        no_content().body is None,
{
}

/// Of what comes in over a connection, a text is carried out as it came; only a close or a loss
/// ends the connection.
pub proof fn law_texts_are_carried_out(frame: Frame)
    ensures
        frame matches Frame::Text(text) ==> frame_step(frame) == SocketStep::Handle(text),
        frame_step(frame) is Leave <==> frame is Close || frame is Lost,
        frame_step(frame) is Wait <==> frame is Other,
{
}

/// A document has a text under a key just where it is an object that holds a string there, and the
/// text is that of the string, however short or long.
pub proof fn law_texts_are_found_under_their_key(document: Json, key: Seq<char>, text: Seq<char>)
    ensures
        document.text_at(key) == Some(text) <==> document.member(key) == Some(Json::Str(text)),
        document.text_at(key) is None <==> !(document.member(key) matches Some(Json::Str(_))),
        forall|members: Map<Seq<char>, Json>, item: Json| #[trigger]
            Json::Obj(members.insert(key, item)).member(key) == Some(item),
        !(document is Obj) ==> document.member(key) is None,
{
}

/// A text that may be missing is that text where it is there.
pub proof fn law_optional_texts_are_kept(text: Option<String>)
    ensures
        text matches Some(t) ==> text_of(text) == Some(t@) && optional_text(text_of(text))
            == Json::Str(t@),
        text is None ==> text_of(text) is None && optional_text(text_of(text)) == Json::Null,
{
}

/// Points in time are told apart by their seconds, and within a second by their nanoseconds.
pub proof fn law_time_is_ordered_to_the_nanosecond(a: Timestamp, b: Timestamp)
    requires
        a.nanos < 1_000_000_000,
        b.nanos < 1_000_000_000,
    ensures
        a.total() < b.total() <==> a.secs < b.secs || a.secs == b.secs && a.nanos < b.nanos,
        a.total() == b.total() <==> a == b,
        a.secs == b.secs + 1 && a.nanos == b.nanos ==> a.total() - b.total() == 1_000_000_000,
        a.secs == b.secs && a.nanos == b.nanos + 1 ==> a.total() - b.total() == 1,
{
}

proof fn lemma_trimmed_start(text: Seq<char>) -> (cut: int)
    ensures
        0 <= cut <= text.len(),
        trimmed_start(text) == text.skip(cut),
        forall|i: int| 0 <= i < cut ==> is_white_space(#[trigger] text[i]),
        cut < text.len() ==> !is_white_space(text[cut]),
    decreases text.len(),
{
    if text.len() > 0 && is_white_space(text.first()) {
        let rest = text.drop_first();
        let cut = lemma_trimmed_start(rest) + 1;
        assert(rest.skip(cut - 1) == text.skip(cut));
        assert forall|i: int| 0 <= i < cut implies is_white_space(#[trigger] text[i]) by {
            if i > 0 {
                assert(rest[i - 1] == text[i]);
            }
        }
        if cut < text.len() {
            assert(rest[cut - 1] == text[cut]);
        }
        cut
    } else {
        assert(text.skip(0) == text);
        0
    }
}

proof fn lemma_trimmed_end(text: Seq<char>) -> (left: int)
    ensures
        0 <= left <= text.len(),
        trimmed_end(text) == text.take(left),
        forall|i: int| left <= i < text.len() ==> is_white_space(#[trigger] text[i]),
        left > 0 ==> !is_white_space(text[left - 1]),
    decreases text.len(),
{
    if text.len() > 0 && is_white_space(text.last()) {
        let rest = text.drop_last();
        let left = lemma_trimmed_end(rest);
        assert(rest.take(left) == text.take(left));
        assert forall|i: int| left <= i < text.len() implies is_white_space(
            #[trigger] text[i],
        ) by {
            if i < rest.len() {
                assert(rest[i] == text[i]);
            }
        }
        if left > 0 {
            assert(rest[left - 1] == text[left - 1]);
        }
        left
    } else {
        assert(text.take(text.len() as int) == text);
        text.len() as int
    }
}

/// A group is named by what was asked for, without the white space at either end and with all the
/// rest; there is no name just where nothing but white space was asked for, or nothing at all.
pub proof fn law_groups_are_named_as_asked(name: Option<String>, asked: Option<String>)
    requires
        is_group_name(name, asked),
    ensures
        name is Some ==> asked is Some && name->0@.len() > 0 && !is_white_space(name->0@.first())
            && !is_white_space(name->0@.last()) && exists|from: int, to: int|
            0 <= from < to <= asked->0@.len() && name->0@ == #[trigger] asked->0@.subrange(from, to)
                && (forall|i: int|
                0 <= i < asked->0@.len() && !(from <= i < to) ==> is_white_space(
                    #[trigger] asked->0@[i],
                )),
        name is None <==> asked is None || forall|i: int|
            0 <= i < asked->0@.len() ==> is_white_space(#[trigger] asked->0@[i]),
{
    if asked is Some {
        let text = asked->0@;
        let cut = lemma_trimmed_start(text);
        let middle = text.skip(cut);
        let left = lemma_trimmed_end(middle);
        let kept = middle.take(left);
        assert(trimmed(text) == kept);
        assert forall|i: int|
            0 <= i < text.len() && !(cut <= i < cut + left) implies is_white_space(
            #[trigger] text[i],
        ) by {
            if i >= cut {
                assert(middle[i - cut] == text[i]);
            }
        }
        if left > 0 {
            assert(kept == text.subrange(cut, cut + left));
            assert(kept.last() == middle[left - 1]);
            assert(kept.first() == text[cut]);
            assert(cut < text.len());
        }
    }
}

} // verus!
