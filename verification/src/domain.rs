//! Rules that need nothing but their arguments.

use serde_json::Value;
use vstd::prelude::*;
use vstd::string::*;

use crate::entity::message::{TYPE_FILE, TYPE_IMAGE, TYPE_SYSTEM, TYPE_TEXT, TYPE_VIDEO};
use crate::error::AppError;
use crate::ids::Id;
use crate::json::{self, json_encoded, json_of, Json};
use crate::text::same_text;

verus! {

/// The greatest number of bytes that the content of one message may take.
pub const MAX_CONTENT_BYTES: usize = 16 * 1024;

/// How many characters of a text message its preview shows.
pub const PREVIEW_CHARS: usize = 80;

/// The message types that users may send.
pub const USER_MESSAGE_TYPES: [&'static str; 4] = [TYPE_TEXT, TYPE_IMAGE, TYPE_VIDEO, TYPE_FILE];

/// The message types that users may send; system messages come from the service alone.
pub open spec fn user_message_type(kind: Seq<char>) -> bool {
    kind == TYPE_TEXT@ || kind == TYPE_IMAGE@ || kind == TYPE_VIDEO@ || kind == TYPE_FILE@
}

/// The verdict on a message of the given type whose content is `null` or not and takes `size`
/// bytes.
pub open spec fn message_verdict(kind: Seq<char>, is_null: bool, size: int) -> Result<
    (),
    AppError,
> {
    if !user_message_type(kind) {
        Err(AppError::UnsupportedMessageType)
    } else if is_null {
        Err(AppError::EmptyContent)
    } else if size > MAX_CONTENT_BYTES {
        Err(AppError::ContentTooLarge)
    } else {
        Ok(())
    }
}

/// How many bytes a content takes; more than any limit where it cannot be serialised.
pub open spec fn content_size(content: Json) -> int {
    match json_encoded(content) {
        Some(bytes) => bytes.len() as int,
        None => usize::MAX as int,
    }
}

/// The verdict on a message that a user wants to send.
pub open spec fn verdict_on(kind: Seq<char>, content: Json) -> Result<(), AppError> {
    message_verdict(kind, content == Json::Null, content_size(content))
}

/// Whether users may send messages of this type.
pub fn is_user_message_type(kind: &str) -> (r: bool)
    ensures
        r == user_message_type(kind@),
{
    for i in 0..USER_MESSAGE_TYPES.len()
        invariant
            forall|j: int| 0 <= j < i ==> (#[trigger] USER_MESSAGE_TYPES@[j])@ != kind@,
    {
        if same_text(kind, USER_MESSAGE_TYPES[i]) {
            return true;
        }
    }
    assert(USER_MESSAGE_TYPES@[0] == TYPE_TEXT && USER_MESSAGE_TYPES@[1] == TYPE_IMAGE
        && USER_MESSAGE_TYPES@[2] == TYPE_VIDEO && USER_MESSAGE_TYPES@[3] == TYPE_FILE);
    false
}

/// The verdict on a message of the given type whose content is `null` or not and takes `size`
/// bytes.
pub fn check_message(kind: &str, is_null: bool, size: usize) -> (r: Result<(), AppError>)
    ensures
        r == message_verdict(kind@, is_null, size as int),
{
    if !is_user_message_type(kind) {
        return Err(AppError::UnsupportedMessageType);
    }
    if is_null {
        return Err(AppError::EmptyContent);
    }
    if size > MAX_CONTENT_BYTES {
        return Err(AppError::ContentTooLarge);
    }
    Ok(())
}

/// Checks the type and the content of a message that a user wants to send.
pub fn validate_message(kind: &str, content: &Value) -> (r: Result<(), AppError>)
    ensures
        r == verdict_on(kind@, json_of(*content)),
{
    let size: usize = match json::encode(content) {
        Ok(bytes) => bytes.len(),
        Err(_) => usize::MAX,
    };
    check_message(kind, json::is_null(content), size)
}

/// The first `n` items.
pub open spec fn prefix(text: Seq<char>, n: nat) -> Seq<char> {
    if text.len() <= n {
        text
    } else {
        text.subrange(0, n as int)
    }
}

/// The name of the first attachment.
pub open spec fn attachment_name(content: Json) -> Option<Seq<char>> {
    match content.member("attachments"@) {
        Some(Json::Arr(items)) => if items.len() > 0 {
            items[0].text_at("name"@)
        } else {
            None
        },
        _ => None,
    }
}

/// The line that stands for a message in a list of conversations.
pub open spec fn preview(kind: Seq<char>, content: Json) -> Seq<char> {
    if kind == TYPE_TEXT@ {
        match content.text_at("text"@) {
            Some(text) => prefix(text, PREVIEW_CHARS as nat),
            None => seq![],
        }
    } else if kind == TYPE_IMAGE@ {
        "[图片]"@
    } else if kind == TYPE_VIDEO@ {
        "[视频]"@
    } else if kind == TYPE_FILE@ {
        match attachment_name(content) {
            Some(name) => "[文件] "@ + name,
            None => "[文件]"@,
        }
    } else if kind == TYPE_SYSTEM@ {
        match content.text_at("event"@) {
            Some(event) => event,
            None => "系统消息"@,
        }
    } else {
        seq![]
    }
}

/// The name of the first attachment.
fn first_attachment_name(content: &Value) -> (r: Option<&str>)
    ensures
        match r {
            Some(name) => attachment_name(json_of(*content)) == Some(name@),
            None => attachment_name(json_of(*content)) is None,
        },
{
    match json::get(content, "attachments") {
        Some(attachments) => match json::as_array(attachments) {
            Some(items) => if items.len() > 0 {
                json::text_at(&items[0], "name")
            } else {
                None
            },
            None => None,
        },
        None => None,
    }
}

/// The line that stands for a message in a list of conversations.
pub fn preview_of(kind: &str, content: &Value) -> (r: String)
    ensures
        r@ == preview(kind@, json_of(*content)),
{
    if same_text(kind, TYPE_TEXT) {
        match json::text_at(content, "text") {
            Some(text) => {
                if text.unicode_len() <= PREVIEW_CHARS {
                    text.to_string()
                } else {
                    text.substring_char(0, PREVIEW_CHARS).to_string()
                }
            },
            None => String::new(),
        }
    } else if same_text(kind, TYPE_IMAGE) {
        "[图片]".to_string()
    } else if same_text(kind, TYPE_VIDEO) {
        "[视频]".to_string()
    } else if same_text(kind, TYPE_FILE) {
        match first_attachment_name(content) {
            Some(name) => "[文件] ".to_string().concat(name),
            None => "[文件]".to_string(),
        }
    } else if same_text(kind, TYPE_SYSTEM) {
        match json::text_at(content, "event") {
            Some(event) => event.to_string(),
            None => "系统消息".to_string(),
        }
    } else {
        String::new()
    }
}

/// The number of unread messages.
pub open spec fn unread(next_seq: i64, last_read_seq: i64) -> int {
    if next_seq > last_read_seq {
        next_seq - last_read_seq
    } else {
        0
    }
}

/// The number of unread messages: how far the read mark lags behind the last sequence number,
/// and never negative.
pub fn unread_of(next_seq: i64, last_read_seq: i64) -> (r: i64)
    requires
        i64::MIN <= next_seq - last_read_seq <= i64::MAX,
    ensures
        r == unread(next_seq, last_read_seq),
{
    let gap: i64 = next_seq - last_read_seq;
    if gap > 0 {
        gap
    } else {
        0
    }
}

/// The two users of a direct conversation in ascending order; nothing for one and the same user,
/// who has no direct conversation with themselves.
pub open spec fn member_key(a: Id, b: Id) -> Option<(Id, Id)> {
    if a < b {
        Some((a, b))
    } else if b < a {
        Some((b, a))
    } else {
        None
    }
}

/// The two users of a direct conversation in ascending order, so that either may come first; there
/// is no key where the two are the same.
pub fn direct_member_key(self_id: Id, other_id: Id) -> (r: Option<(Id, Id)>)
    ensures
        r == member_key(self_id, other_id),
{
    if self_id < other_id {
        Some((self_id, other_id))
    } else if other_id < self_id {
        Some((other_id, self_id))
    } else {
        None
    }
}

/// The key of a direct conversation is strictly ascending, so that nobody stands in it twice; it
/// holds just the two users, and does not depend on which of them is named first. Nobody has a key
/// with themselves.
pub proof fn law_member_key_is_symmetric(a: Id, b: Id)
    ensures
        member_key(a, b) == member_key(b, a),
        member_key(a, b) is None <==> a == b,
        member_key(a, b) matches Some((first, second)) ==> first < second && ((first, second) == (
            a,
            b,
        ) || (first, second) == (b, a)),
{
}

/// The preview of a text message shows the start of the text, and at most as many characters as
/// the limit.
pub proof fn law_text_preview_is_a_short_prefix(content: Json, text: Seq<char>)
    requires
        content.text_at("text"@) == Some(text),
    ensures
        preview(TYPE_TEXT@, content).len() <= PREVIEW_CHARS,
        preview(TYPE_TEXT@, content).is_prefix_of(text),
{
}

/// No message of the system's own type is accepted from a user, whatever its content.
pub proof fn law_users_cannot_send_system_messages(content: Json)
    ensures
        verdict_on(TYPE_SYSTEM@, content) == Err::<(), AppError>(AppError::UnsupportedMessageType),
{
    reveal_strlit("system");
    reveal_strlit("text");
    reveal_strlit("image");
    reveal_strlit("video");
    reveal_strlit("file");
    assert(TYPE_SYSTEM@[0] == 's');
    assert(TYPE_TEXT@[0] == 't' && TYPE_IMAGE@[0] == 'i' && TYPE_VIDEO@[0] == 'v' && TYPE_FILE@[0]
        == 'f');
}

} // verus!
