use club_im::clock::Timestamp;
use club_im::domain::{
    check_message, direct_member_key, preview_of, unread_of, validate_message, MAX_CONTENT_BYTES,
};
use club_im::entity::conversation::Kind;
use club_im::entity::conversation_member::Role;
use club_im::entity::message::Status;
use club_im::error::AppError;
use club_im::ids::new_id;
use club_im::routes::conversations::group_name;
use serde_json::Value;

fn json(text: &str) -> Value {
    serde_json::from_str(text).expect("a JSON document")
}

#[test]
fn validates_type_and_size() {
    assert!(validate_message("text", &json(r#"{"text":"hi"}"#)).is_ok());
    assert!(
        validate_message("system", &json("{}")).is_err(),
        "用户不可发系统消息"
    );
    assert!(validate_message("text", &Value::Null).is_err());
    let big = json(&format!(r#"{{"text":"{}"}}"#, "x".repeat(MAX_CONTENT_BYTES + 1)));
    assert!(validate_message("text", &big).is_err());
}

#[test]
fn builds_previews() {
    assert_eq!(preview_of("text", &json(r#"{"text":"你好"}"#)), "你好");
    assert_eq!(preview_of("image", &json("{}")), "[图片]");
    assert_eq!(preview_of("video", &json("{}")), "[视频]");
    assert_eq!(
        preview_of("file", &json(r#"{"attachments":[{"name":"a.pdf"}]}"#)),
        "[文件] a.pdf"
    );
    assert_eq!(preview_of("unknown", &json("{}")), "");
    let long = json(&format!(r#"{{"text":"{}"}}"#, "x".repeat(200)));
    assert_eq!(preview_of("text", &long).chars().count(), 80);
}

#[test]
fn computes_unread() {
    assert_eq!(unread_of(10, 7), 3);
    assert_eq!(unread_of(7, 7), 0);
    assert_eq!(unread_of(5, 9), 0, "已读位点超前时不应为负");
}

#[test]
fn direct_key_is_order_independent() {
    let a = new_id();
    let b = new_id();
    assert_eq!(direct_member_key(a, b), direct_member_key(b, a));
}

#[test]
fn direct_key_is_ordered() {
    assert_eq!(direct_member_key(7, 3), Some((3, 7)));
    assert_eq!(direct_member_key(3, 7), Some((3, 7)));
    assert_eq!(direct_member_key(3, 3), None, "nobody stands in a key twice");
}

#[test]
fn each_verdict_has_its_error() {
    assert_eq!(
        validate_message("system", &Value::Null),
        Err(AppError::UnsupportedMessageType),
        "the type is looked at first"
    );
    assert_eq!(validate_message("file", &Value::Null), Err(AppError::EmptyContent));
    for kind in ["text", "image", "video", "file"] {
        assert_eq!(validate_message(kind, &json("{}")), Ok(()));
    }
    for kind in ["", "Text", "sticker"] {
        assert_eq!(
            validate_message(kind, &json("{}")),
            Err(AppError::UnsupportedMessageType)
        );
    }
}

#[test]
fn the_size_limit_is_inclusive() {
    // {"text":""} takes 11 bytes.
    let fits = json(&format!(r#"{{"text":"{}"}}"#, "x".repeat(16 * 1024 - 11)));
    assert_eq!(validate_message("text", &fits), Ok(()));
    let too_large = json(&format!(r#"{{"text":"{}"}}"#, "x".repeat(16 * 1024 - 10)));
    assert_eq!(validate_message("text", &too_large), Err(AppError::ContentTooLarge));
    assert_eq!(check_message("text", false, 16 * 1024), Ok(()));
    assert_eq!(
        check_message("text", false, 16 * 1024 + 1),
        Err(AppError::ContentTooLarge)
    );
}

#[test]
fn previews_of_odd_contents() {
    assert_eq!(preview_of("text", &json("{}")), "");
    assert_eq!(preview_of("text", &json(r#"{"text":7}"#)), "");
    assert_eq!(preview_of("text", &json("[]")), "");
    assert_eq!(preview_of("file", &json("{}")), "[文件]");
    assert_eq!(preview_of("file", &json(r#"{"attachments":[]}"#)), "[文件]");
    assert_eq!(preview_of("file", &json(r#"{"attachments":[{}]}"#)), "[文件]");
    assert_eq!(preview_of("file", &json(r#"{"attachments":"a"}"#)), "[文件]");
    assert_eq!(preview_of("system", &json(r#"{"event":"joined"}"#)), "joined");
    assert_eq!(preview_of("system", &json("{}")), "系统消息");
    let wide = "好".repeat(81);
    let long = json(&format!(r#"{{"text":"{wide}"}}"#));
    assert_eq!(preview_of("text", &long), "好".repeat(80), "counted in characters");
    let short = json(&format!(r#"{{"text":"{}"}}"#, "y".repeat(80)));
    assert_eq!(preview_of("text", &short), "y".repeat(80));
}

#[test]
fn new_identifiers_are_of_version_seven() {
    let id = new_id();
    assert_eq!((id >> 76) & 0xf, 7);
    assert_eq!((id >> 62) & 0x3, 2);
    assert_ne!(new_id(), new_id());
}

#[test]
fn vocabularies_read_back_what_they_write() {
    for text in ["direct", "group", "channel"] {
        assert_eq!(Kind::from_text(text.to_string()).as_text(), text);
    }
    for text in ["owner", "admin", "member", "guest"] {
        assert_eq!(Role::from_text(text.to_string()).as_text(), text);
    }
    for text in ["normal", "recalled", "lost"] {
        assert_eq!(Status::from_text(text.to_string()).as_text(), text);
    }
    assert_eq!(Kind::from_text("group".to_string()), Kind::Group);
    assert_eq!(Role::from_text("admin".to_string()), Role::Admin);
    assert!(Role::from_text("owner".to_string()).manages());
    assert!(!Role::from_text("member".to_string()).manages());
    assert_eq!(Status::from_text("recalled".to_string()), Status::Recalled);
}

#[test]
fn time_is_compared_to_the_nanosecond() {
    let at = |secs: i64, nanos: u32| Timestamp { secs, nanos };
    assert!(at(1, 1).after(at(1, 0)));
    assert!(!at(1, 0).after(at(1, 0)));
    assert!(at(0, 0).after(at(-1, 999_999_999)));
    assert!(!at(220, 0).exceeds(at(100, 0), 120));
    assert!(at(220, 1).exceeds(at(100, 0), 120));
    assert!(at(220, 500_000_000).exceeds(at(100, 0), 120));
    assert!(!at(220, 500_000_000).exceeds(at(100, 500_000_000), 120));
    assert!(at(220, 0).exceeds(at(99, 999_999_999), 120));
    assert!(!at(0, 0).exceeds(at(100, 0), 120));
}

#[test]
fn errors_have_status_code_text_and_field() {
    let all = [
        (AppError::InvalidToken, 401, "AUTH_INVALID_TOKEN", "访问令牌无效", None),
        (
            AppError::UnsupportedMessageType,
            422,
            "IM_VALIDATION",
            "消息类型不支持",
            Some(("type", "仅支持 text/image/video/file")),
        ),
        (
            AppError::EmptyContent,
            422,
            "IM_VALIDATION",
            "消息内容不能为空",
            Some(("content", "不能为空")),
        ),
        (
            AppError::ContentTooLarge,
            422,
            "IM_VALIDATION",
            "消息内容过大",
            Some(("content", "超过 16KB 限制")),
        ),
        (
            AppError::ReplyNotFound,
            422,
            "IM_VALIDATION",
            "引用的消息不存在",
            Some(("replyToId", "消息不存在")),
        ),
        (
            AppError::PeerMissing,
            422,
            "IM_VALIDATION",
            "单聊需要一个对方用户",
            Some(("memberIds", "不能为空")),
        ),
        (
            AppError::GroupNameMissing,
            422,
            "IM_VALIDATION",
            "群聊名称不能为空",
            Some(("name", "不能为空")),
        ),
        (
            AppError::GroupMembersMissing,
            422,
            "IM_VALIDATION",
            "群聊至少邀请一位成员",
            Some(("memberIds", "不能为空")),
        ),
        (
            AppError::UnsupportedConversationType,
            422,
            "IM_VALIDATION",
            "会话类型不合法",
            Some(("type", "仅支持 direct / group")),
        ),
        (AppError::SelfChat, 400, "IM_SELF_CHAT", "不能与自己创建单聊", None),
        (AppError::NotMember, 403, "IM_NOT_MEMBER", "你不是该会话成员", None),
        (
            AppError::ConversationNotFound,
            404,
            "IM_CONVERSATION_NOT_FOUND",
            "会话不存在",
            None,
        ),
        (AppError::MemberNotFound, 404, "IM_MEMBER_NOT_FOUND", "成员不存在", None),
        (AppError::MessageNotFound, 404, "IM_MESSAGE_NOT_FOUND", "消息不存在", None),
        (AppError::NotSender, 403, "IM_FORBIDDEN", "只能撤回自己的消息", None),
        (
            AppError::RecallExpired,
            403,
            "IM_RECALL_EXPIRED",
            "超过 2 分钟的消息不能撤回",
            None,
        ),
        (AppError::Muted, 403, "IM_MUTED", "你已被禁言，暂时无法发言", None),
        (AppError::ReadonlyGroup, 403, "IM_READONLY_GROUP", "当前群仅管理员可发言", None),
        (AppError::GroupOnly, 422, "IM_VALIDATION", "仅群聊支持该操作", None),
        (AppError::AdminOnly, 403, "IM_FORBIDDEN_GROUP", "仅群主/管理员可操作", None),
        (AppError::OwnerMuteForbidden, 403, "IM_FORBIDDEN_GROUP", "不能禁言群主", None),
        (AppError::OwnerOnlyRole, 403, "IM_FORBIDDEN_GROUP", "仅群主可设置管理员", None),
        (
            AppError::UnsupportedRole,
            422,
            "IM_VALIDATION",
            "角色不合法",
            Some(("role", "仅支持 admin/member")),
        ),
        (AppError::OwnerRoleFixed, 403, "IM_FORBIDDEN_GROUP", "不能修改群主角色", None),
        (AppError::OwnerOnlyTransfer, 403, "IM_FORBIDDEN_GROUP", "仅群主可转让群主", None),
        (AppError::OwnerOnlyDissolve, 403, "IM_FORBIDDEN_GROUP", "仅群主可解散群聊", None),
        (AppError::NotGroup, 400, "IM_NOT_GROUP", "单聊不能添加成员", None),
        (AppError::InviteForbidden, 403, "IM_FORBIDDEN", "仅群主/管理员可邀请成员", None),
        (AppError::RemoveForbidden, 403, "IM_FORBIDDEN", "仅群主/管理员可移出成员", None),
        (AppError::MemberRowMissing, 500, "INTERNAL_ERROR", "创建会话后成员记录缺失", None),
        (AppError::UnexpectedReply, 500, "INTERNAL_ERROR", "数据访问应答不匹配", None),
        (AppError::UnreadOverflow, 500, "INTERNAL_ERROR", "未读数溢出", None),
        (AppError::Internal("broken".to_string()), 500, "INTERNAL_ERROR", "broken", None),
    ];
    for (error, status, code, message, field) in all {
        assert_eq!(error.status(), status, "{error:?}");
        assert_eq!(error.code(), code, "{error:?}");
        assert_eq!(error.message(), message, "{error:?}");
        let fields = error.fields();
        match field {
            Some((name, what)) => {
                assert_eq!(fields.len(), 1, "{error:?}");
                assert_eq!(fields[0].field, name);
                assert_eq!(fields[0].message, what);
            }
            None => assert!(fields.is_empty(), "{error:?}"),
        }
    }
}

#[test]
fn group_names_lose_the_white_space_around_them() {
    let name = |asked: &str| group_name(&Some(asked.to_string()));
    assert_eq!(group_name(&None), None);
    assert_eq!(name(""), None);
    assert_eq!(name(" \t\r\n "), None);
    assert_eq!(name("\u{3000} a  b\u{85}\n"), Some("a  b".to_string()));
    let white_space = [
        '\u{9}', '\u{a}', '\u{b}', '\u{c}', '\u{d}', '\u{20}', '\u{85}', '\u{a0}', '\u{1680}',
        '\u{2000}', '\u{2001}', '\u{2002}', '\u{2003}', '\u{2004}', '\u{2005}', '\u{2006}',
        '\u{2007}', '\u{2008}', '\u{2009}', '\u{200a}', '\u{2028}', '\u{2029}', '\u{202f}',
        '\u{205f}', '\u{3000}',
    ];
    for c in '\u{0}'..=char::MAX {
        let left = name(&c.to_string());
        assert_eq!(left.is_none(), white_space.contains(&c), "{c:?}");
    }
}
