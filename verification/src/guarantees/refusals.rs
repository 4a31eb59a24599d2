//! What refusals say.

use vstd::prelude::*;

use crate::error::AppError;

verus! {

/// Whether an error is not for the request to answer for.
pub open spec fn is_internal(e: AppError) -> bool {
    e is MemberRowMissing || e is UnexpectedReply || e is UnreadOverflow || e is Internal
}

/// Whether something that was asked for is not there.
pub open spec fn is_missing(e: AppError) -> bool {
    e is ConversationNotFound || e is MemberNotFound || e is MessageNotFound
}

/// Whether something in the request is out of its range.
pub open spec fn is_invalid(e: AppError) -> bool {
    e is UnsupportedMessageType || e is EmptyContent || e is ContentTooLarge || e is ReplyNotFound
        || e is PeerMissing || e is GroupNameMissing || e is GroupMembersMissing
        || e is UnsupportedConversationType || e is GroupOnly || e is UnsupportedRole
}

/// A refusal's status tells a bad login, a request out of place, something that is not there,
/// something out of range and a fault of the service from each other; everything else is forbidden.
pub proof fn law_refusals_have_their_status(e: AppError)
    ensures
        e.spec_status() == 400 <==> e is SelfChat || e is NotGroup,
        e.spec_status() == 401 <==> e is InvalidToken,
        e.spec_status() == 404 <==> is_missing(e),
        e.spec_status() == 422 <==> is_invalid(e),
        e.spec_status() == 500 <==> is_internal(e),
        e.spec_status() == 403 <==> !(e is SelfChat || e is NotGroup || e is InvalidToken
            || is_missing(e) || is_invalid(e) || is_internal(e)),
{
}

/// The codes of refusals: no two of them are the same.
proof fn lemma_codes()
    ensures
        "AUTH_INVALID_TOKEN"@.len() == 18,
        "AUTH_INVALID_TOKEN"@[0] == 'A',
        "IM_CONVERSATION_NOT_FOUND"@.len() == 25,
        "IM_FORBIDDEN"@.len() == 12,
        "IM_FORBIDDEN"@[3] == 'F',
        "IM_FORBIDDEN_GROUP"@.len() == 18,
        "IM_FORBIDDEN_GROUP"@[0] == 'I',
        "IM_MEMBER_NOT_FOUND"@.len() == 19,
        "IM_MESSAGE_NOT_FOUND"@.len() == 20,
        "IM_MUTED"@.len() == 8,
        "IM_NOT_GROUP"@.len() == 12,
        "IM_NOT_GROUP"@[3] == 'N',
        "IM_NOT_MEMBER"@.len() == 13,
        "IM_NOT_MEMBER"@[3] == 'N',
        "IM_READONLY_GROUP"@.len() == 17,
        "IM_READONLY_GROUP"@[5] == 'A',
        "IM_RECALL_EXPIRED"@.len() == 17,
        "IM_RECALL_EXPIRED"@[5] == 'C',
        "IM_SELF_CHAT"@.len() == 12,
        "IM_SELF_CHAT"@[3] == 'S',
        "IM_VALIDATION"@.len() == 13,
        "IM_VALIDATION"@[3] == 'V',
        "INTERNAL_ERROR"@.len() == 14,
{
    reveal_strlit("AUTH_INVALID_TOKEN");
    reveal_strlit("IM_CONVERSATION_NOT_FOUND");
    reveal_strlit("IM_FORBIDDEN");
    reveal_strlit("IM_FORBIDDEN_GROUP");
    reveal_strlit("IM_MEMBER_NOT_FOUND");
    reveal_strlit("IM_MESSAGE_NOT_FOUND");
    reveal_strlit("IM_MUTED");
    reveal_strlit("IM_NOT_GROUP");
    reveal_strlit("IM_NOT_MEMBER");
    reveal_strlit("IM_READONLY_GROUP");
    reveal_strlit("IM_RECALL_EXPIRED");
    reveal_strlit("IM_SELF_CHAT");
    reveal_strlit("IM_VALIDATION");
    reveal_strlit("INTERNAL_ERROR");
}

/// A refusal's code goes with its status where something is out of range or the service is at
/// fault, and names the reason otherwise.
pub proof fn law_refusals_have_their_code(e: AppError)
    ensures
        e.spec_code() == "IM_VALIDATION"@ <==> e.spec_status() == 422,
        e.spec_code() == "INTERNAL_ERROR"@ <==> e.spec_status() == 500,
        e.spec_code() == "AUTH_INVALID_TOKEN"@ <==> e.spec_status() == 401,
        e.spec_code() == "IM_SELF_CHAT"@ <==> e is SelfChat,
        e.spec_code() == "IM_NOT_GROUP"@ <==> e is NotGroup,
        e.spec_code() == "IM_NOT_MEMBER"@ <==> e is NotMember,
        e.spec_code() == "IM_CONVERSATION_NOT_FOUND"@ <==> e is ConversationNotFound,
        e.spec_code() == "IM_MEMBER_NOT_FOUND"@ <==> e is MemberNotFound,
        e.spec_code() == "IM_MESSAGE_NOT_FOUND"@ <==> e is MessageNotFound,
        e.spec_code() == "IM_RECALL_EXPIRED"@ <==> e is RecallExpired,
        e.spec_code() == "IM_MUTED"@ <==> e is Muted,
        e.spec_code() == "IM_READONLY_GROUP"@ <==> e is ReadonlyGroup,
        e.spec_code() == "IM_FORBIDDEN"@ <==> e is NotSender || e is InviteForbidden
            || e is RemoveForbidden,
        e.spec_code() == "IM_FORBIDDEN_GROUP"@ <==> e is AdminOnly || e is OwnerMuteForbidden
            || e is OwnerOnlyRole || e is OwnerRoleFixed || e is OwnerOnlyTransfer
            || e is OwnerOnlyDissolve,
{
    lemma_codes();
}

/// What is out of range is named by its field; nothing else is anybody's field.
pub proof fn law_refusals_name_the_field(e: AppError)
    ensures
        e.spec_field() is Some <==> is_invalid(e) && !(e is GroupOnly),
        e is UnsupportedMessageType ==> e.spec_field() == Some(
            ("type"@, "仅支持 text/image/video/file"@),
        ),
        e is UnsupportedConversationType ==> e.spec_field() == Some(
            ("type"@, "仅支持 direct / group"@),
        ),
        e is UnsupportedRole ==> e.spec_field() == Some(("role"@, "仅支持 admin/member"@)),
        e is ContentTooLarge ==> e.spec_field() == Some(("content"@, "超过 16KB 限制"@)),
        e is EmptyContent ==> e.spec_field() == Some(("content"@, "不能为空"@)),
        e is ReplyNotFound ==> e.spec_field() == Some(("replyToId"@, "消息不存在"@)),
        e is GroupNameMissing ==> e.spec_field() == Some(("name"@, "不能为空"@)),
        e is PeerMissing || e is GroupMembersMissing ==> e.spec_field() == Some(
            ("memberIds"@, "不能为空"@),
        ),
{
}

/// Every refusal says in words what is wrong, and a fault of the service passes on what failed.
pub proof fn law_refusals_say_what_is_wrong(e: AppError)
    ensures
        e is InvalidToken ==> e.spec_message() == "访问令牌无效"@,
        e is UnsupportedMessageType ==> e.spec_message() == "消息类型不支持"@,
        e is EmptyContent ==> e.spec_message() == "消息内容不能为空"@,
        e is ContentTooLarge ==> e.spec_message() == "消息内容过大"@,
        e is ReplyNotFound ==> e.spec_message() == "引用的消息不存在"@,
        e is PeerMissing ==> e.spec_message() == "单聊需要一个对方用户"@,
        e is GroupNameMissing ==> e.spec_message() == "群聊名称不能为空"@,
        e is GroupMembersMissing ==> e.spec_message() == "群聊至少邀请一位成员"@,
        e is UnsupportedConversationType ==> e.spec_message() == "会话类型不合法"@,
        e is SelfChat ==> e.spec_message() == "不能与自己创建单聊"@,
        e is NotMember ==> e.spec_message() == "你不是该会话成员"@,
        e is ConversationNotFound ==> e.spec_message() == "会话不存在"@,
        e is MemberNotFound ==> e.spec_message() == "成员不存在"@,
        e is MessageNotFound ==> e.spec_message() == "消息不存在"@,
        e is NotSender ==> e.spec_message() == "只能撤回自己的消息"@,
        e is RecallExpired ==> e.spec_message() == "超过 2 分钟的消息不能撤回"@,
        e is Muted ==> e.spec_message() == "你已被禁言，暂时无法发言"@,
        e is ReadonlyGroup ==> e.spec_message() == "当前群仅管理员可发言"@,
        e is GroupOnly ==> e.spec_message() == "仅群聊支持该操作"@,
        e is AdminOnly ==> e.spec_message() == "仅群主/管理员可操作"@,
        e is OwnerMuteForbidden ==> e.spec_message() == "不能禁言群主"@,
        e is OwnerOnlyRole ==> e.spec_message() == "仅群主可设置管理员"@,
        e is UnsupportedRole ==> e.spec_message() == "角色不合法"@,
        e is OwnerRoleFixed ==> e.spec_message() == "不能修改群主角色"@,
        e is OwnerOnlyTransfer ==> e.spec_message() == "仅群主可转让群主"@,
        e is OwnerOnlyDissolve ==> e.spec_message() == "仅群主可解散群聊"@,
        e is NotGroup ==> e.spec_message() == "单聊不能添加成员"@,
        e is InviteForbidden ==> e.spec_message() == "仅群主/管理员可邀请成员"@,
        e is RemoveForbidden ==> e.spec_message() == "仅群主/管理员可移出成员"@,
        e is MemberRowMissing ==> e.spec_message() == "创建会话后成员记录缺失"@,
        e is UnexpectedReply ==> e.spec_message() == "数据访问应答不匹配"@,
        e is UnreadOverflow ==> e.spec_message() == "未读数溢出"@,
        e matches AppError::Internal(detail) ==> e.spec_message() == detail@,
{
}

} // verus!
