//! The errors that requests are refused with.

use vstd::prelude::*;

verus! {

/// What is wrong with one field of a request.
#[derive(Clone, Debug, PartialEq, Eq)]
pub struct FieldError {
    pub field: String,
    pub message: String,
}

/// Why a request was refused or could not be carried out.
#[derive(Clone, Debug, PartialEq, Eq)]
pub enum AppError {
    /// The login's subject is no user identifier.
    InvalidToken,
    /// The message type is not one a user may send.
    UnsupportedMessageType,
    /// The message content is `null`.
    EmptyContent,
    /// The message content takes too many bytes.
    ContentTooLarge,
    /// The message replied to is not in the conversation.
    ReplyNotFound,
    /// A direct conversation was asked for without a peer.
    PeerMissing,
    /// A group was asked for without a name.
    GroupNameMissing,
    /// A group was asked for without members.
    GroupMembersMissing,
    /// The conversation type is neither direct nor group.
    UnsupportedConversationType,
    /// A direct conversation with oneself.
    SelfChat,
    /// The user is no active member of the conversation.
    NotMember,
    /// There is no such conversation.
    ConversationNotFound,
    /// The target is no active member of the conversation.
    MemberNotFound,
    /// There is no such message in the conversation.
    MessageNotFound,
    /// Only the sender may recall a message.
    NotSender,
    /// The time to recall the message has passed.
    RecallExpired,
    /// The member is muted.
    Muted,
    /// Only administrators may speak in the group.
    ReadonlyGroup,
    /// The operation is for groups only.
    GroupOnly,
    /// The operation is for the owner and administrators only.
    AdminOnly,
    /// An administrator may not mute the owner.
    OwnerMuteForbidden,
    /// Only the owner may appoint administrators.
    OwnerOnlyRole,
    /// The role is neither admin nor member.
    UnsupportedRole,
    /// The owner's role cannot be changed.
    OwnerRoleFixed,
    /// Only the owner may hand the group over.
    OwnerOnlyTransfer,
    /// Only the owner may dissolve the group.
    OwnerOnlyDissolve,
    /// Members can be invited to groups only.
    NotGroup,
    /// Only the owner and administrators may invite.
    InviteForbidden,
    /// Only the owner and administrators may remove others.
    RemoveForbidden,
    /// A conversation was created, but its creator's membership is not there.
    MemberRowMissing,
    /// The environment answered with something other than what it was asked for.
    UnexpectedReply,
    /// An unread count does not fit its type.
    UnreadOverflow,
    /// Something failed that the request is not to blame for; the text says what.
    Internal(String),
}

impl AppError {
    /// The HTTP status the error is answered with.
    pub open spec fn spec_status(self) -> u16 {
        match self {
            AppError::SelfChat | AppError::NotGroup => 400,
            AppError::InvalidToken => 401,
            AppError::ConversationNotFound | AppError::MemberNotFound
            | AppError::MessageNotFound => 404,
            AppError::UnsupportedMessageType | AppError::EmptyContent
            | AppError::ContentTooLarge | AppError::ReplyNotFound | AppError::PeerMissing
            | AppError::GroupNameMissing | AppError::GroupMembersMissing
            | AppError::UnsupportedConversationType | AppError::GroupOnly
            | AppError::UnsupportedRole => 422,
            AppError::MemberRowMissing | AppError::UnexpectedReply | AppError::UnreadOverflow
            | AppError::Internal(_) => 500,
            _ => 403,
        }
    }

    /// The machine-readable code.
    pub open spec fn spec_code(self) -> Seq<char> {
        match self {
            AppError::InvalidToken => "AUTH_INVALID_TOKEN"@,
            AppError::SelfChat => "IM_SELF_CHAT"@,
            AppError::NotMember => "IM_NOT_MEMBER"@,
            AppError::ConversationNotFound => "IM_CONVERSATION_NOT_FOUND"@,
            AppError::MemberNotFound => "IM_MEMBER_NOT_FOUND"@,
            AppError::MessageNotFound => "IM_MESSAGE_NOT_FOUND"@,
            AppError::RecallExpired => "IM_RECALL_EXPIRED"@,
            AppError::Muted => "IM_MUTED"@,
            AppError::ReadonlyGroup => "IM_READONLY_GROUP"@,
            AppError::NotGroup => "IM_NOT_GROUP"@,
            AppError::NotSender | AppError::InviteForbidden
            | AppError::RemoveForbidden => "IM_FORBIDDEN"@,
            AppError::AdminOnly | AppError::OwnerMuteForbidden | AppError::OwnerOnlyRole
            | AppError::OwnerRoleFixed | AppError::OwnerOnlyTransfer
            | AppError::OwnerOnlyDissolve => "IM_FORBIDDEN_GROUP"@,
            AppError::MemberRowMissing | AppError::UnexpectedReply | AppError::UnreadOverflow
            | AppError::Internal(_) => "INTERNAL_ERROR"@,
            _ => "IM_VALIDATION"@,
        }
    }

    /// The text shown to people.
    pub open spec fn spec_message(self) -> Seq<char> {
        match self {
            AppError::InvalidToken => "访问令牌无效"@,
            AppError::UnsupportedMessageType => "消息类型不支持"@,
            AppError::EmptyContent => "消息内容不能为空"@,
            AppError::ContentTooLarge => "消息内容过大"@,
            AppError::ReplyNotFound => "引用的消息不存在"@,
            AppError::PeerMissing => "单聊需要一个对方用户"@,
            AppError::GroupNameMissing => "群聊名称不能为空"@,
            AppError::GroupMembersMissing => "群聊至少邀请一位成员"@,
            AppError::UnsupportedConversationType => "会话类型不合法"@,
            AppError::SelfChat => "不能与自己创建单聊"@,
            AppError::NotMember => "你不是该会话成员"@,
            AppError::ConversationNotFound => "会话不存在"@,
            AppError::MemberNotFound => "成员不存在"@,
            AppError::MessageNotFound => "消息不存在"@,
            AppError::NotSender => "只能撤回自己的消息"@,
            AppError::RecallExpired => "超过 2 分钟的消息不能撤回"@,
            AppError::Muted => "你已被禁言，暂时无法发言"@,
            AppError::ReadonlyGroup => "当前群仅管理员可发言"@,
            AppError::GroupOnly => "仅群聊支持该操作"@,
            AppError::AdminOnly => "仅群主/管理员可操作"@,
            AppError::OwnerMuteForbidden => "不能禁言群主"@,
            AppError::OwnerOnlyRole => "仅群主可设置管理员"@,
            AppError::UnsupportedRole => "角色不合法"@,
            AppError::OwnerRoleFixed => "不能修改群主角色"@,
            AppError::OwnerOnlyTransfer => "仅群主可转让群主"@,
            AppError::OwnerOnlyDissolve => "仅群主可解散群聊"@,
            AppError::NotGroup => "单聊不能添加成员"@,
            AppError::InviteForbidden => "仅群主/管理员可邀请成员"@,
            AppError::RemoveForbidden => "仅群主/管理员可移出成员"@,
            AppError::MemberRowMissing => "创建会话后成员记录缺失"@,
            AppError::UnexpectedReply => "数据访问应答不匹配"@,
            AppError::UnreadOverflow => "未读数溢出"@,
            AppError::Internal(detail) => detail@,
        }
    }

    /// The field that is at fault, and what is wrong with it.
    pub open spec fn spec_field(self) -> Option<(Seq<char>, Seq<char>)> {
        match self {
            AppError::UnsupportedMessageType => Some(
                ("type"@, "仅支持 text/image/video/file"@),
            ),
            AppError::EmptyContent => Some(("content"@, "不能为空"@)),
            AppError::ContentTooLarge => Some(("content"@, "超过 16KB 限制"@)),
            AppError::ReplyNotFound => Some(("replyToId"@, "消息不存在"@)),
            AppError::PeerMissing | AppError::GroupMembersMissing => Some(
                ("memberIds"@, "不能为空"@),
            ),
            AppError::GroupNameMissing => Some(("name"@, "不能为空"@)),
            AppError::UnsupportedConversationType => Some(
                ("type"@, "仅支持 direct / group"@),
            ),
            AppError::UnsupportedRole => Some(("role"@, "仅支持 admin/member"@)),
            _ => None,
        }
    }

    /// The HTTP status the error is answered with.
    pub fn status(&self) -> (r: u16)
        ensures
            r == self.spec_status(),
    {
        match self {
            AppError::SelfChat | AppError::NotGroup => 400,
            AppError::InvalidToken => 401,
            AppError::ConversationNotFound | AppError::MemberNotFound
            | AppError::MessageNotFound => 404,
            AppError::UnsupportedMessageType | AppError::EmptyContent
            | AppError::ContentTooLarge | AppError::ReplyNotFound | AppError::PeerMissing
            | AppError::GroupNameMissing | AppError::GroupMembersMissing
            | AppError::UnsupportedConversationType | AppError::GroupOnly
            | AppError::UnsupportedRole => 422,
            AppError::MemberRowMissing | AppError::UnexpectedReply | AppError::UnreadOverflow
            | AppError::Internal(_) => 500,
            _ => 403,
        }
    }

    /// The machine-readable code.
    pub fn code(&self) -> (r: &'static str)
        ensures
            r@ == self.spec_code(),
    {
        match self {
            AppError::InvalidToken => "AUTH_INVALID_TOKEN",
            AppError::SelfChat => "IM_SELF_CHAT",
            AppError::NotMember => "IM_NOT_MEMBER",
            AppError::ConversationNotFound => "IM_CONVERSATION_NOT_FOUND",
            AppError::MemberNotFound => "IM_MEMBER_NOT_FOUND",
            AppError::MessageNotFound => "IM_MESSAGE_NOT_FOUND",
            AppError::RecallExpired => "IM_RECALL_EXPIRED",
            AppError::Muted => "IM_MUTED",
            AppError::ReadonlyGroup => "IM_READONLY_GROUP",
            AppError::NotGroup => "IM_NOT_GROUP",
            AppError::NotSender | AppError::InviteForbidden
            | AppError::RemoveForbidden => "IM_FORBIDDEN",
            AppError::AdminOnly | AppError::OwnerMuteForbidden | AppError::OwnerOnlyRole
            | AppError::OwnerRoleFixed | AppError::OwnerOnlyTransfer
            | AppError::OwnerOnlyDissolve => "IM_FORBIDDEN_GROUP",
            AppError::MemberRowMissing | AppError::UnexpectedReply | AppError::UnreadOverflow
            | AppError::Internal(_) => "INTERNAL_ERROR",
            _ => "IM_VALIDATION",
        }
    }

    /// The text shown to people.
    pub fn message(&self) -> (r: &str)
        ensures
            r@ == self.spec_message(),
    {
        match self {
            AppError::InvalidToken => "访问令牌无效",
            AppError::UnsupportedMessageType => "消息类型不支持",
            AppError::EmptyContent => "消息内容不能为空",
            AppError::ContentTooLarge => "消息内容过大",
            AppError::ReplyNotFound => "引用的消息不存在",
            AppError::PeerMissing => "单聊需要一个对方用户",
            AppError::GroupNameMissing => "群聊名称不能为空",
            AppError::GroupMembersMissing => "群聊至少邀请一位成员",
            AppError::UnsupportedConversationType => "会话类型不合法",
            AppError::SelfChat => "不能与自己创建单聊",
            AppError::NotMember => "你不是该会话成员",
            AppError::ConversationNotFound => "会话不存在",
            AppError::MemberNotFound => "成员不存在",
            AppError::MessageNotFound => "消息不存在",
            AppError::NotSender => "只能撤回自己的消息",
            AppError::RecallExpired => "超过 2 分钟的消息不能撤回",
            AppError::Muted => "你已被禁言，暂时无法发言",
            AppError::ReadonlyGroup => "当前群仅管理员可发言",
            AppError::GroupOnly => "仅群聊支持该操作",
            AppError::AdminOnly => "仅群主/管理员可操作",
            AppError::OwnerMuteForbidden => "不能禁言群主",
            AppError::OwnerOnlyRole => "仅群主可设置管理员",
            AppError::UnsupportedRole => "角色不合法",
            AppError::OwnerRoleFixed => "不能修改群主角色",
            AppError::OwnerOnlyTransfer => "仅群主可转让群主",
            AppError::OwnerOnlyDissolve => "仅群主可解散群聊",
            AppError::NotGroup => "单聊不能添加成员",
            AppError::InviteForbidden => "仅群主/管理员可邀请成员",
            AppError::RemoveForbidden => "仅群主/管理员可移出成员",
            AppError::MemberRowMissing => "创建会话后成员记录缺失",
            AppError::UnexpectedReply => "数据访问应答不匹配",
            AppError::UnreadOverflow => "未读数溢出",
            AppError::Internal(detail) => detail.as_str(),
        }
    }

    /// The fields that are at fault.
    pub fn fields(&self) -> (r: Vec<FieldError>)
        ensures
            match self.spec_field() {
                Some((field, message)) => r@.len() == 1 && r@[0].field@ == field
                    && r@[0].message@ == message,
                None => r@.len() == 0,
            },
    {
        let at_fault = match self {
            AppError::UnsupportedMessageType => Some(("type", "仅支持 text/image/video/file")),
            AppError::EmptyContent => Some(("content", "不能为空")),
            AppError::ContentTooLarge => Some(("content", "超过 16KB 限制")),
            AppError::ReplyNotFound => Some(("replyToId", "消息不存在")),
            AppError::PeerMissing | AppError::GroupMembersMissing => Some(
                ("memberIds", "不能为空"),
            ),
            AppError::GroupNameMissing => Some(("name", "不能为空")),
            AppError::UnsupportedConversationType => Some(("type", "仅支持 direct / group")),
            AppError::UnsupportedRole => Some(("role", "仅支持 admin/member")),
            _ => None,
        };
        let mut fields: Vec<FieldError> = Vec::new();
        if let Some((field, message)) = at_fault {
            fields.push(FieldError { field: field.to_string(), message: message.to_string() });
        }
        fields
    }
}

} // verus!
