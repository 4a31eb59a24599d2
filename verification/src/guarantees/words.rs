//! Words that documents are made of: no two of them are the same.

use vstd::prelude::*;

verus! {

/// The keys of the documents that are written and read.
pub(crate) proof fn lemma_keys()
    ensures
        "actorId"@.len() == 7,
        "actorId"@[0] == 'a',
        "added"@.len() == 5,
        "added"@[0] == 'a',
        "body"@.len() == 4,
        "body"@[0] == 'b',
        "canSpeak"@.len() == 8,
        "canSpeak"@[0] == 'c',
        "clientMsgId"@.len() == 11,
        "clientMsgId"@[0] == 'c',
        "code"@.len() == 4,
        "code"@[0] == 'c',
        "content"@.len() == 7,
        "content"@[0] == 'c',
        "conversationId"@.len() == 14,
        "createdAt"@.len() == 9,
        "createdAt"@[0] == 'c',
        "id"@.len() == 2,
        "joinedAt"@.len() == 8,
        "joinedAt"@[0] == 'j',
        "lastMessage"@.len() == 11,
        "lastMessage"@[0] == 'l',
        "lastMessage"@[4] == 'M',
        "lastReadSeq"@.len() == 11,
        "lastReadSeq"@[0] == 'l',
        "lastReadSeq"@[4] == 'R',
        "memberIds"@.len() == 9,
        "memberIds"@[0] == 'm',
        "memberIds"@[2] == 'm',
        "message"@.len() == 7,
        "message"@[0] == 'm',
        "messageId"@.len() == 9,
        "messageId"@[0] == 'm',
        "messageId"@[2] == 's',
        "muted"@.len() == 5,
        "muted"@[0] == 'm',
        "mutedUntil"@.len() == 10,
        "name"@.len() == 4,
        "name"@[0] == 'n',
        "notice"@.len() == 6,
        "notice"@[0] == 'n',
        "onlyAdminsSpeak"@.len() == 15,
        "ownerId"@.len() == 7,
        "ownerId"@[0] == 'o',
        "payload"@.len() == 7,
        "payload"@[0] == 'p',
        "pinned"@.len() == 6,
        "pinned"@[0] == 'p',
        "priority"@.len() == 8,
        "priority"@[0] == 'p',
        "read"@.len() == 4,
        "read"@[0] == 'r',
        "read"@[1] == 'e',
        "replyToId"@.len() == 9,
        "replyToId"@[0] == 'r',
        "replyToId"@[2] == 'p',
        "requestId"@.len() == 9,
        "requestId"@[0] == 'r',
        "requestId"@[2] == 'q',
        "resource"@.len() == 8,
        "resource"@[0] == 'r',
        "role"@.len() == 4,
        "role"@[0] == 'r',
        "role"@[1] == 'o',
        "senderId"@.len() == 8,
        "senderId"@[0] == 's',
        "seq"@.len() == 3,
        "seq"@[0] == 's',
        "state"@.len() == 5,
        "state"@[0] == 's',
        "status"@.len() == 6,
        "status"@[0] == 's',
        "targetUsers"@.len() == 11,
        "targetUsers"@[0] == 't',
        "title"@.len() == 5,
        "title"@[0] == 't',
        "type"@.len() == 4,
        "type"@[0] == 't',
        "unread"@.len() == 6,
        "unread"@[0] == 'u',
        "unread"@[1] == 'n',
        "updatedAt"@.len() == 9,
        "updatedAt"@[0] == 'u',
        "url"@.len() == 3,
        "url"@[0] == 'u',
        "userId"@.len() == 6,
        "userId"@[0] == 'u',
        "userId"@[1] == 's',
{
    reveal_strlit("actorId");
    reveal_strlit("added");
    reveal_strlit("body");
    reveal_strlit("canSpeak");
    reveal_strlit("clientMsgId");
    reveal_strlit("code");
    reveal_strlit("content");
    reveal_strlit("conversationId");
    reveal_strlit("createdAt");
    reveal_strlit("id");
    reveal_strlit("joinedAt");
    reveal_strlit("lastMessage");
    reveal_strlit("lastReadSeq");
    reveal_strlit("memberIds");
    reveal_strlit("message");
    reveal_strlit("messageId");
    reveal_strlit("muted");
    reveal_strlit("mutedUntil");
    reveal_strlit("name");
    reveal_strlit("notice");
    reveal_strlit("onlyAdminsSpeak");
    reveal_strlit("ownerId");
    reveal_strlit("payload");
    reveal_strlit("pinned");
    reveal_strlit("priority");
    reveal_strlit("read");
    reveal_strlit("replyToId");
    reveal_strlit("requestId");
    reveal_strlit("resource");
    reveal_strlit("role");
    reveal_strlit("senderId");
    reveal_strlit("seq");
    reveal_strlit("state");
    reveal_strlit("status");
    reveal_strlit("targetUsers");
    reveal_strlit("title");
    reveal_strlit("type");
    reveal_strlit("unread");
    reveal_strlit("updatedAt");
    reveal_strlit("url");
    reveal_strlit("userId");
}

/// The texts that stand for types, roles and states.
pub(crate) proof fn lemma_vocabulary()
    ensures
        "admin"@.len() == 5,
        "admin"@[0] == 'a',
        "direct"@.len() == 6,
        "direct"@[0] == 'd',
        "file"@.len() == 4,
        "file"@[0] == 'f',
        "group"@.len() == 5,
        "group"@[0] == 'g',
        "image"@.len() == 5,
        "image"@[0] == 'i',
        "member"@.len() == 6,
        "member"@[0] == 'm',
        "normal"@.len() == 6,
        "normal"@[0] == 'n',
        "owner"@.len() == 5,
        "owner"@[0] == 'o',
        "recalled"@.len() == 8,
        "system"@.len() == 6,
        "system"@[0] == 's',
        "text"@.len() == 4,
        "text"@[0] == 't',
        "video"@.len() == 5,
        "video"@[0] == 'v',
{
    reveal_strlit("admin");
    reveal_strlit("direct");
    reveal_strlit("file");
    reveal_strlit("group");
    reveal_strlit("image");
    reveal_strlit("member");
    reveal_strlit("normal");
    reveal_strlit("owner");
    reveal_strlit("recalled");
    reveal_strlit("system");
    reveal_strlit("text");
    reveal_strlit("video");
}

/// The texts that clients ask for something by.
pub(crate) proof fn lemma_requests()
    ensures
        "ping"@.len() == 4,
        "ping"@[0] == 'p',
        "read"@.len() == 4,
        "read"@[0] == 'r',
        "send_message"@.len() == 12,
        "typing"@.len() == 6,
{
    reveal_strlit("ping");
    reveal_strlit("read");
    reveal_strlit("send_message");
    reveal_strlit("typing");
}

} // verus!
