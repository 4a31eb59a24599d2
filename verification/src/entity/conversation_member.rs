//! Members of conversations.

use vstd::prelude::*;

use crate::clock::Timestamp;
use crate::ids::Id;
use crate::text::same_text;

verus! {

/// Role: owner of the group.
pub const ROLE_OWNER: &'static str = "owner";

/// Role: administrator.
pub const ROLE_ADMIN: &'static str = "admin";

/// Role: ordinary member.
pub const ROLE_MEMBER: &'static str = "member";

/// What a member is in a conversation.
#[derive(Clone, Debug, PartialEq, Eq)]
pub enum Role {
    Owner,
    Admin,
    Member,
    /// A role this crate does not know, by its text.
    Other(String),
}

impl Role {
    /// The text the role is stored and shown as.
    pub open spec fn spec_text(self) -> Seq<char> {
        match self {
            Role::Owner => ROLE_OWNER@,
            Role::Admin => ROLE_ADMIN@,
            Role::Member => ROLE_MEMBER@,
            Role::Other(text) => text@,
        }
    }

    /// Whether the role may manage the group: owner or administrator.
    pub open spec fn spec_manages(self) -> bool {
        self is Owner || self is Admin
    }

    /// The role that a text stands for.
    pub open spec fn of(text: String) -> Role {
        if text@ == ROLE_OWNER@ {
            Role::Owner
        } else if text@ == ROLE_ADMIN@ {
            Role::Admin
        } else if text@ == ROLE_MEMBER@ {
            Role::Member
        } else {
            Role::Other(text)
        }
    }

    /// The role that a text stands for.
    pub fn from_text(text: String) -> (r: Role)
        ensures
            r == Role::of(text),
            r.spec_text() == text@,
    {
        if same_text(text.as_str(), ROLE_OWNER) {
            Role::Owner
        } else if same_text(text.as_str(), ROLE_ADMIN) {
            Role::Admin
        } else if same_text(text.as_str(), ROLE_MEMBER) {
            Role::Member
        } else {
            Role::Other(text)
        }
    }

    /// The text the role is stored and shown as.
    pub fn as_text(&self) -> (r: &str)
        ensures
            r@ == self.spec_text(),
    {
        match self {
            Role::Owner => ROLE_OWNER,
            Role::Admin => ROLE_ADMIN,
            Role::Member => ROLE_MEMBER,
            Role::Other(text) => text.as_str(),
        }
    }

    /// Whether the role may manage the group: owner or administrator.
    pub fn manages(&self) -> (r: bool)
        ensures
            r == self.spec_manages(),
    {
        match self {
            Role::Owner | Role::Admin => true,
            _ => false,
        }
    }
}

/// A user's membership in a conversation. There is one row per conversation and user, kept when
/// the user leaves.
#[derive(Clone, Debug, PartialEq, Eq)]
pub struct Model {
    /// The conversation.
    pub conversation_id: Id,
    /// The user.
    pub user_id: Id,
    pub role: Role,
    /// Everything up to this sequence number has been read.
    pub last_read_seq: i64,
    /// Until when the member may not speak.
    pub muted_until: Option<Timestamp>,
    /// Whether the member may speak where only administrators may.
    pub can_speak: bool,
    /// Whether the member silenced the conversation for themselves.
    pub muted: bool,
    /// Whether the member pinned the conversation.
    pub pinned: bool,
    pub joined_at: Timestamp,
    /// When the member left or was removed; nothing while the membership is active.
    pub left_at: Option<Timestamp>,
}

impl View for Model {
    type V = Model;

    open spec fn view(&self) -> Model {
        *self
    }
}

} // verus!
