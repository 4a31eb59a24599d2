//! Conversations.

use vstd::prelude::*;

use crate::clock::Timestamp;
use crate::ids::Id;
use crate::text::same_text;

verus! {

/// Conversation type: between two users.
pub const TYPE_DIRECT: &'static str = "direct";

/// Conversation type: group.
pub const TYPE_GROUP: &'static str = "group";

/// The type of a conversation.
#[derive(Clone, Debug, PartialEq, Eq)]
pub enum Kind {
    Direct,
    Group,
    /// A type this crate does not know, by its text.
    Other(String),
}

impl Kind {
    /// The text the type is stored and shown as.
    pub open spec fn spec_text(self) -> Seq<char> {
        match self {
            Kind::Direct => TYPE_DIRECT@,
            Kind::Group => TYPE_GROUP@,
            Kind::Other(text) => text@,
        }
    }

    /// The type that a text stands for.
    pub open spec fn of(text: String) -> Kind {
        if text@ == TYPE_DIRECT@ {
            Kind::Direct
        } else if text@ == TYPE_GROUP@ {
            Kind::Group
        } else {
            Kind::Other(text)
        }
    }

    /// The type that a text stands for.
    pub fn from_text(text: String) -> (r: Kind)
        ensures
            r == Kind::of(text),
            r.spec_text() == text@,
    {
        if same_text(text.as_str(), TYPE_DIRECT) {
            Kind::Direct
        } else if same_text(text.as_str(), TYPE_GROUP) {
            Kind::Group
        } else {
            Kind::Other(text)
        }
    }

    /// The text the type is stored and shown as.
    pub fn as_text(&self) -> (r: &str)
        ensures
            r@ == self.spec_text(),
    {
        match self {
            Kind::Direct => TYPE_DIRECT,
            Kind::Group => TYPE_GROUP,
            Kind::Other(text) => text.as_str(),
        }
    }
}

/// A conversation.
#[derive(Clone, Debug, PartialEq, Eq)]
pub struct Model {
    /// The conversation.
    pub id: Id,
    /// Direct or group.
    pub kind: Kind,
    /// Name of a group.
    pub name: Option<String>,
    /// Owner of a group.
    pub owner_id: Option<Id>,
    /// Notice of a group.
    pub notice: Option<String>,
    /// The greatest sequence number given to a message so far.
    pub next_seq: i64,
    /// Whether only administrators, and members allowed to, may speak.
    pub only_admins_speak: bool,
    pub created_at: Timestamp,
    /// When it last changed; lists of conversations are ordered by it.
    pub updated_at: Timestamp,
}

impl View for Model {
    type V = Model;

    open spec fn view(&self) -> Model {
        *self
    }
}

} // verus!
