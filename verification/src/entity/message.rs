//! Messages.

use serde_json::Value;
use vstd::prelude::*;

use crate::clock::Timestamp;
use crate::ids::Id;
use crate::text::same_text;

verus! {

/// Message type: text.
pub const TYPE_TEXT: &'static str = "text";

/// Message type: image.
pub const TYPE_IMAGE: &'static str = "image";

/// Message type: video.
pub const TYPE_VIDEO: &'static str = "video";

/// Message type: file.
pub const TYPE_FILE: &'static str = "file";

/// Message type: written by the system.
pub const TYPE_SYSTEM: &'static str = "system";

/// Status of a message as sent.
pub const STATUS_NORMAL: &'static str = "normal";

/// Status of a message that was taken back.
pub const STATUS_RECALLED: &'static str = "recalled";

/// The status of a message.
#[derive(Clone, Debug, PartialEq, Eq)]
pub enum Status {
    Normal,
    Recalled,
    /// A status this crate does not know, by its text.
    Other(String),
}

impl Status {
    /// The text the status is stored and shown as.
    pub open spec fn spec_text(self) -> Seq<char> {
        match self {
            Status::Normal => STATUS_NORMAL@,
            Status::Recalled => STATUS_RECALLED@,
            Status::Other(text) => text@,
        }
    }

    /// The status that a text stands for.
    pub open spec fn of(text: String) -> Status {
        if text@ == STATUS_NORMAL@ {
            Status::Normal
        } else if text@ == STATUS_RECALLED@ {
            Status::Recalled
        } else {
            Status::Other(text)
        }
    }

    /// The status that a text stands for.
    pub fn from_text(text: String) -> (r: Status)
        ensures
            r == Status::of(text),
            r.spec_text() == text@,
    {
        if same_text(text.as_str(), STATUS_NORMAL) {
            Status::Normal
        } else if same_text(text.as_str(), STATUS_RECALLED) {
            Status::Recalled
        } else {
            Status::Other(text)
        }
    }

    /// The text the status is stored and shown as.
    pub fn as_text(&self) -> (r: &str)
        ensures
            r@ == self.spec_text(),
    {
        match self {
            Status::Normal => STATUS_NORMAL,
            Status::Recalled => STATUS_RECALLED,
            Status::Other(text) => text.as_str(),
        }
    }
}

/// A message.
#[derive(Clone, Debug, PartialEq, Eq)]
pub struct Model {
    /// The message.
    pub id: Id,
    /// The conversation it was sent to.
    pub conversation_id: Id,
    /// Its place in the conversation.
    pub seq: i64,
    /// Who sent it; nobody for a system message.
    pub sender_id: Option<Id>,
    /// The message type.
    pub kind: String,
    /// The content, in a form that depends on the type.
    pub content: Value,
    /// The message it replies to.
    pub reply_to_id: Option<Id>,
    /// The sender's own identifier for it, by which a repeated send is recognised.
    pub client_msg_id: Option<String>,
    pub status: Status,
    /// When it was taken back.
    pub recalled_at: Option<Timestamp>,
    pub created_at: Timestamp,
}

impl View for Model {
    type V = Model;

    open spec fn view(&self) -> Model {
        *self
    }
}

} // verus!
