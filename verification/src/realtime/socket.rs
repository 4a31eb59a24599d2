//! What becomes of what comes in over a connection.

use vstd::prelude::*;

verus! {

/// What comes in over a connection.
#[derive(Debug)]
pub enum Frame {
    /// A text from the client.
    Text(String),
    /// The client closes the connection.
    Close,
    /// Anything else, such as binary data or a sign of life.
    Other,
    /// The connection is gone or broken.
    Lost,
}

/// What to do next on a connection.
#[derive(Debug)]
pub enum SocketStep {
    /// Carry out what the text asks for, then wait for more.
    Handle(String),
    /// Wait for more.
    Wait,
    /// Stop listening and close the connection on this side.
    Leave,
}

/// What to do next on a connection: texts are carried out, a close or a loss ends it, and
/// everything else is passed over.
pub open spec fn frame_step(frame: Frame) -> SocketStep {
    match frame {
        Frame::Text(text) => SocketStep::Handle(text),
        Frame::Other => SocketStep::Wait,
        Frame::Close | Frame::Lost => SocketStep::Leave,
    }
}

/// What to do next on a connection.
pub fn on_frame(frame: Frame) -> (r: SocketStep)
    ensures
        r == frame_step(frame),
{
    match frame {
        Frame::Text(text) => SocketStep::Handle(text),
        Frame::Other => SocketStep::Wait,
        Frame::Close | Frame::Lost => SocketStep::Leave,
    }
}

} // verus!
