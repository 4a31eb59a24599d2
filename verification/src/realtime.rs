//! The real-time channel.

use vstd::prelude::*;

pub mod broadcast;
pub mod commands;
pub mod dialogue;
pub mod hub;
pub mod protocol;
pub mod socket;

pub use broadcast::broadcast_message;
pub use dialogue::handle_client_text;
pub use hub::Hub;
pub use protocol::error_message;

verus! {

/// The query of a request for a connection.
#[derive(Clone, Debug)]
pub struct WsQuery {
    /// The access token.
    pub token: String,
}

} // verus!
