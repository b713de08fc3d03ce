//! Events handed to the engine by the connection facade, and their
//! classification into immediate and deferred processing.

use vstd::prelude::*;

verus! {

/// The state of the connection facade, as it reports it.
#[derive(Clone, Copy, Debug, PartialEq, Eq, Structural)]
pub enum ConnectionState {
    Disconnected,
    Connecting,
    Connected,
}

/// An event produced by the connection facade during a poll.
#[derive(Clone, Debug)]
pub enum InboundEvent {
    /// The connection finished its handshake.
    Connected,
    /// The connection reported an error. A fatal error means the link
    /// dropped; `refused` marks the specific case of the server not
    /// accepting the connection at all.
    ConnectionError { fatal: bool, refused: bool, message: String },
    /// A text message from the server to show the player.
    LogMessage { message: String },
    /// Another item was assigned to this player.
    ItemReceived { sequence_index: u64, item_identity: i64, source_location_name: String },
    /// Another session's player died with death link active.
    PeerDeathLink { source_name: String, timestamp: u64 },
}

/// Whether an event is processed immediately during the always-phase, rather
/// than deferred until the player is in an active save.
pub open spec fn is_immediate(e: InboundEvent) -> bool {
    match e {
        InboundEvent::Connected => true,
        InboundEvent::ConnectionError { .. } => true,
        InboundEvent::LogMessage { .. } => true,
        InboundEvent::ItemReceived { .. } => false,
        InboundEvent::PeerDeathLink { .. } => false,
    }
}

/// Whether an event is a fatal connection error.
pub open spec fn is_fatal_error(e: InboundEvent) -> bool {
    match e {
        InboundEvent::ConnectionError { fatal, .. } => fatal,
        _ => false,
    }
}

} // verus!
