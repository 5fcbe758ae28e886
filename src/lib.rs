//! Client for the local automation WebSocket of a meeting desktop application.
//!
//! The crate holds the message vocabulary, the exact text encoding of
//! outbound commands, and the connection wrapper's state machine. The socket
//! itself, the handshake and the decoding of inbound JSON are driven by the
//! caller, which hands each outcome back to [`TeamsWebsocket`].

pub mod text;
pub mod messages;
pub mod types;
pub mod websocket;

pub use messages::{
    ClientMessage, ClientMessageParameter, ClientMessageParameterType, MeetingAction,
    MeetingPermissions, MeetingState, MeetingUpdate, ServerMessage,
};
pub use types::AppIdentifiers;
pub use websocket::{ErrorKind, Inbound, TeamsWebsocket, WebsocketError, DEFAULT_ADDRESS};
