//! Server side of the WebSocket opening handshake over hyper: header token
//! matching, upgrade detection, the handshake negotiation and the one-shot
//! resolution of a pending upgrade into a raw connection.
pub mod handshake;
pub mod headers;
pub mod pending;
pub mod token;

pub use handshake::{negotiate, upgrade, ProtocolError, SwitchingResponse};
pub use headers::is_upgrade_request;
pub use pending::{HyperWebsocket, UpgradeState};
pub use token::{
    bytes_eq_ignore_case, header_contains_value, trim, trim_end, trim_start, value_contains_token,
};

pub use hyper;
pub use tokio_tungstenite::WebSocketStream;
pub use tungstenite;
