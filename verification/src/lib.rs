//! Client-side protocol logic for components that plug into the Aegis
//! orchestrator: the wire vocabulary, message construction, the decisions
//! taken on every incoming message, the reconnect policy and the data-stream
//! handshake.

pub mod component;
pub mod config;
pub mod data_stream;
pub mod error;
pub mod json;
pub mod protocol;
pub mod text;

pub use component::{Effect, Incoming, Reconnect, RunDecision};
pub use config::{Config, Delay};
pub use data_stream::{HandshakeResponse, StreamMessage};
pub use error::{AegisError, Result};
pub use json::{Json, Number, Payload};
pub use protocol::{Command, ComponentState, Envelope, MessageType, PROTOCOL_VERSION};
