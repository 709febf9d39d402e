//! Failure classification and retry guidance for a voice-channel join/leave
//! handshake driven over a third-party chat gateway.
//!
//! A caller asks to join or leave a guild's voice channel. The request is
//! validated, a voice-state command is sent over one of several gateway
//! transports, the gateway's confirmation is awaited under a deadline, and the
//! media driver then establishes the low-level connection. Every way this can
//! fail is normalised into the [`error::JoinError`] taxonomy, and two policy
//! predicates tell the caller whether an explicit leave must precede a retry
//! and whether the driver connection alone may be retried.
//!
//! The handshake's control flow itself is the [`session`] module: a pure
//! state machine stepped by the surrounding (asynchronous, unverified)
//! orchestration code.

mod backend;
pub mod error;
pub mod session;

pub use error::ConnectionError;
pub use error::JoinError;
pub use error::JoinResult;
