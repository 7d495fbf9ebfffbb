//! Session core of a client for a push-style queue coordination service.
//!
//! The library holds the logic of the session: the mirrored queue state, the
//! correlation of requests and responses, the wire format of commands and
//! notifications, and the supervisor that decides when to connect, reconnect
//! and fail pending callers. Network I/O and timers are left to the caller,
//! which feeds events in and performs the actions that come back.

pub mod json;
pub mod text;
pub mod queue;
pub mod protocol;
pub mod correlator;
pub mod mirror;
pub mod session;
pub mod settings;
pub mod new_queue;
