//! A liveness endpoint and the rules of a bounded graceful shutdown.
//!
//! The crate holds the decisions of a small HTTP server, free of any I/O:
//!
//! * [`dispatch`] maps a request line (method and path) to the reply it gets;
//! * [`Coordinator`] is the shutdown state machine: it is fed signals, timer
//!   wake-ups and the listener's reports, each stamped with a monotonic time in
//!   milliseconds, and answers with the actions the server has to perform.
//!
//! Every function carries a contract that Verus checks.

pub mod config;
pub mod routes;
pub mod shutdown;
pub mod text;
pub mod trace;

pub use config::{ServerConfig, DEFAULT_GRACE_MS, DEFAULT_PORT};
pub use routes::{dispatch, health_check, not_found, Reply, ReplyView, STATUS_NOT_FOUND, STATUS_OK};
pub use shutdown::{Action, Coordinator, Event, Machine, Phase, Signal};
pub use text::str_eq;
pub use trace::Stamped;
