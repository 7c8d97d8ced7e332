pub mod session;
pub mod session_runner;

pub mod auth;
pub mod host_key;

pub use auth::{AuthHandler, AuthReply};
pub use session::{Session, SessionEvent, SessionId, TerminalSize};
