//! CheSSH: a multiplayer chess game served over SSH.
//!
//! This crate holds the rules of the service: chess games and their
//! results, matchmaking, the per-player session state, the game archive, the
//! terminal user interface state machine and what each screen shows.
//! Networking, writing to terminals and file access live in the application
//! that embeds the library.

pub mod chess;
pub mod engine;
pub mod text;
pub mod server;
pub mod ssh;
pub mod storage;
pub mod ui;
