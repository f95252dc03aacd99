//! Core of a bridge that relays text messages from a PotatoMesh mesh-radio
//! API into a Matrix room through per-node puppet accounts.
//!
//! Everything here is pure: the checkpoint state machine that decides which
//! upstream messages are still owed, the fetch planner, the puppet identity
//! mapping, the message formatter, endpoint URL construction and inbound
//! callback authentication. Network and file I/O live with the caller.

pub mod config;
pub mod cli;
pub mod potatomesh;
pub mod checkpoint;
pub mod planner;
pub mod text;
pub mod puppet;
pub mod formatter;
pub mod auth;
pub mod endpoints;
pub mod forwarding;
