//! Mirrors the state of a running Xcode as a Discord rich presence.
//!
//! The library holds the decisions of the presence daemon: how the raw
//! answers of the system's scripting bridge are read, when the elapsed-time
//! anchor of a session restarts, which payload is shown, and what the
//! synchronisation loop does next after each outcome of the outside world.
pub mod text;
pub mod probe;
pub mod clock;
pub mod session;
pub mod presence;
pub mod connection;
pub mod sync_loop;
