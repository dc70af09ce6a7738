//! Agent/host protocol library: a supervised child process ("agent") that owns
//! a session with an external VR runtime and a parent process ("host") that
//! spawns it, performs an initialization handshake, and consumes a stream of
//! typed events over a length-prefixed binary framing.
//!
//! This crate holds the verified core: the message schema and its codec, the
//! incremental frame decoder, the host supervisor's handshake and steady-state
//! decisions, and the agent loop's tick planning and application-name lookup
//! logic. Process spawning, pipes, timers, and the vendor runtime bindings are
//! left to the surrounding (unverified) binaries.

pub mod agent;
pub mod codec;
pub mod event;
pub mod framing;
pub mod messages;
pub mod supervisor;
pub mod text;
