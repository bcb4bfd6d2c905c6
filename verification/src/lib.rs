//! Job supervision and enrollment-protocol engine for a sports-lesson
//! registration assistant.
//!
//! The library holds the verified core: identifier validation, the lesson
//! metadata model, the per-target enrollment state machine (watch and
//! register modes, with weekly chaining), and the supervisor that tracks,
//! lists, cancels and relaunches jobs per operator.  All remote I/O (HTTP,
//! the chat transport, the credential exchange) lives outside; it feeds the
//! machines here with plain events and performs the actions they request.

pub mod api;
pub mod clock;
pub mod cmd;
pub mod ids;
pub mod laws;
pub mod outcome;
pub mod protocol;
pub mod retry;
pub mod scan;
pub mod supervisor;
pub mod text;
pub mod users;
