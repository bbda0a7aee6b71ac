//! Structured logging core: leveled log events rendered as one-line JSON
//! objects, a per-unit logging context holding the current session, and a
//! set-once application identity.

pub mod json;
pub mod level;
pub mod session;
pub mod timestamp;
pub mod entry;
pub mod context;
pub mod laws;
