//! A bidirectional value bridge between a template engine and a dynamic host
//! runtime, together with the peripheral pieces around it: a per-thread
//! last-error slot consumed by a C-style polling API, and an intern cache for
//! custom autoescape tokens.

pub mod autoescape;
pub mod bridge;
pub mod channel;
pub mod error;
pub mod pyffi;
pub mod value;
