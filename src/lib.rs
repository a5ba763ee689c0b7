//! A TLS-terminated HTTP server bootstrap: credential loading, admission
//! control configuration, a fluent server builder, and the startup state
//! machine that decides what the runtime does next.

pub mod admission;
pub mod api;
pub mod runtime;
pub mod tls;
