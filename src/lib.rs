//! A mail-relay gateway's core: the framed, versioned protocol spoken to the
//! local vault daemon, the client-side decisions around one exchange with it,
//! the per-connection lifecycle of the TLS front end, and the body-level
//! replies of the HTTP handlers.
pub mod envelope;
pub mod frame;
pub mod json;
pub mod keys;
pub mod reply;
pub mod server;
pub mod vault;
