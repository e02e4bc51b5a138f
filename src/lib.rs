//! Request/response engine for a remote private-key operation protocol:
//! the action model, the wire codec, the multiplexing pending table, the
//! simplex channel, the connection pool cursor, the local reference
//! engine used to check returned results with the key fingerprint that
//! names a key, and the set-once backend configuration.

pub mod action;
pub mod codec;
pub mod config;
pub mod fingerprint;
pub mod pending;
pub mod pool;
pub mod reference;
pub mod simplex;
pub mod target;
