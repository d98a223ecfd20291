//! A supervised connection-manager actor for a key-value store: the aggregate
//! that tracks the connection's state, the per-message decisions of its loop,
//! and the configuration merge used when its supervisor is built.

pub mod aggregate;
pub mod protocol;
pub mod config;
