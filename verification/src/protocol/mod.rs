//! The Sendspin protocol, client side.

/// Builder exposed for public usage of the library
pub mod client_builder;
/// Messages of the handshake
pub mod messages;

pub use client_builder::ProtocolClientBuilder;
