//! Bridge between a Nostr client and an external signer reached over an
//! abstract Unix socket: the wire format, the client's call state machine and
//! the server-side dispatch to the signer callback.

pub mod error;
pub mod address;
pub mod client;
pub mod codec;
pub mod server;
mod outside;
