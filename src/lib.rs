//! A local cache that avoids uploading the same document twice to a remote,
//! ephemeral file store: content-addressed records, expiry with a safety
//! margin, remote verification and the two-step upload handshake.

pub mod text;
pub mod hex;
pub mod digest;
pub mod record;
pub mod store;
pub mod remote;
pub mod llm;
pub mod coordinator;
pub mod extract;
pub mod parts;
