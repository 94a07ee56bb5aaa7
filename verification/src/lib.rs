//! The logic of a bridge between a messaging client and the Signal protocol.
//!
//! The bridge hands out key and message types, in-memory stores and protocol
//! operations. This crate decides: which input is accepted, what a store holds
//! after each operation, which error reaches the caller and under which code.
//! What only the protocol implementation can compute (curve and KEM keys,
//! ratchets, record encodings) comes in as a function. Every contract says what
//! that function is handed, and what becomes of each outcome.
//!
//! Device ids are used only in [`address::WasmProtocolAddress`]; identities
//! need none. Stores are first-class values that the operations take explicitly.

pub mod address;
pub mod error;
pub mod fingerprint;
pub mod group_messages;
pub mod groups;
pub mod identity_store;
pub mod ids;
pub mod keys;
pub mod laws;
pub mod messages;
pub mod outside;
pub mod pre_key_stores;
pub mod pre_keys;
pub mod random;
pub mod sender_keys;
pub mod session_store;
pub mod table;
pub mod text;
