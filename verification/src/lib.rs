//! Arbitration engine for a two-party state-channel gomoku session.
//!
//! Two players play a 15x15 five-in-a-row game off the ledger and come to the
//! ledger only to checkpoint a co-signed snapshot, to play a single move under
//! the ledger's eyes, or to close a session whose counterpart went silent.
//! Every operation here is executable Rust with a proved contract.
//!
//! - [`board`] and [`win`] read the board buffer and find five in a row.
//! - [`session`] states the rules of one session as mathematics; [`info`]
//!   is the record that follows them, and [`laws`] is what the rules imply.
//! - [`encoding`] lays out the bytes that are hashed and signed; [`runtime`]
//!   is the hash function and the signature scheme that a runtime brings.
//! - [`module`] keeps the sessions and is what callers talk to.

pub mod board;
pub mod bytes;
pub mod encoding;
pub mod info;
pub mod laws;
pub mod module;
pub mod runtime;
pub mod session;
pub mod types;
pub mod win;

pub use board::Color;
pub use info::GomokuInfo;
pub use module::Module;
pub use runtime::{Sr25519Runtime, Trait};
pub use types::{
    AccountId, AppId, AppInitiateRequest, AppState, AppStatus, BlockNumber, Error, ErrorKind,
    Event, Signature, StateKey, StateProof,
};
