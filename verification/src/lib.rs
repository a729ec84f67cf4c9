//! Marshalling and lifecycle rules for audio tag metadata held by a foreign tag engine.
//!
//! The engine is a C library that hands out raw addresses and buffers it expects back. This
//! crate never calls it. Every operation here is an *exchange*: it names the engine call to
//! make, takes the engine's reply, and either names the next call or ends with a typed
//! result. Whoever owns the foreign calls hands them to `engine::run` as one function from
//! call to reply; what is decided in between is decided here, and proved.
//!
//! - `engine`: the calls, the replies, what a run of an exchange is, and the runner.
//! - `text`: text in transport, closed by a terminator, and back.
//! - `error`: the typed failures.
//! - `file`: opening, saving and closing a file.
//! - `ledger`: what the engine has handed out, and the proof that all of it goes back.
//! - `tag`: reading and writing the fields of its tag.

pub mod engine;
pub mod error;
pub mod file;
pub mod ledger;
pub mod tag;
pub mod text;

pub use crate::error::FileError;
pub use crate::file::TagLibFile;
pub use crate::tag::TagLibTag;
