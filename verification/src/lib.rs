//! Encrypts a folder into one password-protected archive and decrypts such an
//! archive into a folder again, by means of the tools that the platform has:
//! `tar` and `openssl`, or `7z`.
//!
//! The library decides; it runs nothing. A job is a [`Pipeline`]: it says what
//! is to be done next ([`Pipeline::pending`]) and is told what came of it
//! ([`Pipeline::advance`]), until it has a result. The caller runs the tools
//! and touches the files.

pub mod backend;
pub mod command;
pub mod laws;
pub mod machine;
pub mod naming;
pub mod naming_laws;
pub mod outcome;
pub mod path;
pub mod pipeline;
pub mod text;

pub use backend::{select_backend, Backend, Mode};
pub use command::Invocation;
pub use machine::SourceKind;
pub use outcome::{ErrorKind, Failure, Stage};
pub use pipeline::{decrypt_folder, encrypt_folder, Action, Event, Pipeline};
