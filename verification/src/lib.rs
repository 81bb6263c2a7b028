//! Configuration resolution and request dispatch for a command-line tool that
//! pipes text through hosted language models.
//!
//! The crate holds the decisions only: which configuration directory to use,
//! which files to generate, where a credential comes from, how a prompt
//! template is completed with the user's input, what the outbound request
//! looks like and how the provider's answer is read. Reading files, running
//! commands and talking to the network are left to the caller, who hands the
//! results back as plain values or through the two traits `CommandRunner`
//! and `Transport`.
//!
//! Every function is verified against its contract, with these exceptions,
//! all in `document`: reading and writing TOML is done by `toml`, reading
//! JSON and writing a JSON string literal by `serde_json`. Of a string
//! literal the contract says how it is escaped; of the rest it says only
//! that what comes back depends on what was handed in.

pub mod config;
pub mod credential;
pub mod document;
pub mod error;
pub mod request;
pub mod resolve;
pub mod text;
