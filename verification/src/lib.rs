//! Request orchestration for translating DNCL pseudocode into Rust through a
//! remote completion service.
//!
//! The library turns an invocation into a normalized request (`request`),
//! gives the request a stable key (`fingerprint`), decides what the response
//! cache holds for it (`cache`), builds the call to the service and reads the
//! answer out of its reply (`client`, `json`), takes the code out of the
//! answer (`extract`), and ties these together in a machine that is driven
//! step by step (`transpile`). The list of the service's models is handled in
//! `models`. What holds of all this together is proved in `laws`.
//!
//! The library reads no file, no variable of the process and no socket: its
//! caller does, and hands over what that brought.

pub mod cache;
pub mod client;
pub mod extract;
pub mod fingerprint;
pub mod json;
pub mod laws;
pub mod models;
pub mod request;
pub mod text;
pub mod transpile;
