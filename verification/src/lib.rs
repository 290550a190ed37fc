//! A small service that creates, lists, updates and deletes user records over
//! a reduced HTTP.
//!
//! A request arrives as bytes. It is decoded, routed by its method and the
//! start of its path to one of four operations, and the operation hands the
//! record store one statement with bound parameters. What the store answers
//! becomes an outcome, and the outcome a response: a status line and a body.
//!
//! What is decided here is verified: how a request is read, where it is
//! routed, which statement goes to the store with which parameters, how the
//! list of users is laid out and which response answers which outcome. The
//! record store is SQLite and the JSON codec is `serde_json`. Each call into
//! them, and one into std, stands in a function of its own, marked as trusted
//! where it is declared, with what is believed of it written above it.
//!
//! - `text`: searching in texts
//! - `decimal`: integers in base ten
//! - `request`: what a request says
//! - `user`: the user record
//! - `json`: the body of a request and the list in a response
//! - `store`: commands and the record store
//! - `service`: the operations, the router and the responses
//! - `connection`: the life of a connection
//! - `laws`: what holds of the service as a whole

pub mod text;
pub mod decimal;
pub mod request;
pub mod user;
pub mod json;
pub mod store;
pub mod service;
pub mod connection;
pub mod laws;
