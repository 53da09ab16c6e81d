//! A todo list served over HTTP, with the decisions of the service verified.
//!
//! The table that holds the todos is kept by a database, outside this
//! library, and so is the network. The library decides: what to ask of the
//! table for each request, what to make of its answers, and which status and
//! body go back to the client. The program around it decodes the requests,
//! puts the library's queries to the database and sends the library's
//! responses.
//!
//! - [`entity`]: the todo record and the payload that creates or replaces one.
//! - [`service`]: the five operations, each as a conversation with the table.
//! - [`handler`]: the five HTTP operations, from request to status and body.
//! - [`table`]: the behaviour of the table that the service relies on.
//! - [`operation`]: what each operation comes to on such a table.
//! - [`guarantees`]: what a client may count on, request by request.
//! - [`config`]: the settings that have a default.

pub mod config;
pub mod entity;
pub mod guarantees;
pub mod handler;
pub mod operation;
pub mod service;
pub mod table;
