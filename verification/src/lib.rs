//! Dates backend: the verified core of a small palm-tree game server.
//!
//! The library holds the request and response types of the HTTP API, the
//! construction of the session tokens it hands out (HS256 JSON web tokens),
//! and the decisions of every request handler, written as state machines that
//! the server drives: the server performs the database and hashing work that a
//! handler asks for and feeds the outcome back.

pub mod laws;
pub mod models;
pub mod routes;
pub mod text;
pub mod token_laws;
pub mod utilities;
