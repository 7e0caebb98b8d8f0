//! A small message board: URL-encoded posts are decoded into new messages,
//! listings are filtered by an optional time window and rendered as HTML, and
//! every outcome becomes a response with an exact content length.
pub mod database;
pub mod functions;
pub mod laws;
pub mod microservice;
pub mod models;
pub mod response;
pub mod text;
