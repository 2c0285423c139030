//! A minimal read-only query service over in-memory user records.
//!
//! The library holds the query-resolution core: the user record model, the
//! in-memory data store, and the query resolver that answers the two
//! supported operations (look up one user by identifier, or fetch the whole
//! collection). Transport concerns live outside the library.

pub mod db;
pub mod query_engine;
pub mod user_service;
