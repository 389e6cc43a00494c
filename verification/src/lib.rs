//! Data-access layer for a minimal user CRUD service.
//!
//! The library owns the logic worth specifying: the canonical field list of
//! the user record, construction of the parameterized SQL statements,
//! binding of statement parameters in canonical order, mapping of database
//! rows to records by column-name lookup, classification of query outcomes,
//! and the translation of errors into HTTP-visible replies. The surrounding
//! web server, connection pool and database driver live outside the library
//! and hand it plain values.

pub mod db;
pub mod errors;
pub mod http;
pub mod models;
pub mod sql;
pub mod store;

pub use errors::MyError;
pub use http::handle_echo;
pub use http::HttpReply;
pub use models::DbColumn;
pub use models::DbRow;
pub use models::User;
