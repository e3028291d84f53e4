//! Request dispatch for a GraphQL endpoint.
//!
//! A request is decoded into one operation or a batch of operations
//! ([`decode`], [`operation`]), its operations are handed out for execution
//! one at a time and their results taken back ([`dispatch`], [`execution`]),
//! and the results are encoded as the response ([`response`]). The execution
//! itself is not part of this library: whoever drives the dispatcher runs
//! the operations against a schema. The resolvers of the schema that this
//! endpoint serves, and the store behind them, are in [`schema`] and
//! [`database`]; the pages of the interactive consoles are in [`console`].
//!
//! Executable functions state what they return over views of their
//! arguments, and the laws that hold between them are proof functions next
//! to them. Calls into `serde_json`, `actix_web` and `juniper` carry
//! contracts that are taken on trust; they are marked as such where they
//! stand, in [`json`], [`decode`] and [`console`].

pub mod assoc;
pub mod console;
pub mod database;
pub mod decimal;
pub mod decode;
pub mod dispatch;
pub mod execution;
pub mod json;
pub mod operation;
pub mod response;
pub mod schema;
