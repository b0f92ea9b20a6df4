//! Query accessors for record types stored in a partitioned key-value table.
//!
//! A record type declares the table it lives in, the table's primary key and
//! any secondary indexes. From the entries of that declaration this crate
//! reads a validated [`schema::Schema`], derives one [`query::Operation`] per
//! key and collects them into the [`accessor::Accessors`] of the record type.
//! Each call of an operation is turned into a [`query::QueryRequest`] that a
//! store client can send.

pub mod accessor;
pub mod entry;
pub mod error;
pub mod fault;
pub mod key;
pub mod laws;
pub mod naming;
pub mod query;
pub mod schema;
pub mod text;
