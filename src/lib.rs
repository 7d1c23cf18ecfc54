//! Schema-driven marshaling between typed record fields and SQLite rows.
//!
//! The library holds the logic of a small object/relational layer: table
//! definitions and the DDL generated from them, the conversion of field
//! values into storage values and back, and the bookkeeping of the single
//! database connection.  Performing the actual SQLite calls is left to the
//! caller, which hands plain values in and out.
pub mod database;
pub mod ddl;
pub mod error;
pub mod materialize;
pub mod sql_type;
pub mod sqlite_connection_settings;
pub mod table_definition;
pub mod text;
pub mod value;
pub mod value_to_sql_wrapper;
