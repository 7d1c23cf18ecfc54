use vstd::prelude::*;

verus! {

/// Errors reported by the database layer.  Each carries a human-readable detail.
#[derive(Debug, Clone, PartialEq, Eq)]
pub enum DbError {
    /// Opening or closing the connection failed.
    Connection(String),
    /// An operation needed an open connection and none was held.
    NotConnected,
    /// A statement could not be compiled, or its parameters did not match.
    QueryCompile(String),
    /// The engine failed while running a statement, or a value read back
    /// does not fit its column's declared type: the wrong storage class, an
    /// integer outside the column's width, or NULL in a `NOT NULL` column.
    /// A read failure carries the column name.
    QueryExecution(String),
    /// An unsigned field value with no lossless 64-bit signed
    /// representation; carries the field's type name.
    OutOfRange(String),
    /// A field or column type outside the supported closed set; carries the
    /// name of the offending column or field.
    UnsupportedType(String),
    /// A bit width outside the set allowed for its SQL type; carries the
    /// name of the offending column.
    InvalidWidth(String),
}

} // verus!
