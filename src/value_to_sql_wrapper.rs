use vstd::prelude::*;
use crate::error::DbError;
use crate::value::{blob_of, encode_blob, FieldModel, FieldValue, SqlModel, SqlValue};

verus! {

/// What a field value is stored as: integers of every width widen losslessly
/// to a 64-bit integer, reals stay reals, text stays text and vectors become
/// blobs.  There is none (`None`) for booleans and other types outside the
/// supported set, for an unsigned value above `i64::MAX`, and for a vector
/// whose number of components is not that of its kind.
pub open spec fn spec_to_sql(v: FieldModel) -> Option<SqlModel> {
    match v {
        FieldModel::I8(x) => Some(SqlModel::Integer(x as i64)),
        FieldModel::I16(x) => Some(SqlModel::Integer(x as i64)),
        FieldModel::I32(x) => Some(SqlModel::Integer(x as i64)),
        FieldModel::I64(x) => Some(SqlModel::Integer(x)),
        FieldModel::U8(x) => Some(SqlModel::Integer(x as i64)),
        FieldModel::U16(x) => Some(SqlModel::Integer(x as i64)),
        FieldModel::U32(x) => Some(SqlModel::Integer(x as i64)),
        FieldModel::U64(x) => if x <= i64::MAX {
            Some(SqlModel::Integer(x as i64))
        } else {
            None
        },
        FieldModel::Real(b) => Some(SqlModel::Real(b)),
        FieldModel::Text(s) => Some(SqlModel::Text(s)),
        FieldModel::Vector(k, ws) => if ws.len() == k.spec_components() {
            Some(SqlModel::Blob(blob_of(ws)))
        } else {
            None
        },
        FieldModel::Bool(_) | FieldModel::Unsupported => None,
    }
}

/// Why a field value has no storage value: an unsigned value too large for
/// a 64-bit signed integer is out of range; anything else is an unsupported
/// type.  Both carry the field's type name.
pub open spec fn to_sql_error(v: FieldModel, field_type: String) -> DbError {
    match v {
        FieldModel::U64(_) => DbError::OutOfRange(field_type),
        _ => DbError::UnsupportedType(field_type),
    }
}

/// One field of one record, ready to be bound as a statement parameter.
pub struct ValueWrapper {
    /// Name of the field's declared type, for error reports.
    pub field_type: String,
    pub value: FieldValue,
}

impl ValueWrapper {
    pub fn build(value: FieldValue, field_type: &str) -> (r: Self)
        ensures
            r.value == value,
            r.field_type@ == field_type@,
    {
        ValueWrapper { field_type: field_type.to_owned(), value }
    }

    /// The storage value of the wrapped field.  A field of a type outside the
    /// supported set, or a vector with the wrong number of components, gives
    /// `UnsupportedType`; an unsigned value above `i64::MAX` gives
    /// `OutOfRange`; both with the type's name.
    pub fn to_sql(&self) -> (r: Result<SqlValue, DbError>)
        ensures
            match spec_to_sql(self.value@) {
                Some(m) => r matches Ok(x) && x@ == m,
                None => r == Err::<SqlValue, DbError>(to_sql_error(self.value@, self.field_type)),
            },
    {
        match &self.value {
            FieldValue::I8(x) => Ok(SqlValue::Integer(*x as i64)),
            FieldValue::I16(x) => Ok(SqlValue::Integer(*x as i64)),
            FieldValue::I32(x) => Ok(SqlValue::Integer(*x as i64)),
            FieldValue::I64(x) => Ok(SqlValue::Integer(*x)),
            FieldValue::U8(x) => Ok(SqlValue::Integer(*x as i64)),
            FieldValue::U16(x) => Ok(SqlValue::Integer(*x as i64)),
            FieldValue::U32(x) => Ok(SqlValue::Integer(*x as i64)),
            FieldValue::U64(x) => if *x <= 9223372036854775807u64 {
                Ok(SqlValue::Integer(*x as i64))
            } else {
                Err(DbError::OutOfRange(self.field_type.clone()))
            },
            FieldValue::Real(b) => Ok(SqlValue::Real(*b)),
            FieldValue::Text(s) => Ok(SqlValue::Text(s.clone())),
            FieldValue::Vector(k, ws) => if ws.len() == k.components() {
                Ok(SqlValue::Blob(encode_blob(ws)))
            } else {
                Err(DbError::UnsupportedType(self.field_type.clone()))
            },
            FieldValue::Bool(_) | FieldValue::Unsupported => Err(DbError::UnsupportedType(self.field_type.clone())),
        }
    }
}

} // verus!
