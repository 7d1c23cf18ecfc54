use vstd::prelude::*;
use crate::database::SqliteDatabase;
use crate::error::DbError;
use crate::sql_type::{valid_float_width, valid_int_width, FieldKind, SqlType};
use crate::table_definition::{spec_find_column, ColumnDefinition, TableDefinition};
use crate::value::{decode_blob, lemma_blob_round_trip, words_of, FieldModel, FieldValue, SqlModel, SqlValue};
use crate::value_to_sql_wrapper::{spec_to_sql, to_sql_error};

verus! {

/// A value read from one column, as it is to be set on its field: a
/// nullable column gives an optional value.
#[derive(Debug, Clone, PartialEq)]
pub enum StagedValue {
    Plain(FieldValue),
    Optional(Option<FieldValue>),
}

pub enum StagedModel {
    Plain(FieldModel),
    Optional(Option<FieldModel>),
}

impl View for StagedValue {
    type V = StagedModel;

    open spec fn view(&self) -> StagedModel {
        match self {
            StagedValue::Plain(v) => StagedModel::Plain(v@),
            StagedValue::Optional(Some(v)) => StagedModel::Optional(Some(v@)),
            StagedValue::Optional(None) => StagedModel::Optional(None),
        }
    }
}

/// Whether a column of this type is declared `NOT NULL`.
pub open spec fn is_not_null(t: SqlType) -> bool {
    match t {
        SqlType::Integer(_, nn) | SqlType::UnsignedInteger(_, nn) | SqlType::Float(_, nn) => nn,
        SqlType::Text(nn) | SqlType::Date(nn) | SqlType::Time(nn) | SqlType::DateTime(nn) => nn,
        SqlType::Blob(nn) | SqlType::Boolean(nn) => nn,
        SqlType::OneToOne(_, nn) | SqlType::ManyToMany(_, nn) => nn,
    }
}

/// Why values of this column cannot be read at all, if they cannot: a width
/// outside its set, a reserved type, or a blob column whose field is not a
/// vector.
pub open spec fn read_config_error(col: ColumnDefinition) -> Option<DbError> {
    match col.sql_type {
        SqlType::Integer(w, _) | SqlType::UnsignedInteger(w, _) => if valid_int_width(w) {
            None
        } else {
            Some(DbError::InvalidWidth(col.sql_name))
        },
        SqlType::Float(w, _) => if valid_float_width(w) {
            None
        } else {
            Some(DbError::InvalidWidth(col.sql_name))
        },
        SqlType::Text(_) | SqlType::Boolean(_) => None,
        SqlType::Blob(_) => match col.field_kind {
            FieldKind::Vector(_) => None,
            _ => Some(DbError::UnsupportedType(col.rust_name)),
        },
        _ => Some(DbError::UnsupportedType(col.sql_name)),
    }
}

/// An integer read at a signed width, if it fits.
pub open spec fn signed_at(w: u8, i: i64) -> Option<FieldModel> {
    if w == 8 {
        if i8::MIN <= i <= i8::MAX { Some(FieldModel::I8(i as i8)) } else { None }
    } else if w == 16 {
        if i16::MIN <= i <= i16::MAX { Some(FieldModel::I16(i as i16)) } else { None }
    } else if w == 32 {
        if i32::MIN <= i <= i32::MAX { Some(FieldModel::I32(i as i32)) } else { None }
    } else {
        Some(FieldModel::I64(i))
    }
}

/// An integer read at an unsigned width, if it fits.
pub open spec fn unsigned_at(w: u8, i: i64) -> Option<FieldModel> {
    if i < 0 {
        None
    } else if w == 8 {
        if i <= u8::MAX { Some(FieldModel::U8(i as u8)) } else { None }
    } else if w == 16 {
        if i <= u16::MAX { Some(FieldModel::U16(i as u16)) } else { None }
    } else if w == 32 {
        if i <= u32::MAX { Some(FieldModel::U32(i as u32)) } else { None }
    } else {
        Some(FieldModel::U64(i as u64))
    }
}

/// A non-null value of a readable column, read at the column's type.
pub open spec fn read_field(col: ColumnDefinition, raw: SqlModel) -> Result<FieldModel, DbError> {
    let bad = Err(DbError::QueryExecution(col.sql_name));
    match (col.sql_type, raw) {
        (SqlType::Integer(w, _), SqlModel::Integer(i)) => match signed_at(w, i) {
            Some(v) => Ok(v),
            None => Err(DbError::QueryExecution(col.sql_name)),
        },
        (SqlType::UnsignedInteger(w, _), SqlModel::Integer(i)) => match unsigned_at(w, i) {
            Some(v) => Ok(v),
            None => Err(DbError::QueryExecution(col.sql_name)),
        },
        (SqlType::Float(_, _), SqlModel::Real(b)) => Ok(FieldModel::Real(b)),
        (SqlType::Text(_), SqlModel::Text(s)) => Ok(FieldModel::Text(s)),
        (SqlType::Boolean(_), SqlModel::Integer(i)) => Ok(FieldModel::Bool(i != 0)),
        (SqlType::Blob(_), SqlModel::Blob(b)) => match col.field_kind {
            FieldKind::Vector(k) => if b.len() == 4 * k.spec_components() {
                Ok(FieldModel::Vector(k, words_of(b, k.spec_components())))
            } else {
                bad
            },
            _ => bad,
        },
        _ => bad,
    }
}

/// The value of one column as it is set on its field.
pub open spec fn read_column(col: ColumnDefinition, raw: SqlModel) -> Result<StagedModel, DbError> {
    match read_config_error(col) {
        Some(e) => Err(e),
        None => if is_not_null(col.sql_type) {
            match read_field(col, raw) {
                Ok(v) => Ok(StagedModel::Plain(v)),
                Err(e) => Err(e),
            }
        } else if raw is Null {
            Ok(StagedModel::Optional(None))
        } else {
            match read_field(col, raw) {
                Ok(v) => Ok(StagedModel::Optional(Some(v))),
                Err(e) => Err(e),
            }
        },
    }
}

/// The field assignments for one result row: for each result column that
/// the table defines, in result order, the field name and the value read;
/// result columns that the table does not define are skipped.
pub open spec fn read_row_spec(
    cols: Seq<ColumnDefinition>,
    names: Seq<Seq<char>>,
    row: Seq<SqlModel>,
) -> Result<Seq<(Seq<char>, StagedModel)>, DbError>
    decreases names.len(),
{
    if names.len() == 0 || row.len() == 0 {
        Ok(Seq::empty())
    } else {
        match read_row_spec(cols, names.drop_last(), row.drop_last()) {
            Err(e) => Err(e),
            Ok(prev) => match spec_find_column(cols, names.last()) {
                None => Ok(prev),
                Some(ci) => match read_column(cols[ci], row.last()) {
                    Err(e) => Err(e),
                    Ok(v) => Ok(prev.push((cols[ci].rust_name@, v))),
                },
            },
        }
    }
}

pub open spec fn names_view(names: Seq<String>) -> Seq<Seq<char>> {
    names.map_values(|s: String| s@)
}

pub open spec fn row_view(row: Seq<SqlValue>) -> Seq<SqlModel> {
    row.map_values(|v: SqlValue| v@)
}

pub open spec fn staged_view(st: Seq<(String, StagedValue)>) -> Seq<(Seq<char>, StagedModel)> {
    st.map_values(|p: (String, StagedValue)| (p.0@, p.1@))
}

fn config_error(col: &ColumnDefinition) -> (r: Option<DbError>)
    ensures
        r == read_config_error(*col),
{
    match &col.sql_type {
        SqlType::Integer(w, _) | SqlType::UnsignedInteger(w, _) => if *w == 8 || *w == 16 || *w == 32
            || *w == 64 {
            None
        } else {
            Some(DbError::InvalidWidth(col.sql_name.clone()))
        },
        SqlType::Float(w, _) => if *w == 32 || *w == 64 {
            None
        } else {
            Some(DbError::InvalidWidth(col.sql_name.clone()))
        },
        SqlType::Text(_) | SqlType::Boolean(_) => None,
        SqlType::Blob(_) => match &col.field_kind {
            FieldKind::Vector(_) => None,
            _ => Some(DbError::UnsupportedType(col.rust_name.clone())),
        },
        _ => Some(DbError::UnsupportedType(col.sql_name.clone())),
    }
}

fn not_null(t: &SqlType) -> (r: bool)
    ensures
        r == is_not_null(*t),
{
    match t {
        SqlType::Integer(_, nn) | SqlType::UnsignedInteger(_, nn) | SqlType::Float(_, nn) => *nn,
        SqlType::Text(nn) | SqlType::Date(nn) | SqlType::Time(nn) | SqlType::DateTime(nn) => *nn,
        SqlType::Blob(nn) | SqlType::Boolean(nn) => *nn,
        SqlType::OneToOne(_, nn) | SqlType::ManyToMany(_, nn) => *nn,
    }
}

fn signed_value(w: u8, i: i64) -> (r: Option<FieldValue>)
    ensures
        match signed_at(w, i) {
            Some(m) => r matches Some(v) && v@ == m,
            None => r.is_none(),
        },
{
    if w == 8 {
        if -128 <= i && i <= 127 { Some(FieldValue::I8(i as i8)) } else { None }
    } else if w == 16 {
        if -32768 <= i && i <= 32767 { Some(FieldValue::I16(i as i16)) } else { None }
    } else if w == 32 {
        if -2147483648 <= i && i <= 2147483647 { Some(FieldValue::I32(i as i32)) } else { None }
    } else {
        Some(FieldValue::I64(i))
    }
}

fn unsigned_value(w: u8, i: i64) -> (r: Option<FieldValue>)
    ensures
        match unsigned_at(w, i) {
            Some(m) => r matches Some(v) && v@ == m,
            None => r.is_none(),
        },
{
    if i < 0 {
        None
    } else if w == 8 {
        if i <= 255 { Some(FieldValue::U8(i as u8)) } else { None }
    } else if w == 16 {
        if i <= 65535 { Some(FieldValue::U16(i as u16)) } else { None }
    } else if w == 32 {
        if i <= 4294967295 { Some(FieldValue::U32(i as u32)) } else { None }
    } else {
        Some(FieldValue::U64(i as u64))
    }
}

fn read_field_value(col: &ColumnDefinition, raw: &SqlValue) -> (r: Result<FieldValue, DbError>)
    ensures
        match read_field(*col, raw@) {
            Ok(m) => r matches Ok(v) && v@ == m,
            Err(e) => r == Err::<FieldValue, DbError>(e),
        },
{
    match (&col.sql_type, raw) {
        (SqlType::Integer(w, _), SqlValue::Integer(i)) => match signed_value(*w, *i) {
            Some(v) => Ok(v),
            None => Err(DbError::QueryExecution(col.sql_name.clone())),
        },
        (SqlType::UnsignedInteger(w, _), SqlValue::Integer(i)) => match unsigned_value(*w, *i) {
            Some(v) => Ok(v),
            None => Err(DbError::QueryExecution(col.sql_name.clone())),
        },
        (SqlType::Float(_, _), SqlValue::Real(b)) => Ok(FieldValue::Real(*b)),
        (SqlType::Text(_), SqlValue::Text(s)) => Ok(FieldValue::Text(s.clone())),
        (SqlType::Boolean(_), SqlValue::Integer(i)) => Ok(FieldValue::Bool(*i != 0)),
        (SqlType::Blob(_), SqlValue::Blob(b)) => match &col.field_kind {
            FieldKind::Vector(k) => {
                let n = k.components();
                if b.len() == 4 * n {
                    Ok(FieldValue::Vector(*k, decode_blob(b, n)))
                } else {
                    Err(DbError::QueryExecution(col.sql_name.clone()))
                }
            },
            _ => Err(DbError::QueryExecution(col.sql_name.clone())),
        },
        _ => Err(DbError::QueryExecution(col.sql_name.clone())),
    }
}

/// Reads one column's raw value at the column's declared type.
pub fn read_column_value(col: &ColumnDefinition, raw: &SqlValue) -> (r: Result<StagedValue, DbError>)
    ensures
        match read_column(*col, raw@) {
            Ok(m) => r matches Ok(v) && v@ == m,
            Err(e) => r == Err::<StagedValue, DbError>(e),
        },
{
    if let Some(e) = config_error(col) {
        return Err(e);
    }
    if not_null(&col.sql_type) {
        match read_field_value(col, raw) {
            Ok(v) => Ok(StagedValue::Plain(v)),
            Err(e) => Err(e),
        }
    } else if let SqlValue::Null = raw {
        Ok(StagedValue::Optional(None))
    } else {
        match read_field_value(col, raw) {
            Ok(v) => Ok(StagedValue::Optional(Some(v))),
            Err(e) => Err(e),
        }
    }
}

impl SqliteDatabase {
    /// The field assignments for one result row, given the result's column
    /// names and the row's values in the same order.
    pub fn read_row(table: &TableDefinition, names: &Vec<String>, row: &Vec<SqlValue>) -> (r: Result<
        Vec<(String, StagedValue)>,
        DbError,
    >)
        requires
            names@.len() == row@.len(),
        ensures
            match read_row_spec(table.columns@, names_view(names@), row_view(row@)) {
                Ok(st) => r matches Ok(v) && staged_view(v@) == st,
                Err(e) => r == Err::<Vec<(String, StagedValue)>, DbError>(e),
            },
    {
        let mut out: Vec<(String, StagedValue)> = Vec::new();
        let mut k: usize = 0;
        assert(staged_view(out@) =~= Seq::<(Seq<char>, StagedModel)>::empty());
        while k < names.len()
            invariant
                names@.len() == row@.len(),
                k <= names@.len(),
                read_row_spec(table.columns@, names_view(names@.take(k as int)), row_view(row@.take(k as int)))
                    == Ok::<Seq<(Seq<char>, StagedModel)>, DbError>(staged_view(out@)),
            decreases names@.len() - k,
        {
            let ghost nv = names_view(names@.take(k as int + 1));
            let ghost rv = row_view(row@.take(k as int + 1));
            assert(nv.drop_last() =~= names_view(names@.take(k as int)));
            assert(rv.drop_last() =~= row_view(row@.take(k as int)));
            assert(nv.last() == names@[k as int]@);
            assert(rv.last() == row@[k as int]@);
            let ghost prev = out@;
            match table.get(&names[k]) {
                None => {},
                Some(col) => {
                    match read_column_value(col, &row[k]) {
                        Err(e) => {
                            proof {
                                lemma_read_row_error(table.columns@, names_view(names@), row_view(row@), k as int + 1);
                                assert(names_view(names@).take(k as int + 1) =~= nv);
                                assert(row_view(row@).take(k as int + 1) =~= rv);
                                assert(names_view(names@) =~= names_view(names@).take(names@.len() as int));
                            }
                            return Err(e);
                        },
                        Ok(v) => {
                            out.push((col.rust_name.clone(), v));
                            assert(staged_view(out@) =~= staged_view(prev).push((col.rust_name@, v@)));
                        },
                    }
                },
            }
            assert(read_row_spec(table.columns@, nv, rv) == Ok::<Seq<(Seq<char>, StagedModel)>, DbError>(staged_view(out@)));
            k = k + 1;
        }
        proof {
            assert(names@.take(k as int) =~= names@);
            assert(row@.take(k as int) =~= row@);
        }
        Ok(out)
    }
}

/// An error on a prefix of the row is the error of the whole row.
proof fn lemma_read_row_error(cols: Seq<ColumnDefinition>, names: Seq<Seq<char>>, row: Seq<SqlModel>, k: int)
    requires
        names.len() == row.len(),
        0 <= k <= names.len(),
        read_row_spec(cols, names.take(k), row.take(k)) is Err,
    ensures
        read_row_spec(cols, names, row) == read_row_spec(cols, names.take(k), row.take(k)),
    decreases names.len() - k,
{
    if k < names.len() {
        assert(names.take(k + 1).drop_last() =~= names.take(k));
        assert(row.take(k + 1).drop_last() =~= row.take(k));
        lemma_read_row_error(cols, names, row, k + 1);
    } else {
        assert(names.take(k) =~= names);
        assert(row.take(k) =~= row);
    }
}

/// Whether a column of this definition is where a field holding `v` is stored:
/// a signed or unsigned integer column of the value's width, a real column
/// for a real, a text column for text, and a blob column of the value's
/// vector kind for a vector with its number of components.
pub open spec fn stores_as(col: ColumnDefinition, v: FieldModel) -> bool {
    match (col.sql_type, v) {
        (SqlType::Integer(w, _), FieldModel::I8(_)) => w == 8,
        (SqlType::Integer(w, _), FieldModel::I16(_)) => w == 16,
        (SqlType::Integer(w, _), FieldModel::I32(_)) => w == 32,
        (SqlType::Integer(w, _), FieldModel::I64(_)) => w == 64,
        (SqlType::UnsignedInteger(w, _), FieldModel::U8(_)) => w == 8,
        (SqlType::UnsignedInteger(w, _), FieldModel::U16(_)) => w == 16,
        (SqlType::UnsignedInteger(w, _), FieldModel::U32(_)) => w == 32,
        (SqlType::UnsignedInteger(w, _), FieldModel::U64(_)) => w == 64,
        (SqlType::Float(w, _), FieldModel::Real(_)) => valid_float_width(w),
        (SqlType::Text(_), FieldModel::Text(_)) => true,
        (SqlType::Blob(_), FieldModel::Vector(k, ws)) => col.field_kind == FieldKind::Vector(k)
            && ws.len() == k.spec_components(),
        _ => false,
    }
}

/// What reading back a stored value gives: the value itself, wrapped as an
/// optional value where the column is nullable.
pub open spec fn staged_of(col: ColumnDefinition, v: FieldModel) -> StagedModel {
    if is_not_null(col.sql_type) {
        StagedModel::Plain(v)
    } else {
        StagedModel::Optional(Some(v))
    }
}

/// A field value written through the write path into a column of its own
/// type reads back unchanged; the only such values that the write path
/// refuses are unsigned values above `i64::MAX`.
pub proof fn lemma_value_round_trip(col: ColumnDefinition, v: FieldModel)
    requires
        stores_as(col, v),
    ensures
        match spec_to_sql(v) {
            Some(m) => read_column(col, m) == Ok::<StagedModel, DbError>(staged_of(col, v)),
            None => v matches FieldModel::U64(x) && x > i64::MAX,
        },
{
    if let FieldModel::Vector(k, ws) = v {
        lemma_blob_round_trip(ws);
        crate::value::lemma_blob_of(ws);
    }
}

/// Values of a type outside the supported set, and vectors with the wrong
/// number of components, are refused on the write path as
/// `UnsupportedType`; a blob column whose field is not a vector is refused
/// on the read path, as `UnsupportedType` too.
pub proof fn lemma_unsupported_types(v: FieldModel, t: String, col: ColumnDefinition, raw: SqlModel)
    ensures
        (v is Bool || v is Unsupported) ==> spec_to_sql(v) is None && to_sql_error(v, t)
            == DbError::UnsupportedType(t),
        (v matches FieldModel::Vector(k, ws) && ws.len() != k.spec_components()) ==> spec_to_sql(v) is None
            && to_sql_error(v, t) == DbError::UnsupportedType(t),
        (col.sql_type is Blob && !(col.field_kind is Vector)) ==> read_column(col, raw) == Err::<
            StagedModel,
            DbError,
        >(DbError::UnsupportedType(col.rust_name)),
{
}

/// Whether no two columns share an SQL name.
pub open spec fn unique_sql_names(cols: Seq<ColumnDefinition>) -> bool {
    forall|i: int, j: int| 0 <= i < j < cols.len() ==> cols[i].sql_name@ != cols[j].sql_name@
}

/// What reading back column `col` gives: for a key column, whatever value
/// the engine assigned, read at the column's type; for any other column, the
/// stored field value.
pub open spec fn read_back(col: ColumnDefinition, v: FieldModel, raw: SqlModel) -> StagedModel {
    if col.is_key {
        match read_column(col, raw) {
            Ok(m) => m,
            Err(_) => staged_of(col, v),
        }
    } else {
        staged_of(col, v)
    }
}

/// Whether `row` holds, for each non-key column, the stored value of the
/// record's field, and for each key column a value the column can read.
pub open spec fn stored_row(cols: Seq<ColumnDefinition>, values: Seq<FieldModel>, row: Seq<SqlModel>) -> bool {
    &&& unique_sql_names(cols)
    &&& values.len() == cols.len()
    &&& row.len() == cols.len()
    &&& forall|i: int|
        0 <= i < cols.len() && (#[trigger] cols[i]).is_key ==> read_column(cols[i], row[i]) is Ok
    &&& forall|i: int|
        0 <= i < cols.len() && !(#[trigger] cols[i]).is_key ==> {
            &&& stores_as(cols[i], values[i])
            &&& spec_to_sql(values[i]) == Some(row[i])
        }
}

/// A record written into a table with distinct column names, then read back
/// from a result with the table's columns, gives every non-key field its
/// value back.
pub proof fn lemma_row_round_trip(cols: Seq<ColumnDefinition>, values: Seq<FieldModel>, row: Seq<SqlModel>)
    requires
        stored_row(cols, values, row),
    ensures
        read_row_spec(cols, cols.map_values(|c: ColumnDefinition| c.sql_name@), row) == Ok::<
            Seq<(Seq<char>, StagedModel)>,
            DbError,
        >(Seq::new(cols.len(), |i: int| (cols[i].rust_name@, read_back(cols[i], values[i], row[i])))),
        forall|i: int|
            0 <= i < cols.len() && !(#[trigger] cols[i]).is_key ==> read_back(cols[i], values[i], row[i])
                == staged_of(cols[i], values[i]),
{
    let names = cols.map_values(|c: ColumnDefinition| c.sql_name@);
    let expected = Seq::new(cols.len(), |i: int| (cols[i].rust_name@, read_back(cols[i], values[i], row[i])));
    lemma_row_prefix(cols, values, row, cols.len() as int);
    assert(names.take(cols.len() as int) =~= names);
    assert(row.take(cols.len() as int) =~= row);
    assert(expected.take(cols.len() as int) =~= expected);
}

proof fn lemma_row_prefix(cols: Seq<ColumnDefinition>, values: Seq<FieldModel>, row: Seq<SqlModel>, k: int)
    requires
        stored_row(cols, values, row),
        0 <= k <= cols.len(),
    ensures
        read_row_spec(cols, cols.map_values(|c: ColumnDefinition| c.sql_name@).take(k), row.take(k)) == Ok::<
            Seq<(Seq<char>, StagedModel)>,
            DbError,
        >(Seq::new(cols.len(), |i: int| (cols[i].rust_name@, read_back(cols[i], values[i], row[i]))).take(k)),
    decreases k,
{
    let names = cols.map_values(|c: ColumnDefinition| c.sql_name@);
    let expected = Seq::new(cols.len(), |i: int| (cols[i].rust_name@, read_back(cols[i], values[i], row[i])));
    if k == 0 {
        assert(expected.take(0) =~= Seq::<(Seq<char>, StagedModel)>::empty());
    } else {
        let j = k - 1;
        lemma_row_prefix(cols, values, row, j);
        assert(names.take(k).drop_last() =~= names.take(j));
        assert(row.take(k).drop_last() =~= row.take(j));
        crate::table_definition::lemma_find_column(cols, cols[j].sql_name@);
        assert(spec_find_column(cols, cols[j].sql_name@) == Some(j));
        if !cols[j].is_key {
            lemma_value_round_trip(cols[j], values[j]);
        }
        assert(expected.take(k) =~= expected.take(j).push(expected[j]));
    }
}

/// A result row in which some column maps to a blob column whose field is
/// not a vector cannot be read; where every earlier column reads, the
/// error is `UnsupportedType` with that field's name.
pub proof fn lemma_unsupported_blob_row(
    cols: Seq<ColumnDefinition>,
    names: Seq<Seq<char>>,
    row: Seq<SqlModel>,
    i: int,
)
    requires
        names.len() == row.len(),
        0 <= i < names.len(),
        spec_find_column(cols, names[i]) matches Some(ci) && cols[ci].sql_type is Blob
            && !(cols[ci].field_kind is Vector),
    ensures
        read_row_spec(cols, names, row) is Err,
        (forall|j: int|
            0 <= j < i ==> (#[trigger] spec_find_column(cols, names[j]) matches Some(cj) ==> read_column(
                cols[cj],
                row[j],
            ) is Ok)) ==> read_row_spec(cols, names, row) == Err::<Seq<(Seq<char>, StagedModel)>, DbError>(
            DbError::UnsupportedType(cols[spec_find_column(cols, names[i])->Some_0].rust_name),
        ),
{
    crate::table_definition::lemma_find_column(cols, names[i]);
    if forall|j: int|
        0 <= j < i ==> (#[trigger] spec_find_column(cols, names[j]) matches Some(cj) ==> read_column(
            cols[cj],
            row[j],
        ) is Ok) {
        lemma_read_row_ok_prefix(cols, names, row, i);
    }
    let k = i + 1;
    assert(names.take(k).drop_last() =~= names.take(i));
    assert(row.take(k).drop_last() =~= row.take(i));
    assert(names.take(k).last() == names[i]);
    assert(read_row_spec(cols, names.take(k), row.take(k)) is Err);
    lemma_read_row_error(cols, names, row, k);
}

proof fn lemma_read_row_ok_prefix(cols: Seq<ColumnDefinition>, names: Seq<Seq<char>>, row: Seq<SqlModel>, k: int)
    requires
        names.len() == row.len(),
        0 <= k <= names.len(),
        forall|j: int|
            0 <= j < k ==> (#[trigger] spec_find_column(cols, names[j]) matches Some(cj) ==> read_column(
                cols[cj],
                row[j],
            ) is Ok),
    ensures
        read_row_spec(cols, names.take(k), row.take(k)) is Ok,
    decreases k,
{
    if k > 0 {
        lemma_read_row_ok_prefix(cols, names, row, k - 1);
        assert(names.take(k).drop_last() =~= names.take(k - 1));
        assert(row.take(k).drop_last() =~= row.take(k - 1));
        assert(names.take(k).last() == names[k - 1]);
        assert(row.take(k).last() == row[k - 1]);
        crate::table_definition::lemma_find_column(cols, names[k - 1]);
    }
}

} // verus!
