use vstd::prelude::*;
use crate::ddl::spec_table_sql;
use crate::error::DbError;
use crate::table_definition::{ColumnDefinition, TableDefinition};
use crate::text::join_with;
use crate::value::{SqlModel, SqlValue};
use crate::value_to_sql_wrapper::{spec_to_sql, to_sql_error, ValueWrapper};

verus! {

/// Bookkeeping for the single connection to a SQLite database, and the
/// statements and values that its operations hand to the engine.
///
/// The caller performs the engine calls and reports their outcomes here:
/// whether opening or closing succeeded, the rows a query returned.
pub struct SqliteDatabase {
    open: bool,
}

/// The SQL names of the columns that an insert writes: all but key columns.
pub open spec fn insert_names(cols: Seq<ColumnDefinition>) -> Seq<Seq<char>>
    decreases cols.len(),
{
    if cols.len() == 0 {
        Seq::empty()
    } else if cols.last().is_key {
        insert_names(cols.drop_last())
    } else {
        insert_names(cols.drop_last()).push(cols.last().sql_name@)
    }
}

/// The statement that inserts a record into `table`.
pub open spec fn insert_text(table: Seq<char>, cols: Seq<ColumnDefinition>) -> Seq<char> {
    let names = insert_names(cols);
    "INSERT INTO "@ + table + " ("@ + join_with(names, ", "@) + ") VALUES ("@ + join_with(
        Seq::new(names.len(), |i: int| "?"@),
        ", "@,
    ) + ");"@
}

/// The parameters of an insert: the storage value of each field of a
/// non-key column, in column order, or the error of the first field that has
/// none.
pub open spec fn insert_params(cols: Seq<ColumnDefinition>, record: Seq<ValueWrapper>) -> Result<
    Seq<SqlModel>,
    DbError,
>
    decreases cols.len(),
{
    if cols.len() == 0 || record.len() == 0 {
        Ok(Seq::empty())
    } else {
        match insert_params(cols.drop_last(), record.drop_last()) {
            Err(e) => Err(e),
            Ok(p) => if cols.last().is_key {
                Ok(p)
            } else {
                match spec_to_sql(record.last().value@) {
                    Some(m) => Ok(p.push(m)),
                    None => Err(to_sql_error(record.last().value@, record.last().field_type)),
                }
            },
        }
    }
}

pub open spec fn params_view(p: Seq<SqlValue>) -> Seq<SqlModel> {
    p.map_values(|v: SqlValue| v@)
}

/// The catalog query that counts the tables named `name`.
pub open spec fn table_count_text(name: Seq<char>) -> Seq<char> {
    "SELECT Count(*) as Tables FROM sqlite_master WHERE type='table' AND name='"@ + name + "';"@
}

impl SqliteDatabase {
    pub closed spec fn spec_is_open(&self) -> bool {
        self.open
    }

    /// A database with no connection.
    pub fn new() -> (r: Self)
        ensures
            !r.spec_is_open(),
    {
        SqliteDatabase { open: false }
    }

    pub fn is_open(&self) -> (r: bool)
        ensures
            r == self.spec_is_open(),
    {
        self.open
    }

    /// Records the outcome of connecting: on success the database is open;
    /// on failure it stays as it was and the driver's message is returned.
    pub fn open(&mut self, connected: Result<(), String>) -> (r: Result<(), DbError>)
        ensures
            match connected {
                Ok(()) => r is Ok && final(self).spec_is_open(),
                Err(m) => r == Err::<(), DbError>(DbError::Connection(m)) && final(self).spec_is_open()
                    == old(self).spec_is_open(),
            },
    {
        match connected {
            Ok(()) => {
                self.open = true;
                Ok(())
            },
            Err(m) => Err(DbError::Connection(m)),
        }
    }

    /// Records the outcome of closing.  Closing a database that is not open
    /// succeeds and ignores `closed`; otherwise the connection is released
    /// either way, and a failure to close is reported.
    pub fn close(&mut self, closed: Result<(), String>) -> (r: Result<(), DbError>)
        ensures
            !final(self).spec_is_open(),
            !old(self).spec_is_open() ==> r is Ok,
            old(self).spec_is_open() ==> match closed {
                Ok(()) => r is Ok,
                Err(m) => r == Err::<(), DbError>(DbError::Connection(m)),
            },
    {
        if !self.open {
            return Ok(());
        }
        self.open = false;
        match closed {
            Ok(()) => Ok(()),
            Err(m) => Err(DbError::Connection(m)),
        }
    }

    /// Succeeds exactly when the database is open.
    pub fn check_open(&self) -> (r: Result<(), DbError>)
        ensures
            self.spec_is_open() ==> r is Ok,
            !self.spec_is_open() ==> r == Err::<(), DbError>(DbError::NotConnected),
    {
        if self.open {
            Ok(())
        } else {
            Err(DbError::NotConnected)
        }
    }

    /// The result of a scalar query from the values of its result rows, in
    /// order: nothing for no rows, otherwise the first row's value.
    pub fn query_scalar<T>(&self, rows: Vec<T>) -> (r: Result<Option<T>, DbError>)
        ensures
            !self.spec_is_open() ==> r == Err::<Option<T>, DbError>(DbError::NotConnected),
            self.spec_is_open() ==> r == Ok::<Option<T>, DbError>(
                if rows@.len() == 0 { None } else { Some(rows@[0]) },
            ),
    {
        if !self.open {
            return Err(DbError::NotConnected);
        }
        let mut rows = rows;
        if rows.len() == 0 {
            Ok(None)
        } else {
            Ok(Some(rows.remove(0)))
        }
    }

    /// The catalog query whose count tells whether table `name` exists.
    pub fn table_exists_query(name: &str) -> (r: String)
        ensures
            r@ == table_count_text(name@),
    {
        let mut s = String::from_str("SELECT Count(*) as Tables FROM sqlite_master WHERE type='table' AND name='");
        s.append(name);
        s.append("';");
        s
    }

    /// Whether the table exists, from the count that its catalog query returned.
    pub fn table_exists(count: Option<i64>) -> (r: bool)
        ensures
            r == (count matches Some(n) && n > 0),
    {
        match count {
            Some(n) => n > 0,
            None => false,
        }
    }

    /// The statement to run for creating `def`: none when the table exists
    /// already, else its `CREATE TABLE` statement.
    pub fn create_table(&self, def: &TableDefinition, exists: bool) -> (r: Result<Option<String>, DbError>)
        ensures
            !self.spec_is_open() ==> r == Err::<Option<String>, DbError>(DbError::NotConnected),
            self.spec_is_open() && exists ==> r == Ok::<Option<String>, DbError>(None),
            self.spec_is_open() && !exists ==> match spec_table_sql(*def) {
                Ok(text) => r matches Ok(Some(s)) && s@ == text,
                Err(e) => r == Err::<Option<String>, DbError>(e),
            },
    {
        if !self.open {
            return Err(DbError::NotConnected);
        }
        if exists {
            return Ok(None);
        }
        match SqliteDatabase::get_table_sql(def) {
            Ok(s) => Ok(Some(s)),
            Err(e) => Err(e),
        }
    }

    /// The statement and parameters that insert a record into `def`, given
    /// one wrapped field per column; key columns are left to the engine.
    pub fn insert(&self, def: &TableDefinition, record: &Vec<ValueWrapper>) -> (r: Result<
        (String, Vec<SqlValue>),
        DbError,
    >)
        requires
            record@.len() == def.columns@.len(),
        ensures
            !self.spec_is_open() ==> r == Err::<(String, Vec<SqlValue>), DbError>(DbError::NotConnected),
            self.spec_is_open() ==> match insert_params(def.columns@, record@) {
                Ok(p) => r matches Ok((s, v)) && s@ == insert_text(def.sql_name@, def.columns@)
                    && params_view(v@) == p,
                Err(e) => r == Err::<(String, Vec<SqlValue>), DbError>(e),
            },
    {
        if !self.open {
            return Err(DbError::NotConnected);
        }
        let ghost cols = def.columns@;
        let mut names = String::new();
        let mut marks = String::new();
        let mut params: Vec<SqlValue> = Vec::new();
        let mut any = false;
        let mut k: usize = 0;
        assert(params_view(params@) =~= Seq::<SqlModel>::empty());
        while k < def.columns.len()
            invariant
                cols == def.columns@,
                self.spec_is_open(),
                record@.len() == cols.len(),
                k <= cols.len(),
                any == (insert_names(cols.take(k as int)).len() > 0),
                names@ == join_with(insert_names(cols.take(k as int)), ", "@),
                marks@ == join_with(
                    Seq::new(insert_names(cols.take(k as int)).len(), |i: int| "?"@),
                    ", "@,
                ),
                insert_params(cols.take(k as int), record@.take(k as int)) == Ok::<Seq<SqlModel>, DbError>(
                    params_view(params@),
                ),
            decreases cols.len() - k,
        {
            let c = &def.columns[k];
            let ghost before = insert_names(cols.take(k as int));
            let ghost prev = params@;
            assert(cols.take(k as int + 1).drop_last() =~= cols.take(k as int));
            assert(record@.take(k as int + 1).drop_last() =~= record@.take(k as int));
            if !c.is_key {
                match record[k].to_sql() {
                    Err(e) => {
                        proof {
                            lemma_insert_params_error(cols, record@, k as int + 1);
                        }
                        return Err(e);
                    },
                    Ok(v) => {
                        params.push(v);
                        assert(params_view(params@) =~= params_view(prev).push(v@));
                    },
                }
                if any {
                    names.append(", ");
                    marks.append(", ");
                }
                names.append(c.sql_name.as_str());
                marks.append("?");
                any = true;
                proof {
                    let after = insert_names(cols.take(k as int + 1));
                    assert(after == before.push(c.sql_name@));
                    assert(after.drop_last() =~= before);
                    let q = Seq::new(after.len(), |i: int| "?"@);
                    assert(q.drop_last() =~= Seq::new(before.len(), |i: int| "?"@));
                    if before.len() == 0 {
                        assert(names@ =~= join_with(after, ", "@));
                        assert(marks@ =~= join_with(q, ", "@));
                    } else {
                        assert(names@ =~= join_with(after, ", "@));
                        assert(marks@ =~= join_with(q, ", "@));
                    }
                }
            }
            k = k + 1;
        }
        assert(cols.take(k as int) =~= cols);
        assert(record@.take(k as int) =~= record@);
        let mut s = String::from_str("INSERT INTO ");
        s.append(def.sql_name.as_str());
        s.append(" (");
        s.append(names.as_str());
        s.append(") VALUES (");
        s.append(marks.as_str());
        s.append(");");
        assert(s@ =~= insert_text(def.sql_name@, cols));
        Ok((s, params))
    }
}

/// An error on a prefix of the columns is the error of the whole insert.
proof fn lemma_insert_params_error(cols: Seq<ColumnDefinition>, record: Seq<ValueWrapper>, k: int)
    requires
        record.len() == cols.len(),
        0 <= k <= cols.len(),
        insert_params(cols.take(k), record.take(k)) is Err,
    ensures
        insert_params(cols, record) == insert_params(cols.take(k), record.take(k)),
    decreases cols.len() - k,
{
    if k < cols.len() {
        assert(cols.take(k + 1).drop_last() =~= cols.take(k));
        assert(record.take(k + 1).drop_last() =~= record.take(k));
        lemma_insert_params_error(cols, record, k + 1);
    } else {
        assert(cols.take(k) =~= cols);
        assert(record.take(k) =~= record);
    }
}

} // verus!
