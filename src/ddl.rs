use vstd::prelude::*;
use crate::database::SqliteDatabase;
use crate::error::DbError;
use crate::sql_type::{valid_float_width, valid_int_width, SqlType};
use crate::table_definition::{ColumnDefinition, TableDefinition};
use crate::text::{decimal, push_decimal};

verus! {

/// Position, within `idx`, of the first index whose column has the smallest order.
pub open spec fn min_pos(cols: Seq<ColumnDefinition>, idx: Seq<usize>) -> int
    decreases idx.len(),
{
    if idx.len() <= 1 {
        0
    } else {
        let p = min_pos(cols, idx.drop_last());
        if cols[idx.last() as int].order < cols[idx[p] as int].order {
            idx.len() - 1
        } else {
            p
        }
    }
}

/// The indices `idx` ordered by the `order` of their columns; indices of
/// equal order keep their relative position.
pub open spec fn select_sort(cols: Seq<ColumnDefinition>, idx: Seq<usize>) -> Seq<usize>
    decreases idx.len(),
{
    if idx.len() == 0 {
        Seq::empty()
    } else {
        let p = min_pos(cols, idx);
        proof {
            lemma_min_pos_range(cols, idx);
        }
        seq![idx[p]] + select_sort(cols, idx.remove(p))
    }
}

pub open spec fn all_indices(n: nat) -> Seq<usize> {
    Seq::new(n, |i: int| i as usize)
}

/// The columns in ascending declaration order.
pub open spec fn sorted_columns(cols: Seq<ColumnDefinition>) -> Seq<ColumnDefinition> {
    select_sort(cols, all_indices(cols.len())).map_values(|i: usize| cols[i as int])
}

pub open spec fn not_null_text(not_null: bool) -> Seq<char> {
    if not_null { " NOT NULL"@ } else { Seq::empty() }
}

pub open spec fn key_text() -> Seq<char> {
    " INTEGER PRIMARY KEY AUTOINCREMENT"@
}

pub open spec fn unsigned_check(name: Seq<char>) -> Seq<char> {
    " CHECK("@ + name + " >= 0)"@
}

pub open spec fn boolean_check(name: Seq<char>) -> Seq<char> {
    " CHECK("@ + name + " >= 0 AND "@ + name + " < 2)"@
}

/// Why a column cannot be rendered, if it cannot.
pub open spec fn column_error(c: ColumnDefinition) -> Option<DbError> {
    match c.sql_type {
        SqlType::Integer(w, _) | SqlType::UnsignedInteger(w, _) => if valid_int_width(w) {
            None
        } else {
            Some(DbError::InvalidWidth(c.sql_name))
        },
        SqlType::Float(w, _) => if valid_float_width(w) {
            None
        } else {
            Some(DbError::InvalidWidth(c.sql_name))
        },
        SqlType::OneToOne(_, _) | SqlType::ManyToMany(_, _) => Some(
            DbError::UnsupportedType(c.sql_name),
        ),
        _ => None,
    }
}

/// The text that follows the column name in its clause.
pub open spec fn column_type_text(c: ColumnDefinition) -> Seq<char> {
    match c.sql_type {
        SqlType::Integer(_, nn) => if c.is_key {
            key_text()
        } else {
            " INTEGER"@ + not_null_text(nn)
        },
        SqlType::UnsignedInteger(_, nn) => " INTEGER"@ + not_null_text(nn) + unsigned_check(
            c.sql_name@,
        ),
        SqlType::Float(_, nn) => " REAL"@ + not_null_text(nn),
        SqlType::Text(nn) => match c.max_length {
            Some(n) => " VARCHAR("@ + decimal(n as nat) + ")"@ + not_null_text(nn),
            None => " TEXT"@ + not_null_text(nn),
        },
        SqlType::Date(nn) => " TEXT"@ + not_null_text(nn),
        SqlType::Time(nn) => " REAL"@ + not_null_text(nn),
        SqlType::DateTime(nn) => " TEXT"@ + not_null_text(nn),
        SqlType::Blob(nn) => " BLOB"@ + not_null_text(nn),
        SqlType::Boolean(nn) => " INTEGER"@ + not_null_text(nn) + boolean_check(c.sql_name@),
        _ => Seq::empty(),
    }
}

/// The clause that declares one column.
pub open spec fn column_clause(c: ColumnDefinition) -> Seq<char> {
    c.sql_name@ + column_type_text(c)
}

/// The error of the first column, in sequence, that cannot be rendered.
pub open spec fn first_column_error(cols: Seq<ColumnDefinition>) -> Option<DbError>
    decreases cols.len(),
{
    if cols.len() == 0 {
        None
    } else {
        match first_column_error(cols.drop_last()) {
            Some(e) => Some(e),
            None => column_error(cols.last()),
        }
    }
}

/// The parts joined with commas.
pub open spec fn join_commas(parts: Seq<Seq<char>>) -> Seq<char>
    decreases parts.len(),
{
    if parts.len() == 0 {
        Seq::empty()
    } else if parts.len() == 1 {
        parts[0]
    } else {
        join_commas(parts.drop_last()) + ","@ + parts.last()
    }
}

pub open spec fn column_clauses(cols: Seq<ColumnDefinition>) -> Seq<Seq<char>> {
    cols.map_values(|c: ColumnDefinition| column_clause(c))
}

/// The statement that creates table `name` with the columns `cols`, in that sequence.
pub open spec fn create_table_text(name: Seq<char>, cols: Seq<ColumnDefinition>) -> Seq<char> {
    "CREATE TABLE '"@ + name + "'("@ + join_commas(column_clauses(cols)) + ");"@
}

/// What rendering a table definition gives: the statement, or the error of
/// the first column in declaration order that cannot be rendered.
pub open spec fn spec_table_sql(t: TableDefinition) -> Result<Seq<char>, DbError> {
    match first_column_error(sorted_columns(t.columns@)) {
        Some(e) => Err(e),
        None => Ok(create_table_text(t.sql_name@, sorted_columns(t.columns@))),
    }
}

pub proof fn lemma_min_pos_range(cols: Seq<ColumnDefinition>, idx: Seq<usize>)
    requires
        idx.len() >= 1,
    ensures
        0 <= min_pos(cols, idx) < idx.len(),
    decreases idx.len(),
{
    if idx.len() > 1 {
        lemma_min_pos_range(cols, idx.drop_last());
    }
}

pub proof fn lemma_min_pos(cols: Seq<ColumnDefinition>, idx: Seq<usize>)
    requires
        idx.len() >= 1,
        forall|j: int| 0 <= j < idx.len() ==> idx[j] < cols.len(),
    ensures
        0 <= min_pos(cols, idx) < idx.len(),
        forall|j: int|
            0 <= j < idx.len() ==> cols[idx[min_pos(cols, idx)] as int].order <= cols[#[trigger] idx[j] as int].order,
    decreases idx.len(),
{
    lemma_min_pos_range(cols, idx);
    if idx.len() > 1 {
        let d = idx.drop_last();
        lemma_min_pos(cols, d);
        assert forall|j: int| 0 <= j < idx.len() implies cols[idx[min_pos(cols, idx)] as int].order
            <= cols[#[trigger] idx[j] as int].order by {
            if j < idx.len() - 1 {
                assert(idx[j] == d[j]);
            }
        }
    }
}

/// Sorting keeps the indices, as a multiset, and puts them in ascending order.
pub proof fn lemma_select_sort(cols: Seq<ColumnDefinition>, idx: Seq<usize>)
    requires
        forall|j: int| 0 <= j < idx.len() ==> idx[j] < cols.len(),
    ensures
        select_sort(cols, idx).len() == idx.len(),
        select_sort(cols, idx).to_multiset() == idx.to_multiset(),
        forall|i: int, j: int|
            0 <= i <= j < idx.len() ==> cols[select_sort(cols, idx)[i] as int].order
                <= cols[select_sort(cols, idx)[j] as int].order,
    decreases idx.len(),
{
    broadcast use vstd::seq_lib::group_to_multiset_ensures;

    if idx.len() > 0 {
        let p = min_pos(cols, idx);
        lemma_min_pos(cols, idx);
        let rem = idx.remove(p);
        idx.remove_ensures(p);
        lemma_select_sort(cols, rem);
        let tail = select_sort(cols, rem);
        let s = select_sort(cols, idx);
        assert(s == seq![idx[p]] + tail);
        assert(s =~= tail.insert(0, idx[p]));
        assert(s.to_multiset() =~= tail.to_multiset().insert(idx[p])) by {
            assert(s.remove(0) =~= tail);
        }
        assert(idx.to_multiset() =~= rem.to_multiset().insert(idx[p]));
        assert forall|i: int, j: int| 0 <= i <= j < idx.len() implies cols[s[i] as int].order
            <= cols[s[j] as int].order by {
            if i == 0 {
                if j > 0 {
                    assert(tail.contains(tail[j - 1]));
                    assert(rem.to_multiset().count(tail[j - 1]) > 0);
                    assert(rem.contains(tail[j - 1]));
                    let q = choose|q: int| 0 <= q < rem.len() && rem[q] == tail[j - 1];
                    assert(q < p ==> rem[q] == idx[q]);
                    assert(q >= p ==> rem[q] == idx[q + 1]);
                }
            }
        }
    }
}

/// Index positions ordered by the declaration order of their columns.
fn sort_by_order(cols: &Vec<ColumnDefinition>) -> (r: Vec<usize>)
    ensures
        r@ == select_sort(cols@, all_indices(cols@.len())),
{
    let n = cols.len();
    let mut rem: Vec<usize> = Vec::new();
    let mut i: usize = 0;
    while i < n
        invariant
            n == cols@.len(),
            i <= n,
            rem@ =~= all_indices(i as nat),
        decreases n - i,
    {
        rem.push(i);
        i = i + 1;
    }
    let ghost all = rem@;
    let mut out: Vec<usize> = Vec::new();
    while rem.len() > 0
        invariant
            out@ + select_sort(cols@, rem@) == select_sort(cols@, all),
            forall|j: int| 0 <= j < rem@.len() ==> rem@[j] < cols@.len(),
        decreases rem@.len(),
    {
        let ghost before = rem@;
        let mut p: usize = 0;
        let mut k: usize = 1;
        while k < rem.len()
            invariant
                rem@ == before,
                1 <= k <= rem@.len(),
                p == min_pos(cols@, rem@.take(k as int)),
                p < k,
                forall|j: int| 0 <= j < rem@.len() ==> rem@[j] < cols@.len(),
            decreases rem@.len() - k,
        {
            assert(rem@.take(k as int + 1).drop_last() =~= rem@.take(k as int));
            if cols[rem[k]].order < cols[rem[p]].order {
                p = k;
            }
            k = k + 1;
        }
        assert(rem@.take(k as int) =~= rem@);
        let x = rem.remove(p);
        out.push(x);
        proof {
            before.remove_ensures(p as int);
            assert(select_sort(cols@, before) == seq![x] + select_sort(cols@, rem@));
        }
    }
    assert(select_sort(cols@, rem@) =~= Seq::<usize>::empty());
    assert(out@ =~= out@ + select_sort(cols@, rem@));
    out
}

/// Renders the clause that declares one column.
fn column_sql(c: &ColumnDefinition) -> (r: Result<String, DbError>)
    ensures
        match column_error(*c) {
            Some(e) => r == Err::<String, DbError>(e),
            None => r matches Ok(s) && s@ == column_clause(*c),
        },
{
    let mut s = c.sql_name.clone();
    match &c.sql_type {
        SqlType::Integer(w, nn) => {
            if !(*w == 8 || *w == 16 || *w == 32 || *w == 64) {
                return Err(DbError::InvalidWidth(c.sql_name.clone()));
            }
            if c.is_key {
                s.append(" INTEGER PRIMARY KEY AUTOINCREMENT");
            } else {
                s.append(" INTEGER");
                push_not_null(&mut s, *nn);
            }
            assert(s@ =~= column_clause(*c));
        },
        SqlType::UnsignedInteger(w, nn) => {
            if !(*w == 8 || *w == 16 || *w == 32 || *w == 64) {
                return Err(DbError::InvalidWidth(c.sql_name.clone()));
            }
            s.append(" INTEGER");
            push_not_null(&mut s, *nn);
            s.append(" CHECK(");
            s.append(c.sql_name.as_str());
            s.append(" >= 0)");
            assert(s@ =~= column_clause(*c));
        },
        SqlType::Float(w, nn) => {
            if !(*w == 32 || *w == 64) {
                return Err(DbError::InvalidWidth(c.sql_name.clone()));
            }
            s.append(" REAL");
            push_not_null(&mut s, *nn);
            assert(s@ =~= column_clause(*c));
        },
        SqlType::Text(nn) => {
            match c.max_length {
                Some(n) => {
                    s.append(" VARCHAR(");
                    push_decimal(&mut s, n as u64);
                    s.append(")");
                },
                None => {
                    s.append(" TEXT");
                },
            }
            push_not_null(&mut s, *nn);
            assert(s@ =~= column_clause(*c));
        },
        SqlType::Date(nn) | SqlType::DateTime(nn) => {
            s.append(" TEXT");
            push_not_null(&mut s, *nn);
            assert(s@ =~= column_clause(*c));
        },
        SqlType::Time(nn) => {
            s.append(" REAL");
            push_not_null(&mut s, *nn);
            assert(s@ =~= column_clause(*c));
        },
        SqlType::Blob(nn) => {
            s.append(" BLOB");
            push_not_null(&mut s, *nn);
            assert(s@ =~= column_clause(*c));
        },
        SqlType::Boolean(nn) => {
            s.append(" INTEGER");
            push_not_null(&mut s, *nn);
            s.append(" CHECK(");
            s.append(c.sql_name.as_str());
            s.append(" >= 0 AND ");
            s.append(c.sql_name.as_str());
            s.append(" < 2)");
            assert(s@ =~= column_clause(*c));
        },
        SqlType::OneToOne(_, _) | SqlType::ManyToMany(_, _) => {
            return Err(DbError::UnsupportedType(c.sql_name.clone()));
        },
    }
    Ok(s)
}

fn push_not_null(s: &mut String, not_null: bool)
    ensures
        final(s)@ == old(s)@ + not_null_text(not_null),
{
    if not_null {
        s.append(" NOT NULL");
    } else {
        assert(old(s)@ + not_null_text(not_null) =~= old(s)@);
    }
}

impl SqliteDatabase {
    /// The `CREATE TABLE` statement for a table definition: its columns in
    /// ascending declaration order, joined with commas.  Fails on the first
    /// column, in that order, with a width outside its allowed set or a
    /// relationship type.
    pub fn get_table_sql(table: &TableDefinition) -> (r: Result<String, DbError>)
        ensures
            match spec_table_sql(*table) {
                Ok(text) => r matches Ok(s) && s@ == text,
                Err(e) => r == Err::<String, DbError>(e),
            },
    {
        let order = sort_by_order(&table.columns);
        let ghost cols = table.columns@;
        let ghost sorted = sorted_columns(cols);
        proof {
            lemma_sorted_positions(cols);
        }
        let mut body = String::new();
        let mut k: usize = 0;
        while k < order.len()
            invariant
                cols == table.columns@,
                sorted == sorted_columns(cols),
                sorted.len() == order@.len(),
                forall|j: int| 0 <= j < order@.len() ==> #[trigger] order@[j] < cols.len(),
                forall|j: int| 0 <= j < order@.len() ==> sorted[j] == cols[#[trigger] order@[j] as int],
                k <= order@.len(),
                first_column_error(sorted.take(k as int)).is_none(),
                body@ == join_commas(column_clauses(sorted.take(k as int))),
            decreases order@.len() - k,
        {
            let c = &table.columns[order[k]];
            assert(sorted.take(k as int + 1).drop_last() =~= sorted.take(k as int));
            assert(column_clauses(sorted.take(k as int + 1)) =~= column_clauses(sorted.take(k as int)).push(column_clause(*c)));
            match column_sql(c) {
                Err(e) => {
                    proof {
                        lemma_first_error_prefix(sorted, k as int + 1);
                    }
                    return Err(e);
                },
                Ok(cs) => {
                    if k > 0 {
                        body.append(",");
                    }
                    body.append(cs.as_str());
                    proof {
                        let parts = column_clauses(sorted.take(k as int + 1));
                        assert(parts.drop_last() =~= column_clauses(sorted.take(k as int)));
                        assert(body@ =~= join_commas(parts));
                    }
                },
            }
            k = k + 1;
        }
        assert(sorted.take(k as int) =~= sorted);
        let mut s = String::from_str("CREATE TABLE '");
        s.append(table.sql_name.as_str());
        s.append("'(");
        s.append(body.as_str());
        s.append(");");
        assert(s@ =~= create_table_text(table.sql_name@, sorted));
        Ok(s)
    }
}

/// An error within a prefix is the first error of the whole sequence.
proof fn lemma_first_error_prefix(cols: Seq<ColumnDefinition>, k: int)
    requires
        0 <= k <= cols.len(),
        first_column_error(cols.take(k)).is_some(),
    ensures
        first_column_error(cols) == first_column_error(cols.take(k)),
    decreases cols.len() - k,
{
    if k < cols.len() {
        assert(cols.take(k + 1).drop_last() =~= cols.take(k));
        lemma_first_error_prefix(cols, k + 1);
    } else {
        assert(cols.take(k) =~= cols);
    }
}

/// No column of a sequence without a first error has an error.
proof fn lemma_no_error(cols: Seq<ColumnDefinition>)
    requires
        first_column_error(cols).is_none(),
    ensures
        forall|k: int| 0 <= k < cols.len() ==> column_error(#[trigger] cols[k]).is_none(),
    decreases cols.len(),
{
    if cols.len() > 0 {
        lemma_no_error(cols.drop_last());
        assert forall|k: int| 0 <= k < cols.len() implies column_error(#[trigger] cols[k]).is_none() by {
            if k < cols.len() - 1 {
                assert(cols[k] == cols.drop_last()[k]);
            }
        }
    }
}

/// Positions of the sorted columns: each holds the column at a position of
/// the sequence given, and these positions are a permutation of all positions.
proof fn lemma_sorted_positions(cols: Seq<ColumnDefinition>)
    ensures
        ({
            let perm = select_sort(cols, all_indices(cols.len()));
            &&& perm.len() == cols.len()
            &&& perm.to_multiset() == all_indices(cols.len()).to_multiset()
            &&& forall|k: int| 0 <= k < cols.len() ==> #[trigger] perm[k] < cols.len()
            &&& forall|k: int| 0 <= k < cols.len() ==> sorted_columns(cols)[k] == cols[#[trigger] perm[k] as int]
            &&& sorted_columns(cols).len() == cols.len()
        }),
{
    broadcast use vstd::seq_lib::group_to_multiset_ensures;

    let all = all_indices(cols.len());
    let perm = select_sort(cols, all);
    lemma_select_sort(cols, all);
    assert forall|k: int| 0 <= k < cols.len() implies #[trigger] perm[k] < cols.len() by {
        assert(perm.contains(perm[k]));
        assert(perm.to_multiset().count(perm[k]) > 0);
        assert(all.to_multiset().count(perm[k]) > 0);
        assert(all.contains(perm[k]));
        let q = choose|q: int| 0 <= q < all.len() && all[q] == perm[k];
        assert(all[q] == q as usize);
    }
}

/// The statement for a table of N columns joins exactly N column clauses with
/// commas: the clause at position `k` declares the column at position `perm[k]`
/// of the definition, `perm` is a permutation of the N positions, and the
/// clauses run in ascending declaration order.
pub proof fn lemma_table_sql_columns(t: TableDefinition)
    requires
        spec_table_sql(t) is Ok,
    ensures
        ({
            let cols = t.columns@;
            let perm = select_sort(cols, all_indices(cols.len()));
            let clauses = column_clauses(sorted_columns(cols));
            &&& spec_table_sql(t) == Ok::<Seq<char>, DbError>(
                "CREATE TABLE '"@ + t.sql_name@ + "'("@ + join_commas(clauses) + ");"@,
            )
            &&& clauses.len() == cols.len()
            &&& perm.to_multiset() == all_indices(cols.len()).to_multiset()
            &&& forall|k: int| 0 <= k < cols.len() ==> #[trigger] clauses[k] == column_clause(cols[perm[k] as int])
            &&& forall|i: int, j: int|
                0 <= i <= j < cols.len() ==> #[trigger] cols[perm[i] as int].order <= #[trigger] cols[perm[j] as int].order
        }),
{
    lemma_sorted_positions(t.columns@);
    lemma_select_sort(t.columns@, all_indices(t.columns@.len()));
}

proof fn lemma_type_text_not_key(c: ColumnDefinition)
    requires
        !(c.is_key && c.sql_type is Integer),
    ensures
        column_type_text(c) != key_text(),
{
    reveal_strlit(" INTEGER PRIMARY KEY AUTOINCREMENT");
    reveal_strlit(" INTEGER");
    reveal_strlit(" NOT NULL");
    reveal_strlit(" CHECK(");
    reveal_strlit(" REAL");
    reveal_strlit(" TEXT");
    reveal_strlit(" BLOB");
    reveal_strlit(" VARCHAR(");
    let t = column_type_text(c);
    let k = key_text();
    match c.sql_type {
        SqlType::Integer(_, nn) => {
            assert(t.len() != k.len());
        },
        SqlType::UnsignedInteger(_, nn) => {
            if nn {
                assert(t[9] == 'N');
            } else {
                assert(t[9] == 'C');
            }
            assert(k[9] == 'P');
        },
        SqlType::Boolean(nn) => {
            if nn {
                assert(t[9] == 'N');
            } else {
                assert(t[9] == 'C');
            }
            assert(k[9] == 'P');
        },
        SqlType::Text(_) => {
            match c.max_length {
                Some(n) => assert(t[1] == 'V'),
                None => assert(t[1] == 'T'),
            }
            assert(k[1] == 'I');
        },
        SqlType::Float(_, _) | SqlType::Time(_) => {
            assert(t[1] == 'R');
            assert(k[1] == 'I');
        },
        SqlType::Date(_) | SqlType::DateTime(_) => {
            assert(t[1] == 'T');
            assert(k[1] == 'I');
        },
        SqlType::Blob(_) => {
            assert(t[1] == 'B');
            assert(k[1] == 'I');
        },
        _ => {
            assert(t.len() != k.len());
        },
    }
}

/// Where every key column is an integer column, the statement declares a
/// column as an autoincrementing primary key exactly when it is a key
/// column; every unsigned integer column's clause ends in `CHECK(col >= 0)`
/// and every boolean column's clause ends in `CHECK(col >= 0 AND col < 2)`.
pub proof fn lemma_table_sql_constraints(t: TableDefinition)
    requires
        spec_table_sql(t) is Ok,
        forall|i: int|
            0 <= i < t.columns@.len() && (#[trigger] t.columns@[i]).is_key ==> t.columns@[i].sql_type is Integer,
    ensures
        forall|k: int|
            0 <= k < t.columns@.len() ==> {
                let c = #[trigger] sorted_columns(t.columns@)[k];
                let clause = column_clauses(sorted_columns(t.columns@))[k];
                &&& (clause == c.sql_name@ + key_text() <==> c.is_key)
                &&& (c.sql_type is UnsignedInteger ==> clause.subrange(
                    clause.len() - unsigned_check(c.sql_name@).len(),
                    clause.len() as int,
                ) == unsigned_check(c.sql_name@))
                &&& (c.sql_type is Boolean ==> clause.subrange(
                    clause.len() - boolean_check(c.sql_name@).len(),
                    clause.len() as int,
                ) == boolean_check(c.sql_name@))
            },
{
    let cols = t.columns@;
    let sorted = sorted_columns(cols);
    lemma_sorted_positions(cols);
    lemma_no_error(sorted);
    assert forall|k: int| 0 <= k < cols.len() implies {
        let c = #[trigger] sorted[k];
        let clause = column_clauses(sorted)[k];
        &&& (clause == c.sql_name@ + key_text() <==> c.is_key)
        &&& (c.sql_type is UnsignedInteger ==> clause.subrange(
            clause.len() - unsigned_check(c.sql_name@).len(),
            clause.len() as int,
        ) == unsigned_check(c.sql_name@))
        &&& (c.sql_type is Boolean ==> clause.subrange(
            clause.len() - boolean_check(c.sql_name@).len(),
            clause.len() as int,
        ) == boolean_check(c.sql_name@))
    } by {
        let c = sorted[k];
        let clause = column_clauses(sorted)[k];
        let perm = select_sort(cols, all_indices(cols.len()));
        assert(c == cols[perm[k] as int]);
        assert(clause == c.sql_name@ + column_type_text(c));
        if !c.is_key {
            lemma_type_text_not_key(c);
            if clause == c.sql_name@ + key_text() {
                assert(clause.subrange(c.sql_name@.len() as int, clause.len() as int) =~= column_type_text(c));
                assert(clause.subrange(c.sql_name@.len() as int, clause.len() as int) =~= key_text());
            }
        }
        match c.sql_type {
            SqlType::UnsignedInteger(_, nn) => {
                let u = unsigned_check(c.sql_name@);
                assert(clause =~= (c.sql_name@ + " INTEGER"@ + not_null_text(nn)) + u);
                assert(clause.subrange(clause.len() - u.len(), clause.len() as int) =~= u);
            },
            SqlType::Boolean(nn) => {
                let b = boolean_check(c.sql_name@);
                assert(clause =~= (c.sql_name@ + " INTEGER"@ + not_null_text(nn)) + b);
                assert(clause.subrange(clause.len() - b.len(), clause.len() as int) =~= b);
            },
            _ => {},
        }
    }
}

} // verus!
