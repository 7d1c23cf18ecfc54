use vstd::prelude::*;
use crate::sql_type::{FieldKind, SqlType};

verus! {

/// How one field of a record type maps onto one column of a table.
#[derive(Debug, Clone)]
pub struct ColumnDefinition {
    /// Name of the field in the record type.
    pub rust_name: String,
    /// Name of the column in the table.
    pub sql_name: String,
    pub sql_type: SqlType,
    /// Declaration order; columns are laid out in ascending order.
    pub order: u32,
    /// Whether this column is the table's primary key.
    pub is_key: bool,
    /// Maximum length of a text column, if it has one.
    pub max_length: Option<usize>,
    /// Declared type of the field.
    pub field_kind: FieldKind,
}

/// A table: its SQL name and its columns.
#[derive(Debug, Clone)]
pub struct TableDefinition {
    pub sql_name: String,
    pub columns: Vec<ColumnDefinition>,
}

/// Index of the first column whose SQL name is `name`, if any.
pub open spec fn spec_find_column(cols: Seq<ColumnDefinition>, name: Seq<char>) -> Option<int>
    decreases cols.len(),
{
    if cols.len() == 0 {
        None
    } else if cols[0].sql_name@ == name {
        Some(0)
    } else {
        match spec_find_column(cols.drop_first(), name) {
            Some(i) => Some(i + 1),
            None => None,
        }
    }
}

pub proof fn lemma_find_column(cols: Seq<ColumnDefinition>, name: Seq<char>)
    ensures
        match spec_find_column(cols, name) {
            Some(i) => 0 <= i < cols.len() && cols[i].sql_name@ == name && forall|j: int|
                0 <= j < i ==> cols[j].sql_name@ != name,
            None => forall|j: int| 0 <= j < cols.len() ==> cols[j].sql_name@ != name,
        },
    decreases cols.len(),
{
    if cols.len() > 0 {
        lemma_find_column(cols.drop_first(), name);
        assert forall|j: int| 1 <= j < cols.len() implies cols[j] == cols.drop_first()[j - 1] by {}
    }
}

impl ColumnDefinition {
    pub fn new(rust_name: &str, sql_name: &str, sql_type: SqlType, order: u32, field_kind: FieldKind) -> (r: Self)
        ensures
            r.rust_name@ == rust_name@,
            r.sql_name@ == sql_name@,
            r.sql_type == sql_type,
            r.order == order,
            !r.is_key,
            r.max_length.is_none(),
            r.field_kind == field_kind,
    {
        ColumnDefinition {
            rust_name: rust_name.to_owned(),
            sql_name: sql_name.to_owned(),
            sql_type,
            order,
            is_key: false,
            max_length: None,
            field_kind,
        }
    }
}

impl TableDefinition {
    pub fn new(sql_name: &str) -> (r: Self)
        ensures
            r.sql_name@ == sql_name@,
            r.columns@.len() == 0,
    {
        TableDefinition { sql_name: sql_name.to_owned(), columns: Vec::new() }
    }

    /// Appends a column.
    pub fn add_column(&mut self, column: ColumnDefinition)
        ensures
            final(self).sql_name == old(self).sql_name,
            final(self).columns@ == old(self).columns@.push(column),
    {
        self.columns.push(column);
    }

    /// Looks up a column by its SQL name.
    pub fn get(&self, name: &String) -> (r: Option<&ColumnDefinition>)
        ensures
            match spec_find_column(self.columns@, name@) {
                Some(i) => r == Some(&self.columns@[i]),
                None => r.is_none(),
            },
    {
        proof {
            lemma_find_column(self.columns@, name@);
        }
        let mut i: usize = 0;
        while i < self.columns.len()
            invariant
                i <= self.columns@.len(),
                forall|j: int| 0 <= j < i ==> self.columns@[j].sql_name@ != name@,
                match spec_find_column(self.columns@, name@) {
                    Some(k) => 0 <= k < self.columns@.len() && self.columns@[k].sql_name@ == name@
                        && forall|j: int| 0 <= j < k ==> self.columns@[j].sql_name@ != name@,
                    None => forall|j: int| 0 <= j < self.columns@.len() ==> self.columns@[j].sql_name@ != name@,
                },
            decreases self.columns@.len() - i,
        {
            if self.columns[i].sql_name == *name {
                return Some(&self.columns[i]);
            }
            i = i + 1;
        }
        None
    }
}

} // verus!
