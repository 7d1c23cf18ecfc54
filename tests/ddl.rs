use erm_sqlite::database::SqliteDatabase;
use erm_sqlite::error::DbError;
use erm_sqlite::sql_type::{FieldKind, SqlType};
use erm_sqlite::table_definition::{ColumnDefinition, TableDefinition};

fn column(name: &str, ty: SqlType, order: u32, kind: FieldKind) -> ColumnDefinition {
    ColumnDefinition::new(name, name, ty, order, kind)
}

fn player_table() -> TableDefinition {
    let mut t = TableDefinition::new("Player");
    let mut id = column("id", SqlType::Integer(32, true), 0, FieldKind::I32);
    id.is_key = true;
    t.add_column(id);
    t.add_column(column("name", SqlType::Text(true), 1, FieldKind::Text));
    t.add_column(column("deaths", SqlType::Integer(32, true), 2, FieldKind::I32));
    t.add_column(column("email", SqlType::Text(true), 3, FieldKind::Text));
    t
}

#[test]
fn player_table_statement() {
    let sql = SqliteDatabase::get_table_sql(&player_table()).unwrap();
    assert_eq!(
        sql,
        "CREATE TABLE 'Player'(id INTEGER PRIMARY KEY AUTOINCREMENT,name TEXT NOT NULL,deaths INTEGER NOT NULL,email TEXT NOT NULL);"
    );
}

#[test]
fn columns_follow_declaration_order() {
    let mut t = TableDefinition::new("T");
    t.add_column(column("c", SqlType::Blob(false), 7, FieldKind::Other("x".to_string())));
    t.add_column(column("a", SqlType::Float(64, false), 1, FieldKind::F64));
    t.add_column(column("b", SqlType::Text(false), 3, FieldKind::Text));
    let sql = SqliteDatabase::get_table_sql(&t).unwrap();
    assert_eq!(sql, "CREATE TABLE 'T'(a REAL,b TEXT,c BLOB);");
    assert_eq!(sql.matches(',').count() + 1, 3);
}

#[test]
fn equal_orders_keep_definition_sequence() {
    let mut t = TableDefinition::new("T");
    t.add_column(column("y", SqlType::Blob(true), 1, FieldKind::Text));
    t.add_column(column("x", SqlType::Blob(true), 1, FieldKind::Text));
    t.add_column(column("w", SqlType::Blob(true), 0, FieldKind::Text));
    let sql = SqliteDatabase::get_table_sql(&t).unwrap();
    assert_eq!(sql, "CREATE TABLE 'T'(w BLOB NOT NULL,y BLOB NOT NULL,x BLOB NOT NULL);");
}

#[test]
fn empty_table_statement() {
    let t = TableDefinition::new("Empty");
    assert_eq!(SqliteDatabase::get_table_sql(&t).unwrap(), "CREATE TABLE 'Empty'();");
}

#[test]
fn unsigned_boolean_and_varchar_columns() {
    let mut t = TableDefinition::new("S");
    t.add_column(column("level", SqlType::UnsignedInteger(16, true), 0, FieldKind::U16));
    t.add_column(column("alive", SqlType::Boolean(false), 1, FieldKind::Bool));
    let mut nick = column("nick", SqlType::Text(true), 2, FieldKind::Text);
    nick.max_length = Some(120);
    t.add_column(nick);
    t.add_column(column("score", SqlType::Integer(64, false), 3, FieldKind::I64));
    let sql = SqliteDatabase::get_table_sql(&t).unwrap();
    assert_eq!(
        sql,
        "CREATE TABLE 'S'(level INTEGER NOT NULL CHECK(level >= 0),alive INTEGER CHECK(alive >= 0 AND alive < 2),nick VARCHAR(120) NOT NULL,score INTEGER);"
    );
}

#[test]
fn key_only_on_key_column() {
    let sql = SqliteDatabase::get_table_sql(&player_table()).unwrap();
    assert_eq!(sql.matches("PRIMARY KEY AUTOINCREMENT").count(), 1);
    assert!(sql.contains("id INTEGER PRIMARY KEY AUTOINCREMENT"));
}

#[test]
fn reserved_date_types_render() {
    let mut t = TableDefinition::new("D");
    t.add_column(column("d", SqlType::Date(true), 0, FieldKind::Text));
    t.add_column(column("t", SqlType::Time(false), 1, FieldKind::F64));
    t.add_column(column("dt", SqlType::DateTime(false), 2, FieldKind::Text));
    assert_eq!(
        SqliteDatabase::get_table_sql(&t).unwrap(),
        "CREATE TABLE 'D'(d TEXT NOT NULL,t REAL,dt TEXT);"
    );
}

#[test]
fn float_width_is_checked() {
    let mut t = TableDefinition::new("F");
    t.add_column(column("ok", SqlType::Float(32, true), 0, FieldKind::F32));
    t.add_column(column("bad", SqlType::Float(16, true), 1, FieldKind::F32));
    assert_eq!(SqliteDatabase::get_table_sql(&t), Err(DbError::InvalidWidth("bad".to_string())));
}

#[test]
fn integer_width_is_checked() {
    let mut t = TableDefinition::new("I");
    t.add_column(column("n", SqlType::UnsignedInteger(12, true), 0, FieldKind::U16));
    assert_eq!(SqliteDatabase::get_table_sql(&t), Err(DbError::InvalidWidth("n".to_string())));
}

#[test]
fn relationship_columns_fail() {
    let mut t = TableDefinition::new("R");
    t.add_column(column("late", SqlType::ManyToMany("Item".to_string(), true), 5, FieldKind::I64));
    t.add_column(column("early", SqlType::OneToOne("Team".to_string(), true), 2, FieldKind::I64));
    assert_eq!(SqliteDatabase::get_table_sql(&t), Err(DbError::UnsupportedType("early".to_string())));
}

#[test]
fn lookup_by_sql_name() {
    let t = player_table();
    assert_eq!(t.get(&"deaths".to_string()).unwrap().order, 2);
    assert!(t.get(&"missing".to_string()).is_none());
}
