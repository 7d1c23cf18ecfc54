use erm_sqlite::database::SqliteDatabase;
use erm_sqlite::error::DbError;
use erm_sqlite::materialize::StagedValue;
use erm_sqlite::sql_type::{FieldKind, SqlType, VectorKind};
use erm_sqlite::table_definition::{ColumnDefinition, TableDefinition};
use erm_sqlite::value::{FieldValue, SqlValue};
use erm_sqlite::value_to_sql_wrapper::ValueWrapper;
use rusqlite::types::Value;
use rusqlite::Connection;

fn player_table() -> TableDefinition {
    let mut t = TableDefinition::new("Player");
    let mut id = ColumnDefinition::new("id", "id", SqlType::Integer(32, true), 0, FieldKind::I32);
    id.is_key = true;
    t.add_column(id);
    t.add_column(ColumnDefinition::new("name", "name", SqlType::Text(true), 1, FieldKind::Text));
    t.add_column(ColumnDefinition::new("deaths", "deaths", SqlType::Integer(32, true), 2, FieldKind::I32));
    t.add_column(ColumnDefinition::new("email", "email", SqlType::Text(true), 3, FieldKind::Text));
    t
}

fn to_engine(v: &SqlValue) -> Value {
    match v {
        SqlValue::Null => Value::Null,
        SqlValue::Integer(i) => Value::Integer(*i),
        SqlValue::Real(b) => Value::Real(f64::from_bits(*b)),
        SqlValue::Text(s) => Value::Text(s.clone()),
        SqlValue::Blob(b) => Value::Blob(b.clone()),
    }
}

fn from_engine(v: Value) -> SqlValue {
    match v {
        Value::Null => SqlValue::Null,
        Value::Integer(i) => SqlValue::Integer(i),
        Value::Real(f) => SqlValue::Real(f.to_bits()),
        Value::Text(s) => SqlValue::Text(s),
        Value::Blob(b) => SqlValue::Blob(b),
    }
}

fn opened() -> (SqliteDatabase, Connection) {
    let conn = Connection::open_in_memory().unwrap();
    let mut db = SqliteDatabase::new();
    db.open(Ok(())).unwrap();
    (db, conn)
}

fn table_exists(conn: &Connection, name: &str) -> bool {
    let query = SqliteDatabase::table_exists_query(name);
    let count: i64 = conn.query_row(&query, [], |r| r.get(0)).unwrap();
    SqliteDatabase::table_exists(Some(count))
}

fn create_table(db: &SqliteDatabase, conn: &Connection, def: &TableDefinition) {
    let exists = table_exists(conn, &def.sql_name);
    if let Some(sql) = db.create_table(def, exists).unwrap() {
        conn.execute(&sql, []).unwrap();
    }
}

fn insert_player(db: &SqliteDatabase, conn: &Connection, table: &TableDefinition, deaths: i32, name: &str, email: &str) -> usize {
    let record = vec![
        ValueWrapper::build(FieldValue::I32(0), "i32"),
        ValueWrapper::build(FieldValue::Text(name.to_string()), "String"),
        ValueWrapper::build(FieldValue::I32(deaths), "i32"),
        ValueWrapper::build(FieldValue::Text(email.to_string()), "String"),
    ];
    let (sql, params) = db.insert(table, &record).unwrap();
    let values: Vec<Value> = params.iter().map(to_engine).collect();
    conn.execute(&sql, rusqlite::params_from_iter(values.iter())).unwrap()
}

fn query(table: &TableDefinition, conn: &Connection, sql: &str) -> Vec<Vec<(String, StagedValue)>> {
    let mut stmt = conn.prepare(sql).unwrap();
    let names: Vec<String> = stmt.column_names().iter().map(|x| x.to_string()).collect();
    let mut rows = stmt.query([]).unwrap();
    let mut out = Vec::new();
    while let Some(row) = rows.next().unwrap() {
        let mut values = Vec::new();
        for i in 0..names.len() {
            values.push(from_engine(row.get::<usize, Value>(i).unwrap()));
        }
        out.push(SqliteDatabase::read_row(table, &names, &values).unwrap());
    }
    out
}

fn field<'a>(row: &'a [(String, StagedValue)], name: &str) -> &'a StagedValue {
    &row.iter().find(|(n, _)| n == name).unwrap().1
}

#[test]
fn test_create_database() {}

#[test]
fn test_database_connection() {
    let (mut db, conn) = opened();
    assert!(!table_exists(&conn, "Player"));
    let rows = conn
        .execute(
            "
            CREATE TABLE Player 
            (
                id INTEGER PRIMARY KEY, 
                name TEXT NOT NULL, 
                deaths INTEGER NOT NULL DEFAULT 0
            );",
            [],
        )
        .unwrap();
    assert_eq!(rows, 0);
    assert!(table_exists(&conn, "Player"));
    conn.close().unwrap();
    db.close(Ok(())).unwrap();
    assert!(!db.is_open());
}

#[test]
fn test_simple_table_generation() {
    let (mut db, conn) = opened();
    assert!(!table_exists(&conn, "Player"));
    let table = player_table();
    create_table(&db, &conn, &table);
    assert!(table_exists(&conn, "Player"));
    // A second creation is a no-op.
    assert_eq!(db.create_table(&table, true), Ok(None));
    db.close(Ok(())).unwrap();
}

#[test]
fn test_insert_item() {
    let (mut db, conn) = opened();
    let table = player_table();
    create_table(&db, &conn, &table);
    assert_eq!(insert_player(&db, &conn, &table, 10, "Runna vom Sofa", "test_1@testen.com"), 1);
    insert_player(&db, &conn, &table, 30, "Anne Straße", "test_2@testen.com");
    insert_player(&db, &conn, &table, 100, "Timo Beil", "test_3@testen.com");
    insert_player(&db, &conn, &table, 24, "Rainer Szuvall", "test_4@testen.com");

    let test = query(&table, &conn, "SELECT * FROM 'Player' WHERE name LIKE 'Timo%';");
    assert!(!test.is_empty());
    assert_eq!(test.len(), 1);
    assert_eq!(field(&test[0], "deaths"), &StagedValue::Plain(FieldValue::I32(100)));
    assert_eq!(field(&test[0], "name"), &StagedValue::Plain(FieldValue::Text("Timo Beil".to_string())));
    assert_eq!(field(&test[0], "email"), &StagedValue::Plain(FieldValue::Text("test_3@testen.com".to_string())));
    db.close(Ok(())).unwrap();
}

#[test]
fn insert_statement_skips_key_columns() {
    let (db, _conn) = opened();
    let record = vec![
        ValueWrapper::build(FieldValue::I32(7), "i32"),
        ValueWrapper::build(FieldValue::Text("n".to_string()), "String"),
        ValueWrapper::build(FieldValue::I32(3), "i32"),
        ValueWrapper::build(FieldValue::Text("e".to_string()), "String"),
    ];
    let (sql, params) = db.insert(&player_table(), &record).unwrap();
    assert_eq!(sql, "INSERT INTO Player (name, deaths, email) VALUES (?, ?, ?);");
    assert_eq!(
        params,
        vec![SqlValue::Text("n".to_string()), SqlValue::Integer(3), SqlValue::Text("e".to_string())]
    );
}

#[test]
fn insert_with_unsupported_field_fails() {
    let (db, _conn) = opened();
    let record = vec![
        ValueWrapper::build(FieldValue::I32(7), "i32"),
        ValueWrapper::build(FieldValue::Unsupported, "Handle<Image>"),
        ValueWrapper::build(FieldValue::I32(3), "i32"),
        ValueWrapper::build(FieldValue::Text("e".to_string()), "String"),
    ];
    assert_eq!(db.insert(&player_table(), &record), Err(DbError::UnsupportedType("Handle<Image>".to_string())));
}

#[test]
fn operations_need_an_open_connection() {
    let mut db = SqliteDatabase::new();
    assert_eq!(db.check_open(), Err(DbError::NotConnected));
    assert_eq!(db.create_table(&player_table(), false), Err(DbError::NotConnected));
    assert_eq!(db.query_scalar(vec![1i64]), Err(DbError::NotConnected));
    assert_eq!(db.open(Err("no such file".to_string())), Err(DbError::Connection("no such file".to_string())));
    assert!(!db.is_open());
    assert_eq!(db.close(Err("ignored".to_string())), Ok(()));
    db.open(Ok(())).unwrap();
    assert_eq!(db.check_open(), Ok(()));
    assert_eq!(db.close(Err("busy".to_string())), Err(DbError::Connection("busy".to_string())));
    assert!(!db.is_open());
    db.open(Ok(())).unwrap();
    assert!(db.is_open());
}

#[test]
fn query_scalar_takes_first_row() {
    let (db, _conn) = opened();
    assert_eq!(db.query_scalar::<i64>(vec![]), Ok(None));
    assert_eq!(db.query_scalar(vec![5i64]), Ok(Some(5)));
    assert_eq!(db.query_scalar(vec![5i64, 6, 7]), Ok(Some(5)));
}

#[test]
fn table_exists_query_text() {
    assert_eq!(
        SqliteDatabase::table_exists_query("Player"),
        "SELECT Count(*) as Tables FROM sqlite_master WHERE type='table' AND name='Player';"
    );
    assert!(!SqliteDatabase::table_exists(Some(0)));
    assert!(SqliteDatabase::table_exists(Some(2)));
    assert!(!SqliteDatabase::table_exists(None));
}

#[test]
fn unmapped_result_columns_are_skipped() {
    let table = player_table();
    let names = vec!["deaths".to_string(), "extra".to_string()];
    let row = vec![SqlValue::Integer(4), SqlValue::Text("x".to_string())];
    assert_eq!(
        SqliteDatabase::read_row(&table, &names, &row),
        Ok(vec![("deaths".to_string(), StagedValue::Plain(FieldValue::I32(4)))])
    );
}

#[test]
fn row_with_unsupported_blob_field_fails() {
    let mut t = TableDefinition::new("Shape");
    t.add_column(ColumnDefinition::new("n", "n", SqlType::Integer(32, true), 0, FieldKind::I32));
    t.add_column(ColumnDefinition::new("m", "m", SqlType::Blob(true), 1, FieldKind::Other("Mat4".to_string())));
    let names = vec!["n".to_string(), "m".to_string()];
    let row = vec![SqlValue::Integer(1), SqlValue::Blob(vec![0; 64])];
    assert_eq!(SqliteDatabase::read_row(&t, &names, &row), Err(DbError::UnsupportedType("m".to_string())));
}

#[test]
fn record_round_trips_by_unique_field() {
    let mut t = TableDefinition::new("Thing");
    let mut id = ColumnDefinition::new("id", "id", SqlType::Integer(64, true), 0, FieldKind::I64);
    id.is_key = true;
    t.add_column(id);
    t.add_column(ColumnDefinition::new("tag", "tag", SqlType::Text(true), 1, FieldKind::Text));
    t.add_column(ColumnDefinition::new("small", "small", SqlType::UnsignedInteger(8, true), 2, FieldKind::U8));
    t.add_column(ColumnDefinition::new("big", "big", SqlType::UnsignedInteger(64, false), 3, FieldKind::U64));
    t.add_column(ColumnDefinition::new("ratio", "ratio", SqlType::Float(64, true), 4, FieldKind::F64));
    t.add_column(ColumnDefinition::new(
        "pos",
        "pos",
        SqlType::Blob(true),
        5,
        FieldKind::Vector(VectorKind::Vec3),
    ));
    let (db, conn) = opened();
    create_table(&db, &conn, &t);
    let pos = vec![1.0f32.to_bits(), (-2.0f32).to_bits(), 0.5f32.to_bits()];
    for (tag, small) in [("a", 1u8), ("b", 200u8)] {
        let record = vec![
            ValueWrapper::build(FieldValue::I64(0), "i64"),
            ValueWrapper::build(FieldValue::Text(tag.to_string()), "String"),
            ValueWrapper::build(FieldValue::U8(small), "u8"),
            ValueWrapper::build(FieldValue::U64(i64::MAX as u64), "u64"),
            ValueWrapper::build(FieldValue::Real(0.25f64.to_bits()), "f64"),
            ValueWrapper::build(FieldValue::Vector(VectorKind::Vec3, pos.clone()), "Vec3"),
        ];
        let (sql, params) = db.insert(&t, &record).unwrap();
        let values: Vec<Value> = params.iter().map(to_engine).collect();
        assert_eq!(conn.execute(&sql, rusqlite::params_from_iter(values.iter())).unwrap(), 1);
    }
    let rows = query(&t, &conn, "SELECT * FROM 'Thing' WHERE tag = 'b';");
    assert_eq!(rows.len(), 1);
    let r = &rows[0];
    assert_eq!(field(r, "tag"), &StagedValue::Plain(FieldValue::Text("b".to_string())));
    assert_eq!(field(r, "small"), &StagedValue::Plain(FieldValue::U8(200)));
    assert_eq!(field(r, "big"), &StagedValue::Optional(Some(FieldValue::U64(i64::MAX as u64))));
    assert_eq!(field(r, "ratio"), &StagedValue::Plain(FieldValue::Real(0.25f64.to_bits())));
    assert_eq!(field(r, "pos"), &StagedValue::Plain(FieldValue::Vector(VectorKind::Vec3, pos)));
}
