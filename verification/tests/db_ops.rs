use forrs::category::Category;
use forrs::db::{fetch_item_opt, fetch_items, insert, select_all_statement};
use forrs::error::{DbCause, Error};
use forrs::id::Id;
use forrs::sql::{Column, FromRow, IntoInsert, Row, SqlValue, Table};

fn category_row(id: i64, name: &str) -> Row {
    Row {
        cols: vec![
            Column {
                name: "id".to_string(),
                value: SqlValue::BigInt(id),
            },
            Column {
                name: "name".to_string(),
                value: SqlValue::Text(name.to_string()),
            },
        ],
    }
}

fn query_cause(code: Option<&str>, message: &str) -> DbCause {
    DbCause {
        code: code.map(|c| c.to_string()),
        message: message.to_string(),
    }
}

#[test]
fn fetch_item_opt_zero_rows_is_ok_none() {
    let r: Result<Option<Category>, Error> = fetch_item_opt(Ok(vec![]));
    assert!(matches!(r, Ok(None)));
}

#[test]
fn fetch_item_opt_decodes_the_first_row_only() {
    let rows = vec![category_row(1, "Books"), category_row(2, "Music")];
    let r: Result<Option<Category>, Error> = fetch_item_opt(Ok(rows));
    let c = r.unwrap().unwrap();
    assert_eq!(c.id.value(), 1);
    assert_eq!(c.name, "Books");
}

#[test]
fn fetch_item_opt_execution_failure_is_query_failure() {
    let r: Result<Option<Category>, Error> =
        fetch_item_opt(Err(query_cause(Some("57014"), "statement cancelled")));
    let e = r.unwrap_err();
    assert!(matches!(e, Error::QueryFailure { .. }));
    assert_eq!(
        e.message(),
        "Database error loading item: statement cancelled"
    );
    assert_eq!(e.http_status(), 500);
}

#[test]
fn fetch_item_opt_bad_row_is_decode_failure() {
    let row = Row {
        cols: vec![Column {
            name: "id".to_string(),
            value: SqlValue::BigInt(1),
        }],
    };
    let r: Result<Option<Category>, Error> = fetch_item_opt(Ok(vec![row]));
    assert!(matches!(r.unwrap_err(), Error::DecodeFailure { .. }));
}

#[test]
fn fetch_items_decodes_every_row_in_order() {
    let rows = vec![category_row(1, "Books"), category_row(2, "Music")];
    let r: Result<Vec<Category>, Error> = fetch_items(Ok(rows));
    let cats = r.unwrap();
    assert_eq!(cats.len(), 2);
    assert_eq!(cats[0].id.value(), 1);
    assert_eq!(cats[0].name, "Books");
    assert_eq!(cats[1].id.value(), 2);
    assert_eq!(cats[1].name, "Music");
}

#[test]
fn fetch_items_one_bad_row_fails_the_whole_call() {
    let bad = Row {
        cols: vec![
            Column {
                name: "id".to_string(),
                value: SqlValue::Text("oops".to_string()),
            },
            Column {
                name: "name".to_string(),
                value: SqlValue::Text("Books".to_string()),
            },
        ],
    };
    let rows = vec![category_row(1, "Books"), bad, category_row(3, "Music")];
    let r: Result<Vec<Category>, Error> = fetch_items(Ok(rows));
    let e = r.unwrap_err();
    assert!(matches!(e, Error::DecodeFailure { .. }));
    assert_eq!(e.message(), "Error parsing row: column 0 must be a bigint named id");
}

#[test]
fn fetch_items_execution_failure_is_query_failure() {
    let r: Result<Vec<Category>, Error> =
        fetch_items(Err(query_cause(None, "connection reset")));
    let e = r.unwrap_err();
    assert_eq!(e.message(), "Database error loading items: connection reset");
}

#[test]
fn insert_success_returns_the_generated_id() {
    let r = insert::<Category>(Ok(42));
    assert_eq!(r.unwrap().value(), 42);
}

#[test]
fn insert_unique_violation_names_table_and_field() {
    let r = insert::<Category>(Err(query_cause(Some("23505"), "duplicate key value")));
    match r.unwrap_err() {
        Error::NonUniqueViolation { table, field } => {
            assert_eq!(table, "Category");
            assert_eq!(field, "name");
        }
        other => panic!("expected NonUniqueViolation, got {:?}", other),
    }
}

#[test]
fn insert_other_sql_state_is_query_failure() {
    let r = insert::<Category>(Err(query_cause(Some("57014"), "statement cancelled")));
    let e = r.unwrap_err();
    assert!(matches!(e, Error::QueryFailure { .. }));
    assert_eq!(
        e.message(),
        "Database error saving Category: statement cancelled"
    );
}

#[test]
fn insert_failure_without_sql_state_is_query_failure() {
    let r = insert::<Category>(Err(query_cause(None, "broken pipe")));
    assert!(matches!(r.unwrap_err(), Error::QueryFailure { .. }));
}

#[test]
fn select_all_statement_names_the_table() {
    let s = select_all_statement::<Category>();
    assert_eq!(s, "SELECT * FROM Category");
}

#[test]
fn category_insert_contract_is_fixed() {
    assert_eq!(
        <Category as IntoInsert>::insert_stmt(),
        "INSERT INTO Category (name) VALUES ($1) RETURNING id"
    );
    assert_eq!(<Category as Table>::table_name(), "Category");
    assert_eq!(<Category as IntoInsert>::name_field(), Some("name"));
    let c = Category::new("Books".to_string());
    let params = c.insert_params();
    assert_eq!(params.len(), 1);
    assert!(matches!(&params[0], SqlValue::Text(n) if n == "Books"));
}

#[test]
fn roundtrip_insert_then_fetch_by_returned_id() {
    let inserted = Category::new("Books".to_string());
    assert_eq!(inserted.insert_params().len(), 1);
    let id = insert::<Category>(Ok(7)).unwrap();
    let fetched: Category = fetch_item_opt(Ok(vec![category_row(id.value() as i64, "Books")]))
        .unwrap()
        .unwrap();
    assert_eq!(fetched.id.value(), id.value());
    assert_eq!(fetched.name, "Books");
}

#[test]
fn decode_rejects_wrong_column_count() {
    let row = Row { cols: vec![] };
    let r: Result<Category, Error> = <Category as FromRow>::from_row(&row);
    let e = r.unwrap_err();
    assert_eq!(
        e.message(),
        "Error parsing row: a Category row must have exactly the columns id, name"
    );
}

#[test]
fn decode_rejects_misnamed_column() {
    let row = Row {
        cols: vec![
            Column {
                name: "key".to_string(),
                value: SqlValue::BigInt(1),
            },
            Column {
                name: "name".to_string(),
                value: SqlValue::Text("Books".to_string()),
            },
        ],
    };
    let r: Result<Category, Error> = <Category as FromRow>::from_row(&row);
    assert!(matches!(r.unwrap_err(), Error::DecodeFailure { .. }));
}

#[test]
fn decode_rejects_mistyped_name_column() {
    let row = Row {
        cols: vec![
            Column {
                name: "id".to_string(),
                value: SqlValue::BigInt(1),
            },
            Column {
                name: "name".to_string(),
                value: SqlValue::Null,
            },
        ],
    };
    let r: Result<Category, Error> = <Category as FromRow>::from_row(&row);
    assert_eq!(
        r.unwrap_err().message(),
        "Error parsing row: column 1 must be text named name"
    );
}

#[test]
fn decode_rejects_negative_id() {
    let row = category_row(-1, "Books");
    let r: Result<Category, Error> = <Category as FromRow>::from_row(&row);
    assert_eq!(
        r.unwrap_err().message(),
        "Error parsing row: column id must not be negative"
    );
}

#[test]
fn id_converts_to_and_from_the_raw_number() {
    let id = Id::from(9);
    assert_eq!(id.value(), 9);
    assert_eq!(Id::new(0).value(), 0);
}
