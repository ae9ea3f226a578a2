use forrs::category::Category;
use forrs::db::insert;
use forrs::error::{DbCause, Error};
use forrs::id::Id;
use forrs::rest::{all_categories, category_by_id, category_by_name, error_response, new_category};

fn category(id: u64, name: &str) -> Category {
    Category {
        id: Id::new(id),
        name: name.to_string(),
    }
}

fn unique_violation() -> DbCause {
    DbCause {
        code: Some("23505".to_string()),
        message: "duplicate key value violates unique constraint".to_string(),
    }
}

#[test]
fn category_by_id_missing_is_404() {
    let r = category_by_id(Ok(None));
    assert_eq!(r.status, 404);
    assert_eq!(r.body, "Not found: Category does not exist");
    assert!(r.body.contains("Category does not exist"));
}

#[test]
fn category_by_id_found_is_200_with_json_object() {
    let r = category_by_id(Ok(Some(category(42, "Books"))));
    assert_eq!(r.status, 200);
    assert_eq!(r.body, "{\"id\":42,\"name\":\"Books\"}");
}

#[test]
fn category_by_id_failure_is_500() {
    let e = Error::QueryFailure {
        context: "loading item".to_string(),
        cause: DbCause {
            code: None,
            message: "broken pipe".to_string(),
        },
    };
    let r = category_by_id(Err(e));
    assert_eq!(r.status, 500);
    assert_eq!(r.body, "Database error loading item: broken pipe");
}

#[test]
fn category_by_name_missing_is_404() {
    let r = category_by_name(Ok(None));
    assert_eq!(r.status, 404);
    assert_eq!(r.body, "Not found: Category does not exist");
}

#[test]
fn category_by_name_found_is_200_with_json_object() {
    let r = category_by_name(Ok(Some(category(3, "Music"))));
    assert_eq!(r.status, 200);
    assert_eq!(r.body, "{\"id\":3,\"name\":\"Music\"}");
}

#[test]
fn all_categories_empty_table_is_200_with_empty_array() {
    let r = all_categories(Ok(vec![]));
    assert_eq!(r.status, 200);
    assert_eq!(r.body, "[]");
}

#[test]
fn all_categories_renders_every_record() {
    let r = all_categories(Ok(vec![category(1, "Books"), category(2, "Music")]));
    assert_eq!(r.status, 200);
    assert_eq!(
        r.body,
        "[{\"id\":1,\"name\":\"Books\"},{\"id\":2,\"name\":\"Music\"}]"
    );
}

#[test]
fn new_category_twice_first_200_then_400() {
    let first = new_category(insert::<Category>(Ok(11)));
    assert_eq!(first.status, 200);
    assert_eq!(first.body, "11");
    assert!(first.body.parse::<u64>().is_ok());

    let second = new_category(insert::<Category>(Err(unique_violation())));
    assert_eq!(second.status, 400);
    assert_eq!(second.body, "A Category must have a unique name!");
}

#[test]
fn new_category_other_failure_is_500() {
    let r = new_category(insert::<Category>(Err(DbCause {
        code: Some("53300".to_string()),
        message: "too many connections".to_string(),
    })));
    assert_eq!(r.status, 500);
    assert_eq!(r.body, "Database error saving Category: too many connections");
}

#[test]
fn new_category_largest_id_renders_in_full() {
    let r = new_category(Ok(Id::new(u64::MAX)));
    assert_eq!(r.status, 200);
    assert_eq!(r.body, "18446744073709551615");
}

#[test]
fn json_escapes_quotes_and_backslashes_in_names() {
    let r = category_by_id(Ok(Some(category(5, "a\"b\\c"))));
    assert_eq!(r.body, "{\"id\":5,\"name\":\"a\\\"b\\\\c\"}");
}

#[test]
fn error_statuses_follow_the_fixed_mapping() {
    let connection = Error::ConnectionFailure {
        cause: DbCause {
            code: None,
            message: "no route to host".to_string(),
        },
    };
    let r = error_response(&connection);
    assert_eq!(r.status, 500);
    assert_eq!(
        r.body,
        "Database error connecting to database: no route to host"
    );

    let decode = Error::DecodeFailure {
        context: "column 0 must be a bigint named id".to_string(),
    };
    assert_eq!(error_response(&decode).status, 500);

    let not_found = Error::NotFound {
        context: "Category does not exist".to_string(),
    };
    assert_eq!(error_response(&not_found).status, 404);

    let non_unique = Error::NonUniqueViolation {
        table: "Category".to_string(),
        field: "name".to_string(),
    };
    let r = error_response(&non_unique);
    assert_eq!(r.status, 400);
    assert_eq!(r.body, "A Category must have a unique name!");
}

#[test]
fn unique_violation_detection_reads_the_sql_state() {
    assert!(unique_violation().is_unique_violation());
    let other = DbCause {
        code: Some("23503".to_string()),
        message: "foreign key violation".to_string(),
    };
    assert!(!other.is_unique_violation());
    let none = DbCause {
        code: None,
        message: "broken".to_string(),
    };
    assert!(!none.is_unique_violation());
}
