use user_repo::models::{DbColumn, DbRow, User};
use user_repo::MyError;

fn col(name: &str, value: &str) -> DbColumn {
    DbColumn { name: name.to_string(), value: value.to_string() }
}

fn full_row() -> DbRow {
    DbRow {
        columns: vec![
            col("email", "a@x.com"),
            col("first_name", "A"),
            col("last_name", "B"),
            col("username", "ab"),
        ],
    }
}

#[test]
fn maps_row_with_all_columns() {
    let u = User::from_row(&full_row()).unwrap();
    assert_eq!(u.email, "a@x.com");
    assert_eq!(u.first_name, "A");
    assert_eq!(u.last_name, "B");
    assert_eq!(u.username, "ab");
}

#[test]
fn mapping_is_position_independent() {
    let row = DbRow {
        columns: vec![
            col("username", "ab"),
            col("last_name", "B"),
            col("email", "a@x.com"),
            col("first_name", "A"),
        ],
    };
    let u = User::from_row(&row).unwrap();
    assert_eq!(u.email, "a@x.com");
    assert_eq!(u.first_name, "A");
    assert_eq!(u.last_name, "B");
    assert_eq!(u.username, "ab");
}

#[test]
fn extra_columns_are_ignored() {
    let mut row = full_row();
    row.columns.insert(0, col("id", "7"));
    let u = User::from_row(&row).unwrap();
    assert_eq!(u.email, "a@x.com");
    assert_eq!(u.username, "ab");
}

#[test]
fn first_of_duplicate_columns_wins() {
    let mut row = full_row();
    row.columns.push(col("email", "b@x.com"));
    let u = User::from_row(&row).unwrap();
    assert_eq!(u.email, "a@x.com");
}

#[test]
fn missing_column_is_mapping_error() {
    let row = DbRow {
        columns: vec![col("email", "a@x.com"), col("last_name", "B"), col("username", "ab")],
    };
    let e = User::from_row(&row).unwrap_err();
    assert_eq!(e, MyError::PGMError("first_name".to_string()));
}

#[test]
fn empty_row_reports_first_canonical_column() {
    let row = DbRow { columns: vec![] };
    let e = User::from_row(&row).unwrap_err();
    assert_eq!(e, MyError::PGMError("email".to_string()));
}

#[test]
fn empty_string_values_are_populated_fields() {
    let row = DbRow {
        columns: vec![col("email", ""), col("first_name", ""), col("last_name", ""), col(
            "username", "",
        )],
    };
    let u = User::from_row(&row).unwrap();
    assert_eq!(u.email, "");
    assert_eq!(u.username, "");
}
