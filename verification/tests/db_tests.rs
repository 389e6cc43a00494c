use user_repo::db::{add_user, get_user_by_id, get_users, DbOutcome};
use user_repo::models::{DbColumn, DbRow, User};
use user_repo::MyError;

fn col(name: &str, value: &str) -> DbColumn {
    DbColumn { name: name.to_string(), value: value.to_string() }
}

fn row_for(email: &str, first: &str, last: &str, username: &str) -> DbRow {
    DbRow {
        columns: vec![
            col("email", email),
            col("first_name", first),
            col("last_name", last),
            col("username", username),
        ],
    }
}

fn sample_user() -> User {
    User {
        email: "a@x.com".to_string(),
        first_name: "A".to_string(),
        last_name: "B".to_string(),
        username: "ab".to_string(),
    }
}

#[test]
fn create_round_trips_the_input() {
    // The store echoes the inserted row back; the returned record's four
    // fields equal the payload exactly.
    let echoed = row_for("a@x.com", "A", "B", "ab");
    let created = add_user(DbOutcome::Rows(vec![echoed])).unwrap();
    assert_eq!(created, sample_user());
}

#[test]
fn create_with_empty_result_set_is_not_found() {
    let r = add_user(DbOutcome::Rows(vec![]));
    assert_eq!(r.unwrap_err(), MyError::NotFound);
}

#[test]
fn create_with_execution_failure_is_query_error() {
    let r = add_user(DbOutcome::Failure("duplicate key".to_string()));
    assert_eq!(r.unwrap_err(), MyError::PGError("duplicate key".to_string()));
}

#[test]
fn create_with_unmappable_row_is_mapping_error() {
    let bad = DbRow { columns: vec![col("email", "a@x.com")] };
    let r = add_user(DbOutcome::Rows(vec![bad]));
    assert_eq!(r.unwrap_err(), MyError::PGMError("first_name".to_string()));
}

#[test]
fn distinct_inputs_create_distinct_records() {
    let first = add_user(DbOutcome::Rows(vec![row_for("a@x.com", "A", "B", "ab")])).unwrap();
    let second = add_user(DbOutcome::Rows(vec![row_for("c@x.com", "C", "D", "cd")])).unwrap();
    assert_ne!(first, second);
}

#[test]
fn list_on_empty_table_is_empty_and_no_error() {
    let r = get_users(DbOutcome::Rows(vec![]));
    assert_eq!(r.unwrap(), Vec::<User>::new());
}

#[test]
fn list_maps_every_row_in_order() {
    let rows = vec![row_for("a@x.com", "A", "B", "ab"), row_for("c@x.com", "C", "D", "cd")];
    let users = get_users(DbOutcome::Rows(rows)).unwrap();
    assert_eq!(users.len(), 2);
    assert_eq!(users[0].email, "a@x.com");
    assert_eq!(users[1].email, "c@x.com");
}

#[test]
fn list_with_execution_failure_is_query_error() {
    let r = get_users(DbOutcome::Failure("relation does not exist".to_string()));
    assert_eq!(r.unwrap_err(), MyError::PGError("relation does not exist".to_string()));
}

#[test]
fn list_reports_first_unmappable_row() {
    let bad = DbRow { columns: vec![col("email", "x@x.com"), col("first_name", "X")] };
    let rows = vec![row_for("a@x.com", "A", "B", "ab"), bad];
    let r = get_users(DbOutcome::Rows(rows));
    assert_eq!(r.unwrap_err(), MyError::PGMError("last_name".to_string()));
}

#[test]
fn lookup_of_absent_id_is_not_found_not_query_error() {
    // An absent identifier yields an empty result set, classified as
    // NotFound and never as PGError.
    let r = get_user_by_id(DbOutcome::Rows(vec![]));
    assert_eq!(r.unwrap_err(), MyError::NotFound);
}

#[test]
fn lookup_of_present_id_returns_stored_fields() {
    let r = get_user_by_id(DbOutcome::Rows(vec![row_for("a@x.com", "A", "B", "ab")]));
    assert_eq!(r.unwrap(), sample_user());
}

#[test]
fn lookup_takes_first_row_deterministically() {
    let rows = vec![row_for("a@x.com", "A", "B", "ab"), row_for("c@x.com", "C", "D", "cd")];
    let r = get_user_by_id(DbOutcome::Rows(rows));
    assert_eq!(r.unwrap(), sample_user());
}

#[test]
fn lookup_with_execution_failure_is_query_error() {
    let r = get_user_by_id(DbOutcome::Failure("connection reset".to_string()));
    assert_eq!(r.unwrap_err(), MyError::PGError("connection reset".to_string()));
}
