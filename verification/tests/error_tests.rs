use user_repo::{handle_echo, MyError};

#[test]
fn echo_replies_with_static_message() {
    let r = handle_echo();
    assert_eq!(r.status, 200);
    assert_eq!(r.body, "Server working");
}

#[test]
fn not_found_maps_to_404_with_empty_body() {
    let r = MyError::NotFound.error_response();
    assert_eq!(r.status, 404);
    assert_eq!(r.body, "");
}

#[test]
fn pool_failure_maps_to_500_and_echoes_diagnostic() {
    // Exhaustion or an unreachable backend surfaces as an explicit error
    // reply carrying the pool's diagnostic, rather than hanging.
    let r = MyError::PoolError("timed out waiting for connection".to_string()).error_response();
    assert_eq!(r.status, 500);
    assert_eq!(r.body, "timed out waiting for connection");
}

#[test]
fn query_error_maps_to_500_without_detail() {
    let r = MyError::PGError("syntax error at or near".to_string()).error_response();
    assert_eq!(r.status, 500);
    assert_eq!(r.body, "");
}

#[test]
fn mapping_error_maps_to_500_without_detail() {
    let r = MyError::PGMError("email".to_string()).error_response();
    assert_eq!(r.status, 500);
    assert_eq!(r.body, "");
}

#[test]
fn decode_error_maps_to_400() {
    let r = MyError::DecodeError("missing field".to_string()).error_response();
    assert_eq!(r.status, 400);
    assert_eq!(r.body, "");
}

#[test]
fn error_equality_distinguishes_variants() {
    assert_ne!(MyError::NotFound, MyError::PGError(String::new()));
    assert_ne!(
        MyError::PGError("a".to_string()),
        MyError::PGError("b".to_string())
    );
    assert_eq!(MyError::NotFound, MyError::NotFound);
}
