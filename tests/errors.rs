use dogdex_api::pipeline::error_response;
use dogdex_api::{database_url_key, UserError};

#[test]
fn status_codes_follow_the_taxonomy() {
    assert_eq!(UserError::ValidationError.status_code(), 400);
    assert_eq!(UserError::NotFoundError.status_code(), 404);
    assert_eq!(UserError::DBPoolGetError.status_code(), 500);
    assert_eq!(UserError::UnexpectedError.status_code(), 500);
}

#[test]
fn messages_are_canonical() {
    assert_eq!(UserError::ValidationError.message(), "Invalid input parameter");
    assert_eq!(UserError::NotFoundError.message(), "Not found");
    assert_eq!(UserError::DBPoolGetError.message(), "Internal server error");
    assert_eq!(UserError::UnexpectedError.message(), "Internal server error");
}

#[test]
fn error_body_is_a_json_object_with_msg() {
    let body = UserError::NotFoundError.error_body();
    assert_eq!(body, "{\"msg\":\"Not found\"}");
    let parsed: serde_json::Value = serde_json::from_str(&body).unwrap();
    assert_eq!(parsed["msg"], "Not found");
}

#[test]
fn error_response_pairs_status_and_body() {
    let resp = error_response(UserError::ValidationError);
    assert_eq!(resp.status, 400);
}

#[test]
fn database_key_follows_the_flag() {
    assert_eq!(database_url_key(false), "DATABASE_URL");
    assert_eq!(database_url_key(true), "TEST_DATABASE_URL");
}
