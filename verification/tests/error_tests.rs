use notes_app::errors::{ServiceError, StorageFailure};

#[test]
fn constructors_keep_class_and_message() {
    assert!(matches!(ServiceError::unauthorized("a"), ServiceError::Unauthorized(m) if m == "a"));
    assert!(matches!(
        ServiceError::internal_server_error("b"),
        ServiceError::InternalServerError(m) if m == "b"
    ));
    assert!(matches!(ServiceError::bad_request("c"), ServiceError::BadRequest(m) if m == "c"));
    assert!(matches!(ServiceError::forbidden("d"), ServiceError::Forbidden(m) if m == "d"));
    assert!(matches!(ServiceError::not_found(""), ServiceError::NotFound(m) if m.is_empty()));
}

#[test]
fn each_class_has_its_status() {
    assert_eq!(ServiceError::unauthorized("x").status_code(), 401);
    assert_eq!(ServiceError::internal_server_error("x").status_code(), 500);
    assert_eq!(ServiceError::bad_request("x").status_code(), 400);
    assert_eq!(ServiceError::forbidden("x").status_code(), 403);
    assert_eq!(ServiceError::not_found("x").status_code(), 404);
}

#[test]
fn message_is_returned_as_given() {
    assert_eq!(ServiceError::unauthorized("Missing token").message(), "Missing token");
    assert_eq!(ServiceError::bad_request("Username already exists").message(), "Username already exists");
    assert_eq!(ServiceError::not_found("").message(), "");
}

#[test]
fn errors_render_as_class_and_message() {
    assert_eq!(ServiceError::unauthorized("nope").to_string(), "Unauthorized: nope");
    assert_eq!(
        ServiceError::internal_server_error("boom").to_string(),
        "Internal Server Error: boom"
    );
    assert_eq!(ServiceError::bad_request("bad").to_string(), "Bad Request: bad");
    assert_eq!(ServiceError::forbidden("no").to_string(), "Forbidden: no");
    assert_eq!(ServiceError::not_found("gone").to_string(), "Not Found: gone");
    assert_eq!(ServiceError::not_found("").to_string(), "Not Found: ");
}

#[test]
fn storage_failures_become_service_errors() {
    let missing = ServiceError::from(StorageFailure::NotFound);
    assert!(matches!(&missing, ServiceError::NotFound(m) if m == "Resource not found"));
    assert_eq!(missing.status_code(), 404);
    let broken = ServiceError::from(StorageFailure::Other("disk is full".to_string()));
    assert!(matches!(
        &broken,
        ServiceError::InternalServerError(m) if m == "Database error: disk is full"
    ));
    assert_eq!(broken.status_code(), 500);
    let converted: ServiceError = StorageFailure::Other(String::new()).into();
    assert_eq!(converted.to_string(), "Internal Server Error: Database error: ");
}
