use notes_app::auth::{authorize_at, get_user_id_from_token, issue_at, CheckLogin};
use notes_app::errors::ServiceError;
use std::cell::Cell;

const SECRET: &str = "test-secret";
const T: i64 = 1_700_000_000;

struct Notes {
    owner: &'static str,
}

fn header(token: &str) -> String {
    format!("Bearer {}", token)
}

fn missing_token<R>(res: &Result<R, ServiceError>) -> bool {
    matches!(res, Err(ServiceError::Unauthorized(m)) if m == "Missing token")
}

fn invalid_token<R>(res: &Result<R, ServiceError>) -> bool {
    matches!(res, Err(ServiceError::Unauthorized(m)) if m == "invalid token")
}

#[test]
fn valid_token_reaches_the_handler_with_its_principal() {
    let guard = CheckLogin::new(Some(SECRET.to_string())).new_transform(Notes { owner: "u1" });
    let token = issue_at("u1", Some(SECRET), T).unwrap();
    let calls = Cell::new(0);
    let res = guard.call_at(Some(&header(&token)), T + 5, |service, principal| {
        calls.set(calls.get() + 1);
        (service.owner == principal, principal)
    });
    assert_eq!(res.unwrap(), (true, "u1".to_string()));
    assert_eq!(calls.get(), 1);
}

#[test]
fn bearer_without_token_never_reaches_the_handler() {
    let guard = CheckLogin::new(Some(SECRET.to_string())).new_transform(Notes { owner: "u1" });
    for value in ["Bearer", "Bearer "] {
        let called = Cell::new(false);
        let res = guard.call_at(Some(value), T, |_, _| called.set(true));
        assert!(missing_token(&res));
        assert!(!called.get());
        let res = guard.call(Some(value), |_, _| called.set(true));
        assert!(missing_token(&res));
        assert!(!called.get());
    }
}

#[test]
fn wrong_scheme_never_reaches_the_handler() {
    let guard = CheckLogin::new(Some(SECRET.to_string())).new_transform(Notes { owner: "u1" });
    let called = Cell::new(false);
    let res = guard.call_at(Some("Token abc123"), T, |_, _| called.set(true));
    assert!(missing_token(&res));
    assert_eq!(res.unwrap_err().status_code(), 401);
    assert!(!called.get());
    let token = issue_at("u1", Some(SECRET), T).unwrap();
    let res = guard.call_at(Some(&format!("Token {}", token)), T, |_, _| called.set(true));
    assert!(missing_token(&res));
    assert!(!called.get());
}

#[test]
fn missing_header_never_reaches_the_handler() {
    let guard = CheckLogin::new(Some(SECRET.to_string())).new_transform(Notes { owner: "u1" });
    let called = Cell::new(false);
    assert!(missing_token(&guard.call_at(None, T, |_, _| called.set(true))));
    assert!(missing_token(&guard.call(None, |_, _| called.set(true))));
    assert!(!called.get());
}

#[test]
fn invalid_token_never_reaches_the_handler() {
    let guard = CheckLogin::new(Some(SECRET.to_string())).new_transform(Notes { owner: "u1" });
    let token = issue_at("u1", Some(SECRET), T).unwrap();
    let foreign = issue_at("u1", Some("other-secret"), T).unwrap();
    let called = Cell::new(false);
    let expired = guard.call_at(Some(&header(&token)), T + 86_400, |_, _| called.set(true));
    assert!(invalid_token(&expired));
    let forged = guard.call_at(Some(&header(&foreign)), T, |_, _| called.set(true));
    assert!(invalid_token(&forged));
    let garbage = guard.call_at(Some("Bearer abc123"), T, |_, _| called.set(true));
    assert!(invalid_token(&garbage));
    let stale = guard.call(Some(&header(&token)), |_, _| called.set(true));
    assert!(invalid_token(&stale));
    assert!(!called.get());
}

#[test]
fn guard_without_secret_admits_nothing() {
    let guard = CheckLogin::new(None).new_transform(Notes { owner: "u1" });
    let token = issue_at("u1", Some(SECRET), T).unwrap();
    let called = Cell::new(false);
    let res = guard.call_at(Some(&header(&token)), T, |_, _| called.set(true));
    assert!(matches!(&res, Err(ServiceError::InternalServerError(m)) if m == "internal error"));
    assert_eq!(res.unwrap_err().status_code(), 500);
    assert!(missing_token(&guard.call_at(None, T, |_, _| called.set(true))));
    assert!(!called.get());
}

#[test]
fn guard_keeps_the_service_it_was_put_before() {
    let guard = CheckLogin::new(Some(SECRET.to_string())).new_transform(Notes { owner: "u42" });
    assert_eq!(guard.service().owner, "u42");
    let login = CheckLogin::new(Some(SECRET.to_string()));
    let first = login.new_transform(1u8);
    let second = login.new_transform("two");
    assert_eq!(*first.service(), 1);
    assert_eq!(*second.service(), "two");
}

#[test]
fn decision_of_the_guard_is_that_of_the_header() {
    let guard = CheckLogin::new(Some(SECRET.to_string())).new_transform(());
    let token = issue_at("u1", Some(SECRET), T).unwrap();
    assert_eq!(guard.admit_at(Some(&header(&token)), T).unwrap(), "u1");
    assert_eq!(authorize_at(Some(&header(&token)), Some(SECRET), T).unwrap(), "u1");
    assert!(invalid_token(&guard.admit_at(Some(&header(&token)), T + 86_400)));
    assert!(invalid_token(&authorize_at(Some(&header(&token)), Some(SECRET), T + 86_400)));
    assert!(missing_token(&guard.admit_at(Some(&token), T)));
    assert!(missing_token(&authorize_at(Some(&token), Some(SECRET), T)));
    assert!(missing_token(&authorize_at(None, None, T)));
}

#[test]
fn two_requests_with_one_token_get_the_same_principal() {
    let guard = CheckLogin::new(Some(SECRET.to_string())).new_transform(Notes { owner: "u1" });
    let token = issue_at("u1", Some(SECRET), T).unwrap();
    let value = header(&token);
    let first = guard.call_at(Some(&value), T + 1, |_, principal| principal);
    let second = guard.call_at(Some(&value), T + 1, |_, principal| principal);
    assert_eq!(first.unwrap(), "u1");
    assert_eq!(second.unwrap(), "u1");
}

#[test]
fn principal_of_a_request_is_read_at_the_wall_clock() {
    let now = chrono::Utc::now().timestamp();
    let token = issue_at("u1", Some(SECRET), now).unwrap();
    assert_eq!(get_user_id_from_token(Some(&header(&token)), Some(SECRET)).unwrap(), "u1");
    let guard = CheckLogin::new(Some(SECRET.to_string())).new_transform(Notes { owner: "u1" });
    let res = guard.call(Some(&header(&token)), |service, principal| service.owner == principal);
    assert!(res.unwrap());
    assert!(missing_token(&get_user_id_from_token(None, Some(SECRET))));
    assert!(missing_token(&get_user_id_from_token(Some("Token abc123"), Some(SECRET))));
    assert!(invalid_token(&get_user_id_from_token(Some("Bearer abc123"), Some(SECRET))));
    let old = issue_at("u1", Some(SECRET), now - 90_000).unwrap();
    assert!(invalid_token(&get_user_id_from_token(Some(&header(&old)), Some(SECRET))));
}
