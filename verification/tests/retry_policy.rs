use asvz_bot::retry::{enroll_on_request_success, RetryClass};

#[test]
fn server_errors_are_transient() {
    assert_eq!(enroll_on_request_success(500), Some(RetryClass::Transient));
    assert_eq!(enroll_on_request_success(503), Some(RetryClass::Transient));
    assert_eq!(enroll_on_request_success(599), Some(RetryClass::Transient));
}

#[test]
fn client_errors_are_fatal_except_request_timeout() {
    assert_eq!(enroll_on_request_success(400), Some(RetryClass::Fatal));
    assert_eq!(enroll_on_request_success(404), Some(RetryClass::Fatal));
    assert_eq!(enroll_on_request_success(422), Some(RetryClass::Fatal));
    assert_eq!(enroll_on_request_success(429), Some(RetryClass::Fatal));
    assert_eq!(enroll_on_request_success(408), Some(RetryClass::Transient));
}

#[test]
fn successes_need_no_retry() {
    assert_eq!(enroll_on_request_success(200), None);
    assert_eq!(enroll_on_request_success(201), None);
    assert_eq!(enroll_on_request_success(299), None);
}

#[test]
fn everything_else_is_fatal() {
    assert_eq!(enroll_on_request_success(100), Some(RetryClass::Fatal));
    assert_eq!(enroll_on_request_success(301), Some(RetryClass::Fatal));
    assert_eq!(enroll_on_request_success(600), Some(RetryClass::Fatal));
}
