//! Classification of HTTP responses for the transport's internal retry
//! policy: which responses are worth retrying and which are final.

use vstd::prelude::*;

verus! {

/// Whether a response is worth another attempt.
#[derive(Debug, Clone, Copy, PartialEq, Eq, Structural)]
pub enum RetryClass {
    Transient,
    Fatal,
}

/// The retry classification of a received status code: server errors and
/// request timeouts are transient, other client errors are fatal, and a
/// success needs no retry.
pub open spec fn retry_class_of(status: int) -> Option<RetryClass> {
    if 500 <= status < 600 {
        Some(RetryClass::Transient)
    } else if 400 <= status < 500 && status != 408 {
        Some(RetryClass::Fatal)
    } else if 200 <= status < 300 {
        None
    } else if status == 408 {
        Some(RetryClass::Transient)
    } else {
        Some(RetryClass::Fatal)
    }
}

/// Classifies a response that did arrive (by its status code).
pub fn enroll_on_request_success(status: u16) -> (r: Option<RetryClass>)
    ensures
        r == retry_class_of(status as int),
{
    if 500 <= status && status < 600 {
        Some(RetryClass::Transient)
    } else if 400 <= status && status < 500 && status != 408 {
        Some(RetryClass::Fatal)
    } else if 200 <= status && status < 300 {
        None
    } else if status == 408 {
        Some(RetryClass::Transient)
    } else {
        Some(RetryClass::Fatal)
    }
}

} // verus!
