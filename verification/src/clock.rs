//! The process clock, read as whole seconds since the unix epoch.

use vstd::prelude::*;

verus! {

/// Relies on `std::time::SystemTime::now` and
/// `SystemTime::duration_since(UNIX_EPOCH)`: the seconds elapsed since the
/// unix epoch.  The result depends on the clock, so nothing more than its
/// sign is promised.  A clock reading before the epoch counts as 0 and one
/// beyond the integer range as the maximum, so the call never panics.
#[verifier::external_body]
pub fn current_timestamp() -> (r: i64)
    ensures
        0 <= r,
{
    let secs = std::time::SystemTime::now()
        .duration_since(std::time::UNIX_EPOCH)
        .map_or(0, |d| d.as_secs());
    i64::try_from(secs).unwrap_or(i64::MAX)
}

} // verus!
