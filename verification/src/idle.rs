//! Query of the OS idle time (seconds since the last user input).

use vstd::prelude::*;

verus! {

/// Relies on `system_idle_time::get_idle_time`: the duration since the last
/// user input on the system, or an error where the platform cannot tell.
/// The value depends on the machine's state at the moment of the call, so
/// nothing is promised of it; an error is reported as `None` and treated by
/// callers as "no idle detected".
#[verifier::external_body]
pub fn get_idle_time_seconds() -> (r: Option<u64>) {
    match system_idle_time::get_idle_time() {
        Ok(duration) => Some(duration.as_secs()),
        Err(_) => None,
    }
}

} // verus!
