//! Wall-clock time, for the functions that read it themselves.
use vstd::prelude::*;

verus! {

/// Relies on chrono::Utc::now: the current time in whole seconds since the Unix
/// epoch. Nothing is known of the value; two calls may differ.
#[verifier::external_body]
pub fn now_timestamp() -> (r: i64) {
    chrono::Utc::now().timestamp()
}

} // verus!
