//! The wall clock that stamps stored rows.

use vstd::prelude::*;

verus! {

/// Reads the current time with `chrono::Utc::now` and hands it back as
/// milliseconds since the Unix epoch. Nothing is claimed of the number that
/// comes back: it depends on the machine's clock alone, and two calls may
/// differ.
#[verifier::external_body]
pub(crate) fn now_millis() -> (millis: i64) {
    chrono::Utc::now().timestamp_millis()
}

} // verus!
