//! The one clock read the engine records.

use vstd::prelude::*;

verus! {

/// Relies on `chrono::Utc::now` and `chrono::DateTime::to_rfc3339` for the
/// current wall-clock time as an RFC 3339 string; being a clock read,
/// nothing is promised of the result.
#[verifier::external_body]
pub(crate) fn now_rfc3339() -> String {
    chrono::Utc::now().to_rfc3339()
}

} // verus!
