//! The one reading the pipelines take from the environment: the current
//! Unix time, used by the enrichment stages for their timestamp tags.

use vstd::prelude::*;

verus! {

/// Relies on `chrono::Utc::now` together with `DateTime::timestamp`:
/// the current Unix time in whole seconds.  Nothing is assumed of the
/// reading; every caller must cope with an arbitrary value.
#[verifier::external_body]
pub fn unix_timestamp_now() -> i64 {
    chrono::Utc::now().timestamp()
}

} // verus!
