use vstd::prelude::*;

verus! {

/// Relies on chrono's `Local::now` and `DateTime::format`: the current local
/// time rendered as `YYYYMMDD-HHMMSS`, so that names sort lexicographically
/// by creation order at whole-second granularity.  The result depends on the
/// wall clock, so nothing is promised of its value.
#[verifier::external_body]
pub fn generate_timestamp() -> String {
    chrono::Local::now().format("%Y%m%d-%H%M%S").to_string()
}

} // verus!
