//! Thin trusted bindings to the platform facilities the engine needs:
//! fresh identifiers, the wall clock, and Unicode case folding.

use vstd::prelude::*;

verus! {

/// Relies on `uuid::Uuid::new_v4` for a fresh random 128-bit identifier;
/// nothing is promised of the value.
#[verifier::external_body]
pub(crate) fn fresh_id() -> u128 {
    uuid::Uuid::new_v4().as_u128()
}

/// Relies on chrono's conversion from the system clock
/// (`DateTime::<Utc>::from`, which handles a clock set before 1970
/// without failing) for the current wall-clock time in milliseconds since
/// the Unix epoch; nothing is promised of the value.
#[verifier::external_body]
pub(crate) fn now_millis() -> i64 {
    chrono::DateTime::<chrono::Utc>::from(std::time::SystemTime::now()).timestamp_millis()
}

/// What `str::to_lowercase` returns for a given character sequence.
pub uninterp spec fn lower_of(s: Seq<char>) -> Seq<char>;

/// Relies on `str::to_lowercase`: the result is a function of the input
/// characters alone.
#[verifier::external_body]
pub(crate) fn lowercase(s: &str) -> (r: String)
    ensures
        r@ == lower_of(s@),
{
    s.to_lowercase()
}

} // verus!
