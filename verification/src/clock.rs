//! Opaque timestamps for chunk and result metadata.

use vstd::prelude::*;

verus! {

#[verifier::external_type_specification]
#[verifier::external_body]
pub struct ExInstant(std::time::Instant);

/// Relies on `std::time::Instant::now`: an opaque creation timestamp for
/// chunks and transcription results. Nothing is assumed about its value,
/// which depends on the clock.
#[verifier::external_body]
pub fn now() -> std::time::Instant {
    std::time::Instant::now()
}

/// Relies on `std::time::Instant`'s `Clone`, which hands back a copy of
/// the timestamp.
pub assume_specification[ <std::time::Instant as Clone>::clone ](
    t: &std::time::Instant,
) -> (r: std::time::Instant)
    ensures
        r == *t,
;

} // verus!
