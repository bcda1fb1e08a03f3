use vstd::prelude::*;

pub use std::time::Instant;

verus! {

/// `std::time::Instant` is carried through the library as an opaque value.
#[verifier::external_type_specification]
#[verifier::external_body]
pub struct ExInstant(std::time::Instant);

/// Calls `std::time::Instant::now`. The reading depends on the machine's clock,
/// so nothing is promised of the value that comes back.
#[verifier::external_body]
pub fn clock_now() -> Instant {
    Instant::now()
}

} // verus!
