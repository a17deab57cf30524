//! The boundary to the wall clock: the items of `std::time` that the
//! benchmark calls. Verus does not read them. Of each call it is believed
//! that it returns; nothing is claimed of what a clock says.

use vstd::prelude::*;

verus! {

/// `std::time::SystemTime`, a reading of the system clock. Nothing of what
/// it holds is visible to the proofs.
#[verifier::external_type_specification]
#[verifier::external_body]
pub struct ExSystemTime(std::time::SystemTime);

/// `std::time::SystemTimeError`, which says that the clock stood earlier
/// than a reading taken before. Nothing of what it holds is visible to the
/// proofs.
#[verifier::external_type_specification]
#[verifier::external_body]
pub struct ExSystemTimeError(std::time::SystemTimeError);

/// `std::time::SystemTime::now`, the system clock as it stands. Nothing is
/// claimed of the reading.
pub assume_specification[ std::time::SystemTime::now ]() -> (reading: std::time::SystemTime)
;

/// `std::time::SystemTime::elapsed`, the time from the reading to now, or an
/// error where the clock has been set back behind the reading. Nothing is
/// claimed of the answer.
pub assume_specification[ std::time::SystemTime::elapsed ](
    reading: &std::time::SystemTime,
) -> (answer: Result<std::time::Duration, std::time::SystemTimeError>)
;

} // verus!
