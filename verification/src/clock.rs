//! The host's clock.

use vstd::prelude::*;
use solana_program::clock::Clock;
use solana_program::program_error::ProgramError;
use solana_program::sysvar::Sysvar;
use crate::error::AuctionError;

verus! {

/// Declares `solana_program::program_error::ProgramError`, the error with
/// which the host refuses a request. Nothing is claimed of it: it is carried
/// from the call to the place where it becomes an [`AuctionError`].
#[verifier::external_type_specification]
#[verifier::external_body]
pub struct ExProgramError(ProgramError);

/// Calls `solana_program::sysvar::Sysvar::get` for the `Clock` and picks its
/// `unix_timestamp`. Nothing is claimed of the reading: it is whatever the
/// host reports, and the host may report none.
#[verifier::external_body]
fn clock_unix_timestamp() -> (reading: Result<i64, ProgramError>) {
    Clock::get().map(|clock| clock.unix_timestamp)
}

/// What an answer of the host's clock means to the library: the time, where
/// the host gave one; `ClockUnavailable`, whatever the host's reason, where it
/// gave none.
pub open spec fn reading_spec(answer: Result<i64, ProgramError>) -> Result<i64, AuctionError> {
    match answer {
        Ok(now) => Ok(now),
        Err(_) => Err(AuctionError::ClockUnavailable),
    }
}

/// Turns an answer of the host's clock into a reading: the time is kept as
/// it is, and every refusal becomes `ClockUnavailable`.
pub fn reading_of(answer: Result<i64, ProgramError>) -> (reading: Result<i64, AuctionError>)
    ensures
        reading == reading_spec(answer),
{
    match answer {
        Ok(now) => Ok(now),
        Err(_) => Err(AuctionError::ClockUnavailable),
    }
}

/// The host's time in seconds, or `ClockUnavailable` where it gives none. The
/// reading is what [`reading_of`] makes of the host's answer; of the answer
/// itself nothing is known beforehand.
pub fn unix_timestamp() -> (reading: Result<i64, AuctionError>)
    ensures
        reading matches Err(e) ==> e == AuctionError::ClockUnavailable,
{
    reading_of(clock_unix_timestamp())
}

} // verus!
