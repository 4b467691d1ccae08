use vstd::prelude::*;

use anchor_lang::solana_program::sysvar::Sysvar;

use crate::errors::GameError;

verus! {

/// Reads the runtime's clock sysvar with `Clock::get` and hands out its
/// `unix_timestamp`, or, when the read fails, the runtime's error as its
/// numeric code (`u64::from`, which the runtime's `ProgramError::from` turns
/// back into the same error). The time, and whether the runtime serves the
/// sysvar at all, depend on where and when the program runs: nothing is
/// promised of the result.
#[verifier::external_body]
fn current_unix_timestamp() -> (r: Result<i64, u64>) {
    match anchor_lang::solana_program::clock::Clock::get() {
        Ok(clock) => Ok(clock.unix_timestamp),
        Err(e) => Err(u64::from(e)),
    }
}

/// The current time from the runtime's clock, in seconds since the epoch; a
/// failed read is reported with the runtime's error code.
pub fn current_time() -> (r: Result<i64, GameError>)
    ensures
        r matches Err(e) ==> e is ClockUnavailable,
{
    match current_unix_timestamp() {
        Ok(t) => Ok(t),
        Err(code) => Err(GameError::ClockUnavailable(code)),
    }
}

} // verus!
