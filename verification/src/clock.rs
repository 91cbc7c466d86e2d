//! The host's clock.

use crate::error::ErrorCode;
use anchor_lang::prelude::{Clock, ProgramError, SolanaSysvar};
use vstd::prelude::*;

verus! {

/// The error of `anchor_lang`'s host calls. Nothing is known of its content.
#[verifier::external_type_specification]
#[verifier::external_body]
pub struct ExProgramError(ProgramError);

/// Calls `Clock::get` of `anchor_lang` and hands back the field
/// `unix_timestamp` of the clock that it returns, or its error.
///
/// Nothing is claimed of either: the time is whatever the host says, and
/// where no host answers the call fails.
#[verifier::external_body]
fn clock_unix_timestamp() -> (time: Result<i64, ProgramError>) {
    Clock::get().map(|clock| clock.unix_timestamp)
}

/// The host's current time in seconds, or `ClockUnavailable` where the host
/// gives none.
pub fn current_time() -> (time: Result<i64, ErrorCode>)
    ensures
        time matches Err(e) ==> e == ErrorCode::ClockUnavailable,
{
    host_time(clock_unix_timestamp())
}

/// What the library makes of the host's answer: the time that it gave, or
/// `ClockUnavailable` for whatever error it gave.
pub fn host_time(answer: Result<i64, ProgramError>) -> (time: Result<i64, ErrorCode>)
    ensures
        time == (match answer {
            Ok(now) => Ok::<i64, ErrorCode>(now),
            Err(_) => Err::<i64, ErrorCode>(ErrorCode::ClockUnavailable),
        }),
{
    match answer {
        Ok(now) => Ok(now),
        Err(_) => Err(ErrorCode::ClockUnavailable),
    }
}

} // verus!
