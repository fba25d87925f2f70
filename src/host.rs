//! What the library takes from the host ledger: its clock.
use crate::error::NameRegistryError;
use anchor_lang::solana_program::clock::Clock;
use anchor_lang::solana_program::program_error::ProgramError;
use anchor_lang::solana_program::sysvar::Sysvar;
use vstd::prelude::*;

verus! {

#[verifier::external_type_specification]
#[verifier::external_body]
pub struct ExProgramError(ProgramError);

/// Relies on anchor_lang's `Clock::get` (the `Sysvar` impl of solana_program's
/// `Clock`): the cluster clock's `unix_timestamp`, or the `ProgramError` with
/// which the sysvar read failed. The value depends on the host alone.
#[verifier::external_body]
fn clock_unix_timestamp() -> (r: Result<i64, ProgramError>) {
    Clock::get().map(|clock| clock.unix_timestamp)
}

/// The host's current time, in seconds since the Unix epoch.
pub fn current_time() -> (r: Result<i64, NameRegistryError>)
    ensures
        r is Err ==> r == Err::<i64, NameRegistryError>(NameRegistryError::ClockUnavailable),
{
    match clock_unix_timestamp() {
        Ok(t) => Ok(t),
        Err(_) => Err(NameRegistryError::ClockUnavailable),
    }
}

} // verus!
