//! The host's clock.

use vstd::prelude::*;
use anchor_lang::solana_program::clock::Clock;
use anchor_lang::solana_program::sysvar::Sysvar;

verus! {

/// `Clock::get` of solana_program, reached through anchor_lang: asks the host
/// runtime for its clock and hands out the clock's `unix_timestamp`, seconds
/// since the epoch. Nothing where the runtime answers with an error, as its
/// stand-in outside a running program does: that one knows no clock.
/// Nothing is claimed of the value: it is the host's, and differs from call
/// to call.
#[verifier::external_body]
pub(crate) fn host_unix_timestamp() -> (now: Option<i64>) {
    match Clock::get() {
        Ok(clock) => Some(clock.unix_timestamp),
        Err(_) => None,
    }
}

} // verus!
