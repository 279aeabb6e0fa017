//! Waiting for the permission to inject input, where a platform asks for it.
//!
//! The host program asks the platform whether the process is trusted, reads
//! the clock and sleeps. What to do after each answer is decided here.

use crate::input::InjectError;
use vstd::prelude::*;

verus! {

/// Milliseconds between two checks while the permission is awaited.
pub const AX_POLL_INTERVAL_MS: u64 = 250;

/// Milliseconds after which the permission is no longer awaited.
pub const AX_POLL_TIMEOUT_MS: u64 = 30_000;

/// What the host program has found out.
#[derive(Clone, Copy, Debug, PartialEq, Eq, Structural)]
pub enum TrustCheck {
    /// The first check, before the user was asked.
    First { trusted: bool },
    /// A later check, this many milliseconds after the user was asked.
    Poll { trusted: bool, elapsed_ms: u64 },
}

/// What the host program is to do next.
#[derive(Clone, Copy, Debug, PartialEq, Eq, Structural)]
pub enum TrustAction {
    /// The permission is there: go on.
    Granted,
    /// Ask the user for the permission, then check again at once.
    Prompt,
    /// Sleep for this many milliseconds, then check again.
    Sleep(u64),
    /// The permission did not come in time: report it and give up.
    Denied,
}

/// What follows a check.
///
/// Trust ends the wait, whenever it is found. Without it the first check
/// asks the user; a later one sleeps for the polling interval while the
/// timeout has not passed, and gives up once it has.
pub open spec fn spec_ensure_trust(check: TrustCheck) -> TrustAction {
    match check {
        TrustCheck::First { trusted } => if trusted {
            TrustAction::Granted
        } else {
            TrustAction::Prompt
        },
        TrustCheck::Poll { trusted, elapsed_ms } => if trusted {
            TrustAction::Granted
        } else if elapsed_ms >= AX_POLL_TIMEOUT_MS {
            TrustAction::Denied
        } else {
            TrustAction::Sleep(AX_POLL_INTERVAL_MS)
        },
    }
}

/// Decides what follows a check for the permission to inject input.
pub fn ensure_trust(check: TrustCheck) -> (action: TrustAction)
    ensures
        action == spec_ensure_trust(check),
{
    match check {
        TrustCheck::First { trusted } => if trusted {
            TrustAction::Granted
        } else {
            TrustAction::Prompt
        },
        TrustCheck::Poll { trusted, elapsed_ms } => if trusted {
            TrustAction::Granted
        } else if elapsed_ms >= AX_POLL_TIMEOUT_MS {
            TrustAction::Denied
        } else {
            TrustAction::Sleep(AX_POLL_INTERVAL_MS)
        },
    }
}

/// How the construction of a backend ends for an action that ends the wait:
/// well where the permission is there, with a denial where it did not come.
/// An action that goes on waiting ends nothing.
pub fn trust_result(action: TrustAction) -> (result: Option<Result<(), InjectError>>)
    ensures
        result == match action {
            TrustAction::Granted => Some(Ok::<(), InjectError>(())),
            TrustAction::Denied => Some(Err::<(), InjectError>(InjectError::PermissionDenied)),
            _ => None::<Result<(), InjectError>>,
        },
{
    match action {
        TrustAction::Granted => Some(Ok(())),
        TrustAction::Denied => Some(Err(InjectError::PermissionDenied)),
        _ => None,
    }
}

/// The elapsed time at the `n`th later check, where every sleep takes at
/// least as long as it was asked to.
pub open spec fn earliest_poll_ms(n: nat) -> int {
    n * AX_POLL_INTERVAL_MS
}

/// The wait is bounded. Where every sleep takes at least the polling
/// interval, the check after the 120th sleep finds the timeout passed, so an
/// untrusted process is denied there at the latest; and no check sleeps for
/// longer than the polling interval.
pub proof fn lemma_trust_wait_is_bounded(n: nat, elapsed_ms: u64, trusted: bool)
    requires
        elapsed_ms >= earliest_poll_ms(n),
        n >= 120,
    ensures
        spec_ensure_trust(TrustCheck::Poll { trusted, elapsed_ms }) == if trusted {
            TrustAction::Granted
        } else {
            TrustAction::Denied
        },
{
}

} // verus!
