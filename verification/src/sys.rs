//! Plain-value decisions around process exit and signals: decoding what
//! the kernel reported for an exited pid, and validating signal numbers.

use vstd::prelude::*;

use crate::error::Error;

verus! {

/// What waiting on an exited pid reported: a normal exit with a code, a
/// terminating signal, or something else.
#[derive(Clone, Copy, Debug, PartialEq, Eq, Structural)]
pub enum WaitStatus {
    Exited(i32),
    Signaled(i32),
    Other,
}

/// The exit code recorded for a task from what the pid wait reported:
/// the process's own code on a normal exit, the signal number on a
/// signalled death, and the forced-exit code 137 for anything else —
/// including a wait that failed outright (`None`).
pub fn exit_code_of_wait(status: &Option<WaitStatus>) -> (r: i32)
    ensures
        status matches Some(WaitStatus::Exited(n)) ==> r == n,
        status matches Some(WaitStatus::Signaled(sig)) ==> r == sig,
        status matches Some(WaitStatus::Other) ==> r == 137,
        status is None ==> r == 137,
{
    match status {
        Some(WaitStatus::Exited(n)) => *n,
        Some(WaitStatus::Signaled(sig)) => *sig,
        Some(WaitStatus::Other) => 137,
        None => 137,
    }
}

/// Whether deleting an instance must touch the container: only when
/// its on-disk root was found (`Some(true)`). A missing root, or a
/// probe that failed, means there is nothing left to clean up and the
/// deletion succeeds silently, so deleting is idempotent.
pub fn delete_needs_container(probe: &Option<bool>) -> (r: bool)
    ensures
        r <==> *probe == Some(true),
{
    match probe {
        Some(true) => true,
        _ => false,
    }
}

/// The standard Linux signal numbers a task accepts.
pub open spec fn spec_valid_signal(signal: u32) -> bool {
    1 <= signal <= 31
}

/// Converts an RPC signal number to a POSIX signal: accepted only for
/// the standard Linux signals, so in particular anything outside the
/// `i32` range is rejected as an invalid argument.
pub fn signal_from_u32(signal: u32) -> (r: Result<i32, Error>)
    ensures
        r is Ok <==> spec_valid_signal(signal),
        r matches Ok(s) ==> s == signal as i32,
        r matches Err(e) ==> e is InvalidArgument,
{
    if 1 <= signal && signal <= 31 {
        Ok(signal as i32)
    } else {
        Err(Error::InvalidArgument("invalid signal number".to_owned()))
    }
}

} // verus!
