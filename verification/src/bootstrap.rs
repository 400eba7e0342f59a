//! The setup step of the shell bootstrap.
//!
//! Startup moves once from uninitialized to running: scan and capture the
//! startup arguments, register the shell's plugins, then hand control to the
//! event loop. The one decision on the way is made here: a debug build
//! attaches the logging plugin, and a failure to attach is fatal — startup
//! aborts before the event loop ever runs. The attach call itself is made
//! against the shell runtime outside this library, which hands its outcome
//! in.

use vstd::prelude::*;

verus! {

/// Startup could not complete: the one failure the bootstrap knows, a logger
/// attach that went wrong, with the underlying error text. The process
/// aborts; there is no partial or degraded run.
#[derive(Debug)]
pub struct FatalStartupError {
    pub os_error: String,
}

/// Decide how the setup step ends. A debug build attaches the logging plugin
/// at informational verbosity and hands its outcome in; a release build
/// attaches nothing and hands in `None`. A failed attach aborts startup with
/// a `FatalStartupError` carrying the error text; otherwise setup succeeds —
/// nothing else in it can fail.
pub fn bootstrap_setup(attach_outcome: Option<Result<(), String>>) -> (r: Result<
    (),
    FatalStartupError,
>)
    ensures
        attach_outcome matches Some(Err(os_error)) ==> r == Err::<(), FatalStartupError>(
            FatalStartupError { os_error },
        ),
        !(attach_outcome matches Some(Err(_))) ==> r == Ok::<(), FatalStartupError>(()),
{
    match attach_outcome {
        Some(Err(os_error)) => Err(FatalStartupError { os_error }),
        _ => Ok(()),
    }
}

} // verus!
