//! Exit codes of the orchestration.

use vstd::prelude::*;

verus! {

/// The recording ran and its child reported success.
pub const EXIT_OK: i32 = 0;

/// The generic failure: the environment is unusable, or a child ended
/// without an exit code of its own.
pub const EXIT_FAILURE: i32 = 1;

/// The multiplexer session could not be created.
pub const EXIT_SESSION: i32 = 2;

/// No port from 1 to 65535 could be bound.
pub const EXIT_NO_PORT: i32 = 3;

/// The web terminal server could not be started.
pub const EXIT_SPAWN: i32 = 4;

/// The web terminal server was started but could not be waited on.
pub const EXIT_WAIT: i32 = 5;

/// The exit code that stands for a child's end: its own code, passed on
/// unchanged, or the generic failure where it ended without one, as a
/// process does that a signal has stopped.
pub open spec fn spec_child_exit_code(code: Option<i32>) -> i32 {
    match code {
        Some(c) => c,
        None => EXIT_FAILURE,
    }
}

/// Maps the end of a child to the exit code that is passed on for it.
pub fn child_exit_code(code: Option<i32>) -> (r: i32)
    ensures
        r == spec_child_exit_code(code),
{
    match code {
        Some(c) => c,
        None => EXIT_FAILURE,
    }
}

/// Each fatal condition of the orchestration has an exit code of its own:
/// small, positive, and equal to none of the others.
pub proof fn fatal_codes_are_distinct()
    ensures
        0 < EXIT_FAILURE < 256,
        0 < EXIT_SESSION < 256,
        0 < EXIT_NO_PORT < 256,
        0 < EXIT_SPAWN < 256,
        0 < EXIT_WAIT < 256,
        EXIT_FAILURE != EXIT_SESSION,
        EXIT_FAILURE != EXIT_NO_PORT,
        EXIT_FAILURE != EXIT_SPAWN,
        EXIT_FAILURE != EXIT_WAIT,
        EXIT_SESSION != EXIT_NO_PORT,
        EXIT_SESSION != EXIT_SPAWN,
        EXIT_SESSION != EXIT_WAIT,
        EXIT_NO_PORT != EXIT_SPAWN,
        EXIT_NO_PORT != EXIT_WAIT,
        EXIT_SPAWN != EXIT_WAIT,
{
}

} // verus!
