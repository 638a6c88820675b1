use vstd::prelude::*;
use crate::logger::{admits, Logger, Verbosity, log, strip_trailing_newlines};

verus! {

/// Starts the local development environment; the result is the line to show.
pub fn start_devkit(logger: &Logger) -> (r: Option<String>)
    ensures
        admits(logger.verbosity, Verbosity::Standard) ==> r is Some && r->0@
            == strip_trailing_newlines("Starting Cardano DevKit"@),
        !admits(logger.verbosity, Verbosity::Standard) ==> r is None,
{
    log(logger, "Starting Cardano DevKit")
}

} // verus!
