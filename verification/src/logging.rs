//! Log verbosity: how many `-v` flags map to a level.

use vstd::prelude::*;

verus! {

/// How much the operator writes to its log.
#[derive(PartialEq, Eq, Clone, Copy, Debug)]
pub enum Verbosity {
    ErrorLevel,
    WarnLevel,
    InfoLevel,
    DebugLevel,
    TraceLevel,
}

/// The level for a count of `-v` flags: from errors only up to traces.
pub fn level(verbosity: usize) -> (r: Verbosity)
    ensures
        verbosity == 0 ==> r is ErrorLevel,
        verbosity == 1 ==> r is WarnLevel,
        verbosity == 2 ==> r is InfoLevel,
        verbosity == 3 ==> r is DebugLevel,
        verbosity >= 4 ==> r is TraceLevel,
{
    if verbosity == 0 {
        Verbosity::ErrorLevel
    } else if verbosity == 1 {
        Verbosity::WarnLevel
    } else if verbosity == 2 {
        Verbosity::InfoLevel
    } else if verbosity == 3 {
        Verbosity::DebugLevel
    } else {
        Verbosity::TraceLevel
    }
}

} // verus!
