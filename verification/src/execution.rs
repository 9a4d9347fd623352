//! What running a command tells the shell to do next.
use vstd::prelude::*;

verus! {

/// After a command has run, the shell either reads the next line or stops.
#[derive(Debug, Clone, Copy, PartialEq, Eq, Structural)]
pub enum ExecutionResult {
    Continue,
    Exit,
}

} // verus!
