use vstd::prelude::*;

verus! {

/// How a call to the AT client waits for the command it issued to complete.
#[derive(Debug, PartialEq, Eq, Copy, Clone, Hash, Structural)]
pub enum Mode {
    /// The call waits as long as necessary to complete the operation.
    Blocking,
    /// The call does not wait at all, and only does what it can.
    NonBlocking,
    /// The call waits only up to the maximum timeout of each command.
    Timeout,
}

} // verus!
