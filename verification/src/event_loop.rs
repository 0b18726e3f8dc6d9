//! The modes in which an event loop is run.
use vstd::prelude::*;

verus! {

/// Mode used to run the loop.
#[derive(Clone, Copy, Debug, PartialEq, Eq, Structural)]
pub enum RunMode {
    /// Runs the event loop until there are no more active and referenced handles or requests.
    Default,
    /// Poll for i/o once; blocks if there are no pending callbacks.
    Once,
    /// Poll for i/o once but do not block if there are no pending callbacks.
    NoWait,
}

impl RunMode {
    /// libuv's integer for the mode (`uv_run_mode`).
    pub open spec fn spec_code(self) -> u32 {
        match self {
            RunMode::Default => 0,
            RunMode::Once => 1,
            RunMode::NoWait => 2,
        }
    }

    /// libuv's integer for the mode (`uv_run_mode`).
    pub fn into_inner(self) -> (r: u32)
        ensures
            r == self.spec_code(),
    {
        match self {
            RunMode::Default => 0,
            RunMode::Once => 1,
            RunMode::NoWait => 2,
        }
    }
}

} // verus!
