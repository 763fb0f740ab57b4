//! A transport that performs no I/O.

use vstd::prelude::*;

verus! {

/// A stand-in transport for wiring a channel engine without a store: it
/// carries nothing and holds no state. The surrounding program gives it
/// the engine's transport shape; the library only constructs it.
#[derive(Debug, Clone, Copy, PartialEq, Eq, Structural)]
pub struct DummyTransport();

impl DummyTransport {
    pub fn new() -> (r: DummyTransport)
        ensures
            r == (DummyTransport()),
    {
        DummyTransport()
    }
}

} // verus!
