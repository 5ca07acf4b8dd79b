//! The factory of the default client.

use vstd::prelude::*;

verus! {

/// Makes default clients. It holds nothing: every client it makes is
/// configured by the options handed over with the request.
#[derive(Debug, Clone, Copy, PartialEq, Eq, Structural)]
pub struct DefaultClientFactory;

impl DefaultClientFactory {
    /// The factory.
    pub fn new() -> (r: Self)
        ensures
            r == DefaultClientFactory,
    {
        DefaultClientFactory
    }
}

} // verus!
