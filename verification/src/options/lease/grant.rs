//! Options of a lease grant.

use vstd::prelude::*;
use crate::wire::LeaseGrantRequest;

verus! {

/// Options of a lease grant.
#[derive(Debug, Clone, Copy, PartialEq, Eq, Structural)]
pub struct GrantOptions {
    /// The id asked for; with 0 the service picks one.
    pub id: i64,
}

impl Default for GrantOptions {
    fn default() -> (r: Self)
        ensures
            r == (GrantOptions { id: 0 }),
    {
        GrantOptions { id: 0 }
    }
}

/// Builder of `GrantOptions`. Its view is the options that `build` would
/// return.
#[derive(Debug, Clone, Copy)]
pub struct GrantOptionsBuilder {
    id: Option<i64>,
}

impl View for GrantOptionsBuilder {
    type V = GrantOptions;

    closed spec fn view(&self) -> GrantOptions {
        GrantOptions { id: self.id.unwrap_or(0) }
    }
}

impl Default for GrantOptionsBuilder {
    fn default() -> (r: Self)
        ensures
            r@ == (GrantOptions { id: 0 }),
    {
        GrantOptionsBuilder { id: None }
    }
}

impl GrantOptionsBuilder {
    /// Sets the lease id to ask for.
    pub fn id(self, id: i64) -> (r: Self)
        ensures
            r@ == (GrantOptions { id }),
    {
        let mut b = self;
        b.id = Some(id);
        b
    }

    /// The options; the id is 0 unless one was set.
    pub fn build(self) -> (r: GrantOptions)
        ensures
            r == self@,
    {
        GrantOptions { id: self.id.unwrap_or(0) }
    }
}

impl GrantOptions {
    /// Compiles the options into the grant of a lease that lives `ttl_secs`
    /// whole seconds. The wire field is signed: a count that does not fit is
    /// reduced to its low 64 bits.
    pub fn to_request(&self, ttl_secs: u64) -> (r: LeaseGrantRequest)
        ensures
            r == (LeaseGrantRequest { id: self.id, ttl: ttl_secs as i64 }),
    {
        LeaseGrantRequest { id: self.id, ttl: #[verifier::truncate] (ttl_secs as i64) }
    }

    /// A builder with nothing set.
    pub fn builder() -> (r: GrantOptionsBuilder)
        ensures
            r@ == (GrantOptions { id: 0 }),
    {
        GrantOptionsBuilder { id: None }
    }
}

} // verus!
