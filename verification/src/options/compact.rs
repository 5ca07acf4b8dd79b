//! Options of a compaction.

use vstd::prelude::*;
use crate::wire::CompactionRequest;

verus! {

/// Options of a compaction.
#[derive(Debug, Clone, Copy, PartialEq, Eq, Structural)]
pub struct CompactOptions {
    /// Whether the call returns only once the compaction has been applied to
    /// the store on disk.
    pub physical: bool,
}

impl Default for CompactOptions {
    fn default() -> (r: Self)
        ensures
            r == (CompactOptions { physical: false }),
    {
        CompactOptions { physical: false }
    }
}

/// Builder of `CompactOptions`. Its view is the options that `build` would
/// return.
#[derive(Debug, Clone, Copy)]
pub struct CompactOptionsBuilder {
    physical: Option<bool>,
}

impl View for CompactOptionsBuilder {
    type V = CompactOptions;

    closed spec fn view(&self) -> CompactOptions {
        CompactOptions { physical: self.physical.unwrap_or(false) }
    }
}

impl CompactOptions {
    /// A builder with nothing set.
    pub fn builder() -> (r: CompactOptionsBuilder)
        ensures
            r@ == (CompactOptions { physical: false }),
    {
        CompactOptionsBuilder { physical: None }
    }

    /// Compiles the options into the compaction up to `revision`.
    pub fn to_request(&self, revision: i64) -> (r: CompactionRequest)
        ensures
            r == (CompactionRequest { revision, physical: self.physical }),
    {
        CompactionRequest { revision, physical: self.physical }
    }
}

impl Default for CompactOptionsBuilder {
    fn default() -> (r: Self)
        ensures
            r@ == (CompactOptions { physical: false }),
    {
        CompactOptions::builder()
    }
}

impl CompactOptionsBuilder {
    /// Sets whether the compaction is physical.
    pub fn physical(self, physical: bool) -> (r: Self)
        ensures
            r@ == (CompactOptions { physical }),
    {
        let mut b = self;
        b.physical = Some(physical);
        b
    }

    /// The options; a compaction is not physical unless that was set.
    pub fn build(self) -> (r: CompactOptions)
        ensures
            r == self@,
    {
        CompactOptions { physical: self.physical.unwrap_or(false) }
    }
}

} // verus!
