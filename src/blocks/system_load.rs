//! The load-average source.

use vstd::prelude::*;

use crate::block::{BlockError, BlockState, Icon};

verus! {

/// The load source: the one-minute load average behind a lightning glyph.
pub struct SystemLoad {}

impl SystemLoad {
    pub fn new() -> SystemLoad {
        SystemLoad {}
    }

    /// The sample for an outcome of the load query, given how many averages
    /// it returned and the first of them as text: a failure unless it
    /// returned exactly one.
    pub fn state_for(&self, received: i32, load: &str) -> (r: Result<BlockState, BlockError>)
        ensures
            received != 1 <==> r is Err,
            r matches Ok(st) ==> st@ == Icon::LightningBolt.spec_label(load@),
    {
        if received != 1 {
            return Err(BlockError::new(String::from_str("Cannot get load average!")));
        }
        Ok(BlockState::new(Icon::LightningBolt.label(load)))
    }
}

} // verus!
