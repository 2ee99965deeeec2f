//! Relative timelocks on the chain that supports them, in blocks.

use vstd::prelude::*;

verus! {

/// Blocks after the lock transaction after which either party may cancel.
#[derive(Clone, Copy, Debug, PartialEq, Eq, Structural)]
pub struct CancelTimelock(pub u32);

/// Blocks after the cancel transaction after which the party that stayed
/// idle can be punished.
#[derive(Clone, Copy, Debug, PartialEq, Eq, Structural)]
pub struct PunishTimelock(pub u32);

impl CancelTimelock {
    /// A cancel timelock of `number_of_blocks` blocks.
    pub fn new(number_of_blocks: u32) -> (t: CancelTimelock)
        ensures
            t.0 == number_of_blocks,
    {
        CancelTimelock(number_of_blocks)
    }
}

impl PunishTimelock {
    /// A punish timelock of `number_of_blocks` blocks.
    pub fn new(number_of_blocks: u32) -> (t: PunishTimelock)
        ensures
            t.0 == number_of_blocks,
    {
        PunishTimelock(number_of_blocks)
    }
}

} // verus!
