//! The time allowances of the swap protocol itself.

use vstd::prelude::*;
use crate::duration::{Duration, NANOS_PER_SEC};

verus! {

/// How long the buyer has for each step, and what the bitcoin chain is
/// assumed to do.
#[derive(Clone, Copy, Debug, PartialEq, Eq, Structural)]
pub struct Config {
    pub bob_time_to_act: Duration,
    pub bitcoin_finality_confirmations: u32,
    pub bitcoin_avg_block_time: Duration,
}

impl Config {
    /// Production: ten minutes to act on each step, three confirmations,
    /// blocks ten minutes apart.
    pub fn mainnet() -> (config: Config)
        ensures
            config.bob_time_to_act@ == 600 * NANOS_PER_SEC,
            config.bitcoin_finality_confirmations == 3,
            config.bitcoin_avg_block_time@ == 600 * NANOS_PER_SEC,
    {
        Config {
            bob_time_to_act: Duration::from_secs(10 * 60),
            bitcoin_finality_confirmations: 3,
            bitcoin_avg_block_time: Duration::from_secs(10 * 60),
        }
    }

    /// Local runs: ten seconds to act, so that a stalled swap fails fast,
    /// one confirmation, blocks five seconds apart.
    pub fn regtest() -> (config: Config)
        ensures
            config.bob_time_to_act@ == 10 * NANOS_PER_SEC,
            config.bitcoin_finality_confirmations == 1,
            config.bitcoin_avg_block_time@ == 5 * NANOS_PER_SEC,
    {
        Config {
            bob_time_to_act: Duration::from_secs(10),
            bitcoin_finality_confirmations: 1,
            bitcoin_avg_block_time: Duration::from_secs(5),
        }
    }
}

} // verus!
