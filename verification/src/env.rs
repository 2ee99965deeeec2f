//! Deployment profiles: the confirmation counts, block times and timelocks
//! that a swap runs under on each tier.

use vstd::prelude::*;
use crate::duration::{hours, minutes, seconds, Duration, NANOS_PER_SEC};
use crate::network::spot_price::{BitcoinNetwork, MoneroNetwork};
use crate::timelock::{CancelTimelock, PunishTimelock};

verus! {

/// The parameters of one deployment tier. A value is made once and only
/// read afterwards.
#[derive(Clone, Copy, Debug, PartialEq, Eq, Structural)]
pub struct Config {
    pub bitcoin_lock_confirmed_timeout: Duration,
    pub bitcoin_finality_confirmations: u32,
    pub bitcoin_avg_block_time: Duration,
    pub bitcoin_cancel_timelock: CancelTimelock,
    pub bitcoin_punish_timelock: PunishTimelock,
    pub bitcoin_network: BitcoinNetwork,
    pub monero_avg_block_time: Duration,
    pub monero_finality_confirmations: u64,
    pub monero_network: MoneroNetwork,
}

/// The interval at which a chain with the given average block time is
/// polled, in nanoseconds: a tenth of the block time, but at least a second.
pub open spec fn spec_sync_interval(avg_block_time: nat) -> nat {
    if avg_block_time / 10 >= NANOS_PER_SEC as nat {
        avg_block_time / 10
    } else {
        NANOS_PER_SEC as nat
    }
}

/// The interval at which a chain with the given average block time is
/// polled: a tenth of the block time, but never less than one second.
pub fn sync_interval(avg_block_time: Duration) -> (interval: Duration)
    ensures
        interval@ == spec_sync_interval(avg_block_time@),
        interval@ >= NANOS_PER_SEC,
        interval@ * 10 <= avg_block_time@ || interval@ == NANOS_PER_SEC,
{
    avg_block_time.div(10).max(Duration::from_secs(1))
}

impl Config {
    /// Whether the timelocks are positive block counts, and the wait for the
    /// lock's first confirmation is longer than one average block.
    pub open spec fn is_consistent(self) -> bool {
        &&& self.bitcoin_cancel_timelock.0 > 0
        &&& self.bitcoin_punish_timelock.0 > 0
        &&& self.bitcoin_lock_confirmed_timeout@ > self.bitcoin_avg_block_time@
    }

    /// The polling interval for the bitcoin chain.
    pub fn bitcoin_sync_interval(&self) -> (interval: Duration)
        ensures
            interval@ == spec_sync_interval(self.bitcoin_avg_block_time@),
    {
        sync_interval(self.bitcoin_avg_block_time)
    }

    /// The polling interval for the monero chain.
    pub fn monero_sync_interval(&self) -> (interval: Duration)
        ensures
            interval@ == spec_sync_interval(self.monero_avg_block_time@),
    {
        sync_interval(self.monero_avg_block_time)
    }

    /// A copy that differs only in the bitcoin finality confirmations.
    pub fn with_bitcoin_finality_confirmations(
        self,
        bitcoin_finality_confirmations: u32,
    ) -> (config: Config)
        ensures
            config == (Config { bitcoin_finality_confirmations, ..self }),
    {
        let mut config = self;
        config.bitcoin_finality_confirmations = bitcoin_finality_confirmations;
        config
    }

    /// A copy that differs only in the monero finality confirmations.
    pub fn with_monero_finality_confirmations(
        self,
        monero_finality_confirmations: u64,
    ) -> (config: Config)
        ensures
            config == (Config { monero_finality_confirmations, ..self }),
    {
        let mut config = self;
        config.monero_finality_confirmations = monero_finality_confirmations;
        config
    }
}

/// The three deployment tiers.
#[derive(Clone, Copy, Debug, PartialEq, Eq, Structural)]
pub enum Tier {
    Mainnet,
    Testnet,
    Regtest,
}

/// The parameters that each tier is pinned to.
pub open spec fn tier_config(tier: Tier) -> Config {
    match tier {
        Tier::Mainnet => Config {
            bitcoin_lock_confirmed_timeout: Duration::spec_from_secs(86_400),
            bitcoin_finality_confirmations: 3,
            bitcoin_avg_block_time: Duration::spec_from_secs(600),
            bitcoin_cancel_timelock: CancelTimelock(72),
            bitcoin_punish_timelock: PunishTimelock(72),
            bitcoin_network: BitcoinNetwork::Mainnet,
            monero_avg_block_time: Duration::spec_from_secs(120),
            monero_finality_confirmations: 15,
            monero_network: MoneroNetwork::Mainnet,
        },
        Tier::Testnet => Config {
            bitcoin_lock_confirmed_timeout: Duration::spec_from_secs(43_200),
            bitcoin_finality_confirmations: 1,
            bitcoin_avg_block_time: Duration::spec_from_secs(300),
            bitcoin_cancel_timelock: CancelTimelock(12),
            bitcoin_punish_timelock: PunishTimelock(6),
            bitcoin_network: BitcoinNetwork::Testnet,
            monero_avg_block_time: Duration::spec_from_secs(120),
            monero_finality_confirmations: 10,
            monero_network: MoneroNetwork::Stagenet,
        },
        // The local tier runs its monero side under the identity of the
        // production network; the harness around it expects that.
        Tier::Regtest => Config {
            bitcoin_lock_confirmed_timeout: Duration::spec_from_secs(60),
            bitcoin_finality_confirmations: 1,
            bitcoin_avg_block_time: Duration::spec_from_secs(5),
            bitcoin_cancel_timelock: CancelTimelock(100),
            bitcoin_punish_timelock: PunishTimelock(50),
            bitcoin_network: BitcoinNetwork::Regtest,
            monero_avg_block_time: Duration::spec_from_secs(1),
            monero_finality_confirmations: 10,
            monero_network: MoneroNetwork::Mainnet,
        },
    }
}

/// A marker for a tier, from which the tier's parameters can be had.
pub trait GetConfig {
    /// The tier that the marker stands for.
    spec fn tier() -> Tier;

    /// The parameters of the marker's tier.
    fn get_config() -> (config: Config)
        ensures
            config == tier_config(Self::tier()),
            config.is_consistent(),
    ;
}

/// The production tier.
#[derive(Clone, Copy)]
pub struct Mainnet;

/// The public test tier.
#[derive(Clone, Copy)]
pub struct Testnet;

/// The local integration tier.
#[derive(Clone, Copy)]
pub struct Regtest;

impl GetConfig for Mainnet {
    open spec fn tier() -> Tier {
        Tier::Mainnet
    }

    fn get_config() -> (config: Config) {
        Config {
            bitcoin_lock_confirmed_timeout: hours(24),
            bitcoin_finality_confirmations: 3,
            bitcoin_avg_block_time: minutes(10),
            bitcoin_cancel_timelock: CancelTimelock::new(72),
            bitcoin_punish_timelock: PunishTimelock::new(72),
            bitcoin_network: BitcoinNetwork::Mainnet,
            monero_avg_block_time: minutes(2),
            monero_finality_confirmations: 15,
            monero_network: MoneroNetwork::Mainnet,
        }
    }
}

impl GetConfig for Testnet {
    open spec fn tier() -> Tier {
        Tier::Testnet
    }

    fn get_config() -> (config: Config) {
        Config {
            bitcoin_lock_confirmed_timeout: hours(12),
            bitcoin_finality_confirmations: 1,
            bitcoin_avg_block_time: minutes(5),
            bitcoin_cancel_timelock: CancelTimelock::new(12),
            bitcoin_punish_timelock: PunishTimelock::new(6),
            bitcoin_network: BitcoinNetwork::Testnet,
            monero_avg_block_time: minutes(2),
            monero_finality_confirmations: 10,
            monero_network: MoneroNetwork::Stagenet,
        }
    }
}

impl GetConfig for Regtest {
    open spec fn tier() -> Tier {
        Tier::Regtest
    }

    fn get_config() -> (config: Config) {
        Config {
            bitcoin_lock_confirmed_timeout: minutes(1),
            bitcoin_finality_confirmations: 1,
            bitcoin_avg_block_time: seconds(5),
            bitcoin_cancel_timelock: CancelTimelock::new(100),
            bitcoin_punish_timelock: PunishTimelock::new(50),
            bitcoin_network: BitcoinNetwork::Regtest,
            monero_avg_block_time: seconds(1),
            monero_finality_confirmations: 10,
            monero_network: MoneroNetwork::Mainnet,
        }
    }
}

/// The parameters of a tier, chosen by value.
pub fn config_for(tier: Tier) -> (config: Config)
    ensures
        config == tier_config(tier),
        config.is_consistent(),
{
    match tier {
        Tier::Mainnet => Mainnet::get_config(),
        Tier::Testnet => Testnet::get_config(),
        Tier::Regtest => Regtest::get_config(),
    }
}

/// On every tier both timelocks are positive block counts, and the wait for
/// the lock's first confirmation is longer than one average bitcoin block.
pub proof fn lemma_every_tier_is_consistent(tier: Tier)
    ensures
        tier_config(tier).is_consistent(),
        tier_config(tier).bitcoin_cancel_timelock.0 > 0,
        tier_config(tier).bitcoin_punish_timelock.0 > 0,
        tier_config(tier).bitcoin_lock_confirmed_timeout@ > tier_config(
            tier,
        ).bitcoin_avg_block_time@,
{
}

/// The polling interval is a tenth of the block time wherever that is a
/// second or more, and one second below that.
pub proof fn lemma_sync_interval_is_larger_of_tenth_and_second(avg_block_time: nat)
    ensures
        spec_sync_interval(avg_block_time) >= avg_block_time / 10,
        spec_sync_interval(avg_block_time) >= NANOS_PER_SEC,
        spec_sync_interval(avg_block_time) == avg_block_time / 10 || spec_sync_interval(
            avg_block_time,
        ) == NANOS_PER_SEC,
{
}

/// Overriding a finality count leaves a consistent profile consistent.
pub proof fn lemma_overrides_keep_consistency(config: Config, bitcoin: u32, monero: u64)
    requires
        config.is_consistent(),
    ensures
        (Config { bitcoin_finality_confirmations: bitcoin, ..config }).is_consistent(),
        (Config { monero_finality_confirmations: monero, ..config }).is_consistent(),
{
}

} // verus!
