use swap::duration::Duration;
use swap::env::{config_for, sync_interval, Config, GetConfig, Mainnet, Regtest, Testnet, Tier};
use swap::network::spot_price::{BitcoinNetwork, MoneroNetwork};
use swap::timelock::{CancelTimelock, PunishTimelock};

#[test]
fn check_interval_is_one_second_if_avg_blocktime_is_one_second() {
    let interval = sync_interval(Duration::from_secs(1));

    assert_eq!(interval, Duration::from_secs(1))
}

#[test]
fn check_interval_is_tenth_of_avg_blocktime() {
    let interval = sync_interval(Duration::from_secs(100));

    assert_eq!(interval, Duration::from_secs(10))
}

#[test]
fn interval_of_zero_block_time_is_one_second() {
    assert_eq!(sync_interval(Duration { nanos: 0 }), Duration::from_secs(1));
}

#[test]
fn interval_just_below_and_at_ten_seconds() {
    assert_eq!(sync_interval(Duration { nanos: 9_999_999_999 }), Duration::from_secs(1));
    assert_eq!(sync_interval(Duration { nanos: 10_000_000_000 }), Duration::from_secs(1));
    assert_eq!(
        sync_interval(Duration { nanos: 10_000_000_019 }),
        Duration { nanos: 1_000_000_001 }
    );
}

#[test]
fn interval_of_the_longest_span() {
    assert_eq!(
        sync_interval(Duration { nanos: u128::MAX }),
        Duration { nanos: u128::MAX / 10 }
    );
}

#[test]
fn from_secs_counts_nanoseconds() {
    assert_eq!(Duration::from_secs(0).nanos, 0);
    assert_eq!(Duration::from_secs(3).nanos, 3_000_000_000);
    assert_eq!(Duration::from_secs(u64::MAX).nanos, u64::MAX as u128 * 1_000_000_000);
}

#[test]
fn div_rounds_down_and_max_picks_the_longer() {
    assert_eq!(Duration { nanos: 29 }.div(10), Duration { nanos: 2 });
    assert_eq!(Duration { nanos: 7 }.div(1), Duration { nanos: 7 });
    assert_eq!(Duration { nanos: 7 }.max(Duration { nanos: 9 }), Duration { nanos: 9 });
    assert_eq!(Duration { nanos: 9 }.max(Duration { nanos: 7 }), Duration { nanos: 9 });
}

#[test]
fn mainnet_profile() {
    let config = Mainnet::get_config();
    assert_eq!(
        config,
        Config {
            bitcoin_lock_confirmed_timeout: Duration::from_secs(24 * 60 * 60),
            bitcoin_finality_confirmations: 3,
            bitcoin_avg_block_time: Duration::from_secs(10 * 60),
            bitcoin_cancel_timelock: CancelTimelock::new(72),
            bitcoin_punish_timelock: PunishTimelock::new(72),
            bitcoin_network: BitcoinNetwork::Mainnet,
            monero_avg_block_time: Duration::from_secs(2 * 60),
            monero_finality_confirmations: 15,
            monero_network: MoneroNetwork::Mainnet,
        }
    );
    assert_eq!(config.bitcoin_sync_interval(), Duration::from_secs(60));
    assert_eq!(config.monero_sync_interval(), Duration::from_secs(12));
}

#[test]
fn testnet_profile() {
    let config = Testnet::get_config();
    assert_eq!(
        config,
        Config {
            bitcoin_lock_confirmed_timeout: Duration::from_secs(12 * 60 * 60),
            bitcoin_finality_confirmations: 1,
            bitcoin_avg_block_time: Duration::from_secs(5 * 60),
            bitcoin_cancel_timelock: CancelTimelock::new(12),
            bitcoin_punish_timelock: PunishTimelock::new(6),
            bitcoin_network: BitcoinNetwork::Testnet,
            monero_avg_block_time: Duration::from_secs(2 * 60),
            monero_finality_confirmations: 10,
            monero_network: MoneroNetwork::Stagenet,
        }
    );
    assert_eq!(config.bitcoin_sync_interval(), Duration::from_secs(30));
    assert_eq!(config.monero_sync_interval(), Duration::from_secs(12));
}

#[test]
fn regtest_profile_keeps_the_production_monero_network() {
    let config = Regtest::get_config();
    assert_eq!(
        config,
        Config {
            bitcoin_lock_confirmed_timeout: Duration::from_secs(60),
            bitcoin_finality_confirmations: 1,
            bitcoin_avg_block_time: Duration::from_secs(5),
            bitcoin_cancel_timelock: CancelTimelock::new(100),
            bitcoin_punish_timelock: PunishTimelock::new(50),
            bitcoin_network: BitcoinNetwork::Regtest,
            monero_avg_block_time: Duration::from_secs(1),
            monero_finality_confirmations: 10,
            monero_network: MoneroNetwork::Mainnet,
        }
    );
    assert_eq!(config.bitcoin_sync_interval(), Duration::from_secs(1));
    assert_eq!(config.monero_sync_interval(), Duration::from_secs(1));
}

#[test]
fn config_for_agrees_with_the_markers() {
    assert_eq!(config_for(Tier::Mainnet), Mainnet::get_config());
    assert_eq!(config_for(Tier::Testnet), Testnet::get_config());
    assert_eq!(config_for(Tier::Regtest), Regtest::get_config());
}

#[test]
fn every_tier_is_consistent() {
    for tier in [Tier::Mainnet, Tier::Testnet, Tier::Regtest] {
        let config = config_for(tier);
        assert!(config.bitcoin_cancel_timelock.0 > 0);
        assert!(config.bitcoin_punish_timelock.0 > 0);
        assert!(config.bitcoin_lock_confirmed_timeout.nanos > config.bitcoin_avg_block_time.nanos);
    }
}

#[test]
fn overrides_change_one_field_of_a_copy() {
    let base = Regtest::get_config();
    let faster = base.with_bitcoin_finality_confirmations(7);
    assert_eq!(faster.bitcoin_finality_confirmations, 7);
    assert_eq!(base.bitcoin_finality_confirmations, 1);
    assert_eq!(faster.with_bitcoin_finality_confirmations(1), base);

    let deeper = base.with_monero_finality_confirmations(42);
    assert_eq!(deeper.monero_finality_confirmations, 42);
    assert_eq!(base.monero_finality_confirmations, 10);
    assert_eq!(deeper.with_monero_finality_confirmations(10), base);
}

#[test]
fn protocol_allowances() {
    let mainnet = swap::config::Config::mainnet();
    assert_eq!(mainnet.bob_time_to_act, Duration::from_secs(600));
    assert_eq!(mainnet.bitcoin_finality_confirmations, 3);
    assert_eq!(mainnet.bitcoin_avg_block_time, Duration::from_secs(600));

    let regtest = swap::config::Config::regtest();
    assert_eq!(regtest.bob_time_to_act, Duration::from_secs(10));
    assert_eq!(regtest.bitcoin_finality_confirmations, 1);
    assert_eq!(regtest.bitcoin_avg_block_time, Duration::from_secs(5));
}
