//! Price-cache TTL behaviour, wallet balance arithmetic, and the small
//! domain enums.

use btc_options_api::mutiny_wallet::{
    compute_wallet_balance, AddressInfo, ChainStats, MempoolStats, Network, Utxo, UtxoStatus,
};
use btc_options_api::price_oracle::{PriceCache, PRICE_CACHE_TTL_SECS};
use btc_options_api::side::OptionSide;

#[test]
fn test_price_cache_cold_start() {
    let c = PriceCache::new(PRICE_CACHE_TTL_SECS);
    assert_eq!(c.get_cached_price(0), None);
    assert_eq!(c.get_cached_price(1_700_000_000), None);
}

#[test]
fn test_price_cache_within_ttl() {
    // Two reads within the TTL return the identical published price, so no
    // second upstream fetch is triggered.
    let mut c = PriceCache::new(10);
    let t = 1_700_000_000i64;
    c.store_price(6_000_000, t);
    let first = c.get_cached_price(t + 3);
    let second = c.get_cached_price(t + 9);
    assert_eq!(first, Some(6_000_000));
    assert_eq!(first, second);
}

#[test]
fn test_price_cache_expires_after_ttl() {
    // A read at or past the TTL misses, forcing a new upstream fetch; the
    // fetched price replaces the pair atomically.
    let mut c = PriceCache::new(10);
    let t = 1_700_000_000i64;
    c.store_price(6_000_000, t);
    assert_eq!(c.get_cached_price(t + 10), None);
    assert_eq!(c.get_cached_price(t - 1), None); // clock moved backwards
    c.store_price(6_100_000, t + 10);
    assert_eq!(c.get_cached_price(t + 11), Some(6_100_000));
}

fn stats(funded: u64, spent: u64) -> ChainStats {
    ChainStats {
        funded_txo_count: 2,
        funded_txo_sum: funded,
        spent_txo_count: 1,
        spent_txo_sum: spent,
        tx_count: 3,
    }
}

fn utxo(confirmed: bool, value: u64) -> Utxo {
    Utxo {
        txid: "f".repeat(64),
        vout: 0,
        status: UtxoStatus { confirmed, block_height: None, block_hash: None, block_time: None },
        value,
    }
}

#[test]
fn test_compute_wallet_balance() {
    let info = AddressInfo {
        address: "tb1qw508d6qejxtdg4y5r3zarvary0c5xw7kxpjzsx".to_string(),
        chain_stats: stats(150_000, 50_000),
        mempool_stats: MempoolStats {
            funded_txo_count: 1,
            funded_txo_sum: 30_000,
            spent_txo_count: 0,
            spent_txo_sum: 10_000,
            tx_count: 1,
        },
    };
    let utxos = vec![utxo(true, 60_000), utxo(false, 20_000), utxo(true, 40_000)];
    let b = compute_wallet_balance(info.address.clone(), &info, &utxos);
    assert_eq!(b.address, info.address);
    assert_eq!(b.confirmed_balance, 100_000);
    assert_eq!(b.unconfirmed_balance, 20_000);
    assert_eq!(b.total_balance, 120_000);
    assert_eq!(b.confirmed_utxo_count, 2);
    assert_eq!(b.unconfirmed_utxo_count, 1);
    assert_eq!(b.total_utxo_count, 3);
}

#[test]
fn test_network_names_and_urls() {
    assert_eq!(Network::Mainnet.name(), "mainnet");
    assert_eq!(Network::Testnet.name(), "testnet");
    assert_eq!(Network::Signet.name(), "signet");
    assert_eq!(Network::Mainnet.default_base_url(), "https://mutiny.mempool.space/api");
    assert_eq!(Network::Testnet.default_base_url(), "https://mutinynet.com/api");
    assert_eq!(Network::Signet.default_base_url(), "https://mutinynet.com/api");
}

#[test]
fn test_option_side_names_and_codes() {
    assert_eq!(OptionSide::Call.name(), "Call");
    assert_eq!(OptionSide::Put.name(), "Put");
    assert_eq!(OptionSide::Call.code(), "C");
    assert_eq!(OptionSide::Put.code(), "P");
    assert_eq!(OptionSide::from_name("Call"), Some(OptionSide::Call));
    assert_eq!(OptionSide::from_name("Put"), Some(OptionSide::Put));
    assert_eq!(OptionSide::from_name("call"), None);
    assert_eq!(OptionSide::from_code("C"), Some(OptionSide::Call));
    assert_eq!(OptionSide::from_code("P"), Some(OptionSide::Put));
    assert_eq!(OptionSide::from_code("X"), None);
}
