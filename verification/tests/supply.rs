use chain_indexer_core::blockchain::{BlockChainNames, BlockChainStatType, ChainStats};

fn fresh_stats() -> ChainStats {
    ChainStats::new(BlockChainNames::Bitcoin, "trailing 30 days".to_string(), 2592000)
}

#[test]
fn new_chain_stats_defaults() {
    let stats = fresh_stats();
    assert_eq!(stats.id(), None);
    assert_eq!(stats.blockchain_name(), "Bitcoin".to_string());
    assert_eq!(stats.short_description(), "trailing 30 days".to_string());
    assert_eq!(stats.time_offset(), 2592000);
    assert_eq!(stats.total_coin_issuance(), 0);
    assert_eq!(stats.total_active_coins(), 0);
    assert_eq!(stats.total_unknown_supply(), Some(0));
    assert_eq!(stats.block_height(), 0);
    assert_eq!(stats.block_range_start(), 0);
    assert_eq!(stats.block_range_end(), 0);
    assert_eq!(stats.date_range_start(), 0);
    assert_eq!(stats.date_range_end(), 0);
    assert_eq!(stats.active_addresses(), 0);
    assert_eq!(stats.last_updated(), 0);
    assert_eq!(stats.stat_type(), BlockChainStatType::Default);
}

// Issuance at height zero: nothing mined yet.
#[test]
fn issuance_at_height_zero() {
    let mut stats = fresh_stats();
    stats.update_total_coin_issuance_by_block(0);
    assert_eq!(stats.total_coin_issuance(), 0);
}

// One full epoch: fifty coins for each of its blocks.
#[test]
fn issuance_at_first_halving() {
    let mut stats = fresh_stats();
    stats.update_total_coin_issuance_by_block(210000);
    assert_eq!(stats.total_coin_issuance(), 1_050_000_000_000_000);
}

// Two full epochs: the second pays half the reward.
#[test]
fn issuance_at_second_halving() {
    let mut stats = fresh_stats();
    stats.update_total_coin_issuance_by_block(420000);
    assert_eq!(stats.total_coin_issuance(), 1_575_000_000_000_000);
}

// One block into the second epoch: one halved reward on top.
#[test]
fn issuance_one_block_past_halving() {
    let mut stats = fresh_stats();
    stats.update_total_coin_issuance_by_block(210001);
    assert_eq!(stats.total_coin_issuance(), 1_050_002_500_000_000);
}

#[test]
fn update_setters() {
    let mut stats = fresh_stats();
    stats.update_last_updated(1700000000);
    stats.update_date_range(1600000000, 1700000000);
    stats.update_block_range(100, 200);
    stats.update_active_addresses(42);
    stats.update_block_height(830000);
    stats.update_total_coin_issuance(7);
    stats.update_total_active_coins(5);
    stats.update_total_unknown_supply(None);

    assert_eq!(stats.last_updated(), 1700000000);
    assert_eq!(stats.date_range_start(), 1600000000);
    assert_eq!(stats.date_range_end(), 1700000000);
    assert_eq!(stats.block_range_start(), 100);
    assert_eq!(stats.block_range_end(), 200);
    assert_eq!(stats.active_addresses(), 42);
    assert_eq!(stats.block_height(), 830000);
    assert_eq!(stats.total_coin_issuance(), 7);
    assert_eq!(stats.total_active_coins(), 5);
    assert_eq!(stats.total_unknown_supply(), None);
}

// The update methods hand the borrow back for builder-style chaining.
#[test]
fn update_chaining() {
    let mut stats = fresh_stats();
    stats.update_block_range(10, 20).update_active_addresses(3).update_block_height(99);
    assert_eq!(stats.block_range_start(), 10);
    assert_eq!(stats.block_range_end(), 20);
    assert_eq!(stats.active_addresses(), 3);
    assert_eq!(stats.block_height(), 99);
}

#[test]
fn stat_type_text() {
    assert_eq!(BlockChainStatType::Default.name_string(), "Default".to_string());
    assert_eq!(BlockChainStatType::Custom.name_string(), "Custom".to_string());
    assert_eq!(BlockChainStatType::default(), BlockChainStatType::Default);
}
