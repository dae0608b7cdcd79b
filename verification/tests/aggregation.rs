use chain_indexer_core::address::Address;
use chain_indexer_core::block::Block;
use chain_indexer_core::transaction::{Transaction, TransactionAmount};

#[test]
fn add_transaction_amount_test() {
    let mut address = Address::new("hashy_address".to_string());
    let transaction_amount = TransactionAmount::new(
        9_080_000_000,
        "address".to_string(),
        "transaction_hash".to_string(),
        123456789,
        5,
    );

    address.add_transaction_amount(transaction_amount, false);

    assert_eq!(address.last_transaction(), 123456789);
}

#[test]
fn add_two_transaction_amount_test() {
    let mut address = Address::new("hashy_address".to_string());
    let transaction_amount = TransactionAmount::new(
        9_080_000_000,
        "address".to_string(),
        "transaction_hash".to_string(),
        123456789,
        5,
    );
    let transaction_amount2 = TransactionAmount::new(
        9_080_000_000,
        "address".to_string(),
        "transaction_hash".to_string(),
        987654321,
        5,
    );

    address.add_transaction_amount(transaction_amount, false);
    address.add_transaction_amount(transaction_amount2, true);

    assert_eq!(address.last_transaction(), 987654321);
}

// A whole ingestion pass in miniature: a block, its coinbase
// transaction, one amount attributed with a miner hint.
#[test]
fn coinbase_attribution_scenario() {
    let block = Block::new("b1".to_string(), 1000, 5);
    let transaction = Transaction::new_from_block("t1".to_string(), true, &block);
    assert_eq!(transaction.date(), 1000);
    assert_eq!(transaction.block_hash(), &"b1".to_string());
    assert_eq!(transaction.block_height(), 5);

    let amount =
        TransactionAmount::new(1_000_000_000, "a1".to_string(), "t1".to_string(), 1000, 0);

    let mut address = Address::new("a1".to_string());
    address.add_transaction_amount(amount, true);

    assert_eq!(address.coin_total(), 1_000_000_000);
    assert_eq!(address.is_miner(), true);
    assert_eq!(address.first_transaction(), 1000);
    assert_eq!(address.last_transaction(), 1000);
}

// Out-of-order arrival: the latest-activity date is recomputed as a
// maximum, while the first-activity date keeps the first-seen date.
#[test]
fn out_of_order_dates_scenario() {
    let mut address = Address::new("a1".to_string());
    let first = TransactionAmount::new(100, "a1".to_string(), "t1".to_string(), 500, 0);
    let second = TransactionAmount::new(200, "a1".to_string(), "t2".to_string(), 300, 1);

    address.add_transaction_amount(first, false);
    assert_eq!(address.last_transaction(), 500);
    assert_eq!(address.first_transaction(), 500);

    address.add_transaction_amount(second, false);
    assert_eq!(address.last_transaction(), 500);
    assert_eq!(address.first_transaction(), 500);
}

// The running balance is the exact signed sum of the amounts, in
// either append order.
#[test]
fn coin_total_is_order_insensitive_sum() {
    let mut forward = Address::new("a1".to_string());
    forward.add_transaction_amount(
        TransactionAmount::new(700, "a1".to_string(), "t1".to_string(), 10, 0),
        false,
    );
    forward.add_transaction_amount(
        TransactionAmount::new(-300, "a1".to_string(), "t2".to_string(), 20, 1),
        false,
    );
    forward.add_transaction_amount(
        TransactionAmount::new(50, "a1".to_string(), "t3".to_string(), 15, 2),
        false,
    );

    let mut backward = Address::new("a1".to_string());
    backward.add_transaction_amount(
        TransactionAmount::new(50, "a1".to_string(), "t3".to_string(), 15, 2),
        false,
    );
    backward.add_transaction_amount(
        TransactionAmount::new(-300, "a1".to_string(), "t2".to_string(), 20, 1),
        false,
    );
    backward.add_transaction_amount(
        TransactionAmount::new(700, "a1".to_string(), "t1".to_string(), 10, 0),
        false,
    );

    assert_eq!(forward.coin_total(), 450);
    assert_eq!(backward.coin_total(), 450);
    assert_eq!(forward.last_transaction(), 20);
    assert_eq!(backward.last_transaction(), 20);
}

// The miner flag is sticky: set by one true hint, never cleared by a
// later false one.
#[test]
fn miner_flag_is_sticky() {
    let mut never = Address::new("a1".to_string());
    never.add_transaction_amount(
        TransactionAmount::new(1, "a1".to_string(), "t1".to_string(), 10, 0),
        false,
    );
    assert_eq!(never.is_miner(), false);

    let mut once = Address::new("a2".to_string());
    once.add_transaction_amount(
        TransactionAmount::new(1, "a2".to_string(), "t1".to_string(), 10, 0),
        true,
    );
    once.add_transaction_amount(
        TransactionAmount::new(1, "a2".to_string(), "t2".to_string(), 20, 1),
        false,
    );
    assert_eq!(once.is_miner(), true);
}

// An address with no activity keeps the reserved zero sentinel in both
// activity dates.
#[test]
fn fresh_address_has_no_activity() {
    let address = Address::new("a1".to_string());
    assert_eq!(address.last_transaction(), 0);
    assert_eq!(address.first_transaction(), 0);
    assert_eq!(address.coin_total(), 0);
    assert_eq!(address.is_miner(), false);
    assert_eq!(address.transactions().len(), 0);
}
