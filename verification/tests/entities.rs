use chain_indexer_core::block::Block;
use chain_indexer_core::transaction::{Transaction, TransactionAmount};

#[test]
fn block_hash_test() {
    let block = Block::new("hello_world".to_string(), 123456789, 420);
    assert_eq!(&"hello_world".to_string(), block.hash());
}

#[test]
fn block_date_test() {
    let block = Block::new("hello_world".to_string(), 123456789, 420);
    assert_eq!(123456789, block.date());
}

#[test]
fn block_height_test() {
    let block = Block::new("hello_world".to_string(), 123456789, 420);
    assert_eq!(420, block.height());
}

#[test]
fn block_is_final_test() {
    let block = Block::new("hello_world".to_string(), 123456789, 420);
    assert_eq!(false, block.is_final());
}

#[test]
fn block_set_transactions_test() {
    let mut block = Block::new("hello_world".to_string(), 123456789, 420);
    let tx = Transaction::new_from_block("hashy_transaction".to_string(), true, &block);

    block.set_transactions(vec![tx]);

    assert_eq!(1, block.transactions().len());
}

#[test]
fn block_transaction_test() {
    let mut block = Block::new("hello_world".to_string(), 123456789, 420);
    let transaction = Transaction::new_from_block("hashy_transaction".to_string(), true, &block);

    let transacs = block.transactions_mut();
    transacs.push(transaction);

    assert_eq!(1, block.transactions().len());
}

#[test]
fn transaction_get_date_test() {
    let block = Block::new("hello_world".to_string(), 123456789, 420);
    let transaction = Transaction::new_from_block("hashy".to_string(), true, &block);

    assert_eq!(transaction.date(), 123456789);
}

#[test]
fn transaction_new_test() {
    let transaction =
        Transaction::new("hashy".to_string(), true, 123456789, "hello_world".to_string(), 420);

    assert_eq!(transaction.hash(), &"hashy".to_string());
    assert_eq!(transaction.is_coinbase(), true);
    assert_eq!(transaction.block_hash(), &"hello_world".to_string());
    assert_eq!(transaction.date(), 123456789);
    assert_eq!(transaction.block_height(), 420);
}

#[test]
fn transaction_get_hash_test() {
    let block = Block::new("hello_world".to_string(), 123456789, 420);
    let transaction = Transaction::new_from_block("hashy".to_string(), true, &block);

    assert_eq!(transaction.hash(), &"hashy".to_string());
}

#[test]
fn transaction_get_is_coinbase_test() {
    let block = Block::new("hello_world".to_string(), 123456789, 420);
    let transaction = Transaction::new_from_block("hashy".to_string(), true, &block);

    assert_eq!(transaction.is_coinbase(), true);
}

#[test]
fn transaction_get_block_hash_test() {
    let block = Block::new("hello_world".to_string(), 123456789, 420);
    let transaction = Transaction::new_from_block("hashy".to_string(), true, &block);

    assert_eq!(transaction.block_hash(), &"hello_world".to_string());
}

#[test]
fn transaction_get_block_height_test() {
    let block = Block::new("hello_world".to_string(), 123456789, 420);
    let transaction = Transaction::new_from_block("hashy".to_string(), true, &block);

    assert_eq!(transaction.block_height(), 420);
}

#[test]
fn transaction_amount_get_tests() {
    let transaction_amount = TransactionAmount::new(
        9_080_000_000,
        "address".to_string(),
        "transaction_hash".to_string(),
        123456789,
        5,
    );

    assert_eq!(transaction_amount.amount(), 9_080_000_000);
    assert_eq!(transaction_amount.address_hash(), &"address".to_string());
    assert_eq!(transaction_amount.transaction_hash(), &"transaction_hash".to_string());
    assert_eq!(transaction_amount.index(), 5);
    assert_eq!(transaction_amount.date(), 123456789);
}

#[test]
fn transaction_amount_set_tests() {
    let mut transaction_amount = TransactionAmount::new(
        9_080_000_000,
        "address".to_string(),
        "transaction_hash".to_string(),
        123456789,
        5,
    );

    transaction_amount.set_vin_index(17);
    transaction_amount.set_vin_hash(Some("hashy vin".to_string()));

    assert_eq!(transaction_amount.vin_index(), 17);
    assert_eq!(transaction_amount.vin_hash(), &Some("hashy vin".to_string()));
}

#[test]
fn insert_amount_into_transaction_test() {
    let block = Block::new("hello_world".to_string(), 123456789, 420);
    let mut transaction = Transaction::new_from_block("hashy_transaction".to_string(), true, &block);
    let transaction_amount = TransactionAmount::new(
        9_990_000_000,
        "address".to_string(),
        "hashy_transaction".to_string(),
        123456789,
        5,
    );

    let amounts = transaction.transaction_amounts_mut();
    amounts.push(transaction_amount);

    assert_eq!(1, transaction.transaction_amounts().len());
}

#[test]
fn set_transaction_amounts_test() {
    let block = Block::new("hello_world".to_string(), 123456789, 420);
    let mut transaction = Transaction::new_from_block("hashy_transaction".to_string(), true, &block);
    let transaction_amount = TransactionAmount::new(
        9_990_000_000,
        "address".to_string(),
        "hashy_transaction".to_string(),
        123456789,
        5,
    );

    transaction.set_transaction_amounts(vec![transaction_amount]);

    assert_eq!(1, transaction.transaction_amounts().len());
}

#[test]
fn transaction_amount_weak_ordering() {
    let a = TransactionAmount::new(1, "a".to_string(), "t".to_string(), 100, 0);
    let b = TransactionAmount::new(2, "b".to_string(), "u".to_string(), 100, 7);
    let c = TransactionAmount::new(3, "c".to_string(), "v".to_string(), 200, 1);

    assert_eq!(a, b);
    assert!(a < c);
    assert!(c > b);
}
