use chain_indexer_core::address::Address;
use chain_indexer_core::block::Block;
use chain_indexer_core::blockchain::{BlockChainNames, BlockChainStatType, ChainStats};
use chain_indexer_core::json::{json_eq, JsonValue};
use chain_indexer_core::transaction::{Transaction, TransactionAmount};

fn key(name: &str, value: JsonValue) -> (String, JsonValue) {
    (name.to_string(), value)
}

fn text(value: &str) -> JsonValue {
    JsonValue::Str(value.to_string())
}

#[test]
fn deserialize_test() {
    let record = JsonValue::Object(vec![
        key("hash", text("hashy_address")),
        key("last_transaction", JsonValue::Int(123456789)),
        key("coin_total", JsonValue::Int(1_000_000_000)),
        key("is_miner", JsonValue::Bool(true)),
        key("first_transaction", JsonValue::Int(111156789)),
        key("last_updated", text("2022-11-05T10:26:52.348613688Z")),
        key("needs_update", JsonValue::Bool(true)),
        key("transactions", JsonValue::Array(vec![])),
    ]);
    let address = Address::from_record(&record);
    if let Ok(a) = address {
        assert_eq!(a.hash().clone(), "hashy_address".to_string());
        assert_eq!(a.last_transaction(), 123456789);
        assert_eq!(a.first_transaction(), 111156789);
        assert_eq!(a.coin_total(), 1_000_000_000);
        assert_eq!(a.is_miner(), true);
        assert_eq!(a.last_updated(), &"2022-11-05T10:26:52.348613688Z");
        assert_eq!(a.transactions(), &vec![]);
    } else {
        println!("{:?}", address);
        assert!(false)
    }
}

#[test]
fn serialize_test() {
    let address = Address::new("hashy_address".to_string());

    let expected = JsonValue::Object(vec![
        key("hash", text("hashy_address")),
        key("last_transaction", JsonValue::Int(0)),
        key("coin_total", JsonValue::Int(0)),
        key("is_miner", JsonValue::Bool(false)),
        key("first_transaction", JsonValue::Int(0)),
        key("last_updated", text(address.last_updated())),
        key("needs_update", JsonValue::Bool(true)),
        key("transactions", JsonValue::Array(vec![])),
    ]);

    assert!(json_eq(&address.to_record(), &expected));
}

#[test]
fn block_deserialize_test() {
    let amount = |index: JsonValue, vin_index: JsonValue| {
        JsonValue::Object(vec![
            key("id", JsonValue::Int(5)),
            key("amount", JsonValue::Int(4_398_000_000)),
            key("transaction_hash", text("hashy_transaction")),
            key("address_hash", text("hashy_address")),
            key("index", index),
            key("date", JsonValue::Int(123456789)),
            key("vin_index", vin_index),
            key("vin_hash", JsonValue::Null),
        ])
    };
    let record = JsonValue::Object(vec![
        key("hash", text("blocky_hash")),
        key("time", JsonValue::Int(123456789)),
        key("height", JsonValue::Int(430690)),
        key("last_updated", text("2022-11-05T10:26:52.348613688Z")),
        key("is_final", JsonValue::Bool(false)),
        key(
            "transaction_collection",
            JsonValue::Array(vec![JsonValue::Object(vec![
                key("hash", text("hashy_hash")),
                key("date", JsonValue::Int(123456789)),
                key("is_coinbase", JsonValue::Bool(false)),
                key("block_hash", text("blocky_hash")),
                key("block_height", JsonValue::Int(430690)),
                key("last_updated", text("2022-11-05T10:26:52.348613688Z")),
                key(
                    "transaction_amount_collection",
                    JsonValue::Array(vec![
                        amount(JsonValue::Int(42), JsonValue::Int(-1)),
                        amount(JsonValue::Int(-1), JsonValue::Int(1)),
                        amount(text("-1"), JsonValue::Int(1)),
                    ]),
                ),
            ])]),
        ),
    ]);

    let block = Block::from_record(&record);
    if let Ok(b) = block {
        assert_eq!(&"blocky_hash".to_string(), b.hash());
        assert_eq!(123456789, b.date());
        assert_eq!(430690, b.height());
        assert_eq!(1, b.transactions().len());
    } else {
        println!("{:?}", block);
        assert!(false);
    }
}

#[test]
fn block_serialize_test() {
    let mut block = Block::new("blocky_hash".to_string(), 123456789, 430690);

    let mut transaction = Transaction::new_from_block("hashy_transaction".to_string(), true, &block);
    let transaction_amount = TransactionAmount::new(
        4_398_000_000,
        "hashy_address".to_string(),
        transaction.hash().clone(),
        123456789,
        42,
    );

    let expected = JsonValue::Object(vec![
        key("hash", text("blocky_hash")),
        key("date", JsonValue::Int(123456789)),
        key("height", JsonValue::Int(430690)),
        key("is_final", JsonValue::Bool(false)),
        key("last_updated", text(block.last_updated())),
        key(
            "transaction_collection",
            JsonValue::Array(vec![JsonValue::Object(vec![
                key("hash", text("hashy_transaction")),
                key("date", JsonValue::Int(123456789)),
                key("is_coinbase", JsonValue::Bool(true)),
                key("block_hash", text("blocky_hash")),
                key("block_height", JsonValue::Int(430690)),
                key("last_updated", text(transaction.last_updated())),
                key(
                    "transaction_amount_collection",
                    JsonValue::Array(vec![JsonValue::Object(vec![
                        key("amount", JsonValue::Int(4_398_000_000)),
                        key("address_hash", text("hashy_address")),
                        key("transaction_hash", text("hashy_transaction")),
                        key("index", JsonValue::Int(42)),
                        key("date", JsonValue::Int(123456789)),
                        key("vin_index", JsonValue::Int(-1)),
                        key("vin_hash", JsonValue::Null),
                    ])]),
                ),
            ])]),
        ),
    ]);

    let amounts = transaction.transaction_amounts_mut();
    amounts.push(transaction_amount);

    let transacs = block.transactions_mut();
    transacs.push(transaction);

    assert!(json_eq(&block.to_record(), &expected));
}

// An amount survives the round trip, vin linkage included.
#[test]
fn amount_record_round_trip() {
    let mut amount =
        TransactionAmount::new(-12345, "addr".to_string(), "tx".to_string(), 777, 3);
    amount.set_vin_index(9);
    amount.set_vin_hash(Some("prior_tx".to_string()));

    let record = amount.to_record();
    let back = TransactionAmount::from_record(&record).unwrap();
    assert_eq!(back.amount(), -12345);
    assert_eq!(back.address_hash(), &"addr".to_string());
    assert_eq!(back.transaction_hash(), &"tx".to_string());
    assert_eq!(back.index(), 3);
    assert_eq!(back.date(), 777);
    assert_eq!(back.vin_index(), 9);
    assert_eq!(back.vin_hash(), &Some("prior_tx".to_string()));
    assert!(json_eq(&back.to_record(), &record));
}

// The string-encoded form of the index fields parses as the integer.
#[test]
fn amount_accepts_string_encoded_index() {
    let record = JsonValue::Object(vec![
        key("amount", JsonValue::Int(1)),
        key("address_hash", text("a")),
        key("transaction_hash", text("t")),
        key("index", text("42")),
        key("date", JsonValue::Int(1)),
        key("vin_index", text("-1")),
    ]);
    let amount = TransactionAmount::from_record(&record).unwrap();
    assert_eq!(amount.index(), 42);
    assert_eq!(amount.vin_index(), -1);
    assert_eq!(amount.vin_hash(), &None);
}

// An unparseable index is a format error, never a silent default.
#[test]
fn amount_rejects_malformed_index() {
    let malformed = JsonValue::Object(vec![
        key("amount", JsonValue::Int(1)),
        key("address_hash", text("a")),
        key("transaction_hash", text("t")),
        key("index", text("not a number")),
        key("date", JsonValue::Int(1)),
        key("vin_index", JsonValue::Int(-1)),
    ]);
    assert!(TransactionAmount::from_record(&malformed).is_err());

    let out_of_range = JsonValue::Object(vec![
        key("amount", JsonValue::Int(1)),
        key("address_hash", text("a")),
        key("transaction_hash", text("t")),
        key("index", text("5000000000")),
        key("date", JsonValue::Int(1)),
        key("vin_index", JsonValue::Int(-1)),
    ]);
    assert!(TransactionAmount::from_record(&out_of_range).is_err());

    let missing_date = JsonValue::Object(vec![
        key("amount", JsonValue::Int(1)),
        key("address_hash", text("a")),
        key("transaction_hash", text("t")),
        key("index", JsonValue::Int(0)),
        key("vin_index", JsonValue::Int(-1)),
    ]);
    assert!(TransactionAmount::from_record(&missing_date).is_err());
}

// A transaction record accepts either collection key on input.
#[test]
fn transaction_record_round_trip_and_alias() {
    let block = Block::new("b".to_string(), 55, 7);
    let mut transaction = Transaction::new_from_block("t".to_string(), false, &block);
    transaction.set_transaction_amounts(vec![TransactionAmount::new(
        10,
        "a".to_string(),
        "t".to_string(),
        55,
        0,
    )]);

    let record = transaction.to_record();
    let back = Transaction::from_record(&record).unwrap();
    assert_eq!(back.hash(), &"t".to_string());
    assert_eq!(back.transaction_amounts().len(), 1);
    assert!(json_eq(&back.to_record(), &record));

    let aliased = JsonValue::Object(vec![
        key("hash", text("t2")),
        key("date", JsonValue::Int(55)),
        key("is_coinbase", JsonValue::Bool(false)),
        key("block_hash", text("b")),
        key("block_height", JsonValue::Int(7)),
        key("last_updated", text("now-ish")),
        key("transaction_amounts", JsonValue::Array(vec![])),
    ]);
    let from_alias = Transaction::from_record(&aliased).unwrap();
    assert_eq!(from_alias.transaction_amounts().len(), 0);
}

// A statistics snapshot survives the round trip; its absent id is
// dropped from the record entirely, not emitted as null.
#[test]
fn chain_stats_record_round_trip() {
    let mut stats =
        ChainStats::new(BlockChainNames::Litecoin, "weekly".to_string(), 604800);
    stats.update_block_height(123);
    stats.update_total_coin_issuance(456);
    stats.update_total_unknown_supply(None);

    let record = stats.to_record();
    if let JsonValue::Object(fields) = &record {
        assert!(fields.iter().all(|(name, _)| name.as_str() != "id"));
        assert!(fields.iter().all(|(name, _)| name.as_str() != "total_unknown_supply"));
    } else {
        panic!("snapshot record is not an object");
    }

    let back = ChainStats::from_record(&record).unwrap();
    assert_eq!(back.id(), None);
    assert_eq!(back.blockchain_name(), "Litecoin".to_string());
    assert_eq!(back.short_description(), "weekly".to_string());
    assert_eq!(back.time_offset(), 604800);
    assert_eq!(back.block_height(), 123);
    assert_eq!(back.total_coin_issuance(), 456);
    assert_eq!(back.total_unknown_supply(), None);
    assert_eq!(back.stat_type(), BlockChainStatType::Default);
    assert!(json_eq(&back.to_record(), &record));
}

// The id field is read leniently: a decimal-digit string works, and a
// missing numeric counter defaults to zero.
#[test]
fn chain_stats_lenient_and_defaulted_fields() {
    let record = JsonValue::Object(vec![
        key("id", text("77")),
        key("blockchain_name", text("Bitcoin")),
        key("short_description", text("daily")),
        key("stat_type", text("Custom")),
    ]);
    let stats = ChainStats::from_record(&record).unwrap();
    assert_eq!(stats.id(), Some(77));
    assert_eq!(stats.time_offset(), 0);
    assert_eq!(stats.block_height(), 0);
    assert_eq!(stats.total_unknown_supply(), None);
    assert_eq!(stats.stat_type(), BlockChainStatType::Custom);

    let bad = JsonValue::Object(vec![
        key("id", text("seventy-seven")),
        key("blockchain_name", text("Bitcoin")),
        key("short_description", text("daily")),
    ]);
    assert!(ChainStats::from_record(&bad).is_err());
}

// The persistence boundary: field selections, insert mutations, input
// type names, and delete-key expressions.
#[test]
fn persistence_strings() {
    let address = Address::new("hashy_address".to_string());
    assert_eq!(
        address.insert_query("param".to_string()),
        "create_address (input: $param ){ hash }".to_string()
    );
    assert_eq!(address.input_type(), "addressInput".to_string());
    assert_eq!(address.delete_input(), "hash: \"hashy_address\"".to_string());

    let block = Block::new("blocky".to_string(), 1, 2);
    assert_eq!(
        block.insert_query("b".to_string()),
        "create_blocks (input: $b ){ hash }".to_string()
    );
    assert_eq!(block.input_type(), "blocksInput".to_string());
    assert_eq!(block.delete_input(), "hash: \"blocky\"".to_string());

    let transaction = Transaction::new("t".to_string(), false, 1, "b".to_string(), 2);
    assert_eq!(transaction.input_type(), "transactionInput".to_string());
    assert_eq!(transaction.delete_input(), "hash: \"t\"".to_string());

    let mut amount = TransactionAmount::new(1, "a".to_string(), "tx_hash".to_string(), 1, 5);
    amount.set_vin_index(-1);
    assert_eq!(amount.input_type(), "transaction_amountInput".to_string());
    assert_eq!(
        amount.delete_input(),
        "transaction_hash: \"tx_hash\", index: \"5\", vin_index: \"-1\"".to_string()
    );
    assert!(Transaction::fetch_fields().starts_with("{ hash, is_coinbase"));
    assert!(Block::fetch_fields().starts_with("{ hash, date"));
    assert!(Address::fetch_fields().starts_with("{ hash, last_transaction"));
    assert!(TransactionAmount::fetch_fields().starts_with("{ amount"));
    assert!(ChainStats::fetch_fields().starts_with("{ id, blockchain_name"));
}

// The backend write projection drops exactly the nested collections.
#[test]
fn backend_projections_drop_collections() {
    let mut block = Block::new("b".to_string(), 9, 10);
    let transaction = Transaction::new_from_block("t".to_string(), true, &block);
    block.set_transactions(vec![transaction]);

    if let JsonValue::Object(fields) = block.graphql_inputs() {
        assert_eq!(fields.len(), 5);
        assert!(fields.iter().all(|(name, _)| name.as_str() != "transaction_collection"));
        assert!(fields.iter().all(|(name, _)| name.as_str() != "transactions"));
    } else {
        panic!("projection is not an object");
    }

    let mut address = Address::new("a".to_string());
    address.add_transaction_amount(
        TransactionAmount::new(5, "a".to_string(), "t".to_string(), 1, 0),
        false,
    );
    if let JsonValue::Object(fields) = address.graphql_inputs() {
        assert_eq!(fields.len(), 7);
        assert!(fields.iter().all(|(name, _)| name.as_str() != "transactions"));
    } else {
        panic!("projection is not an object");
    }
}
