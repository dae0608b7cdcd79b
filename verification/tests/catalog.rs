use chain_indexer_core::blockchain::{BlockChain, BlockChainNames};

#[test]
fn test_blockchain_new() {
    let bitcoin = BlockChain::new(BlockChainNames::Bitcoin);
    assert_eq!(bitcoin.name(), "Bitcoin");
    assert_eq!(bitcoin.short_description(), "BTC");
    assert_eq!(bitcoin.key(), "bitcoin");
    assert_eq!(bitcoin.decimal_places(), 8);
}

#[test]
fn test_blockchain_new_from_string() {
    let bitcoin = BlockChain::new_from_string("Bitcoin".to_string()).unwrap();
    assert_eq!(bitcoin.name(), "Bitcoin");
    assert_eq!(bitcoin.short_description(), "BTC");
    assert_eq!(bitcoin.key(), "bitcoin");
    assert_eq!(bitcoin.decimal_places(), 8);
}

#[test]
fn test_blockchain_new_from_string_invalid() {
    let bitcoin = BlockChain::new_from_string("BitcoinCash".to_string());
    assert!(bitcoin.is_err());
}

#[test]
fn test_serde_blockchain_names() {
    let name = BlockChainNames::BitcoinCash;
    let string_name = name.name_string();
    assert_eq!(string_name, "Bitcoin_Cash".to_string());

    let new_name = BlockChainNames::from_name_string(&string_name).unwrap();
    assert_eq!(new_name, BlockChainNames::BitcoinCash);
}

#[test]
fn test_serde_blockchain_names_eth() {
    let name = BlockChainNames::EthereumClassic;
    let string_name = name.name_string();
    assert_eq!(string_name, "Ethereum_Classic".to_string());

    let new_name = BlockChainNames::from_name_string(&string_name).unwrap();
    assert_eq!(new_name, BlockChainNames::EthereumClassic);
}

// The name is lowercased before the key lookup, in any letter case.
#[test]
fn new_from_string_is_case_insensitive() {
    let shouting = BlockChain::new_from_string("ETHEREUM".to_string()).unwrap();
    assert_eq!(shouting.key(), "ethereum");
    assert_eq!(shouting.decimal_places(), 18);

    let underscored = BlockChain::new_from_string("Bitcoin_Cash".to_string()).unwrap();
    assert_eq!(underscored.short_description(), "BCH");
    assert_eq!(underscored.key(), "bitcoin-cash");
}

#[test]
fn catalog_covers_every_chain() {
    let dash = BlockChain::new(BlockChainNames::Dash);
    assert_eq!(dash.name(), "Dash");
    assert_eq!(dash.short_description(), "DASH");
    let doge = BlockChain::new_from_string("dogecoin".to_string()).unwrap();
    assert_eq!(doge.short_description(), "DOGE");
    let lite = BlockChain::new_from_string("Litecoin".to_string()).unwrap();
    assert_eq!(lite.decimal_places(), 8);
    let etc = BlockChain::new_from_string("ethereum_classic".to_string()).unwrap();
    assert_eq!(etc.short_description(), "ETC");
    assert_eq!(etc.decimal_places(), 18);
}

#[test]
fn unknown_names_are_lookup_errors() {
    assert!(BlockChain::new_from_string("monero".to_string()).is_err());
    assert!(BlockChain::new_from_string("".to_string()).is_err());
    assert!(BlockChainNames::from_name_string("bitcoin").is_none());
}
