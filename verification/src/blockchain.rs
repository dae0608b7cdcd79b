//! Chain-wide statistics and the static blockchain catalog.

use vstd::prelude::*;
use crate::json;
use crate::json::{FormatError, JsonV, JsonValue};
use crate::text;

verus! {

/// The kind of window a [`ChainStats`] record covers: a rolling
/// `Default` window whose date range is expected to end at "now" on
/// each recomputation, or a frozen `Custom` historical window that must
/// never be advanced.  The distinction is a contract on the caller —
/// the record only stores the tag.
#[derive(Debug, Clone, Copy, PartialEq, Eq, Structural)]
pub enum BlockChainStatType {
    Default,
    Custom,
}

/// The text form of a stat-type tag.
pub open spec fn stat_type_string(t: BlockChainStatType) -> Seq<char> {
    match t {
        BlockChainStatType::Default => "Default"@,
        BlockChainStatType::Custom => "Custom"@,
    }
}

impl BlockChainStatType {
    /// The display text of the tag.
    pub fn name_string(&self) -> (r: String)
        ensures
            r@ == stat_type_string(*self),
    {
        match self {
            BlockChainStatType::Default => "Default".to_owned(),
            BlockChainStatType::Custom => "Custom".to_owned(),
        }
    }
}

impl Default for BlockChainStatType {
    fn default() -> (r: Self)
        ensures
            r == BlockChainStatType::Default,
    {
        BlockChainStatType::Default
    }
}

/// The chains this catalog knows.
#[derive(Debug, Clone, Copy, PartialEq, Eq, Structural)]
pub enum BlockChainNames {
    Bitcoin,
    BitcoinCash,
    Dogecoin,
    Litecoin,
    Dash,
    Ethereum,
    EthereumClassic,
}

/// The interchange text of a chain name, with `_` joining the words.
pub open spec fn names_string(n: BlockChainNames) -> Seq<char> {
    match n {
        BlockChainNames::Bitcoin => "Bitcoin"@,
        BlockChainNames::BitcoinCash => "Bitcoin_Cash"@,
        BlockChainNames::Dogecoin => "Dogecoin"@,
        BlockChainNames::Litecoin => "Litecoin"@,
        BlockChainNames::Dash => "Dash"@,
        BlockChainNames::Ethereum => "Ethereum"@,
        BlockChainNames::EthereumClassic => "Ethereum_Classic"@,
    }
}

/// The chain a name's interchange text denotes, if any.
pub open spec fn spec_name_of(s: Seq<char>) -> Option<BlockChainNames> {
    if s == "Bitcoin"@ {
        Some(BlockChainNames::Bitcoin)
    } else if s == "Bitcoin_Cash"@ {
        Some(BlockChainNames::BitcoinCash)
    } else if s == "Dogecoin"@ {
        Some(BlockChainNames::Dogecoin)
    } else if s == "Litecoin"@ {
        Some(BlockChainNames::Litecoin)
    } else if s == "Dash"@ {
        Some(BlockChainNames::Dash)
    } else if s == "Ethereum"@ {
        Some(BlockChainNames::Ethereum)
    } else if s == "Ethereum_Classic"@ {
        Some(BlockChainNames::EthereumClassic)
    } else {
        None
    }
}

impl BlockChainNames {
    /// The interchange text of this name.
    pub fn name_string(&self) -> (r: String)
        ensures
            r@ == names_string(*self),
    {
        match self {
            BlockChainNames::Bitcoin => "Bitcoin".to_owned(),
            BlockChainNames::BitcoinCash => "Bitcoin_Cash".to_owned(),
            BlockChainNames::Dogecoin => "Dogecoin".to_owned(),
            BlockChainNames::Litecoin => "Litecoin".to_owned(),
            BlockChainNames::Dash => "Dash".to_owned(),
            BlockChainNames::Ethereum => "Ethereum".to_owned(),
            BlockChainNames::EthereumClassic => "Ethereum_Classic".to_owned(),
        }
    }

    /// The name whose interchange text is `s`, or `None` when `s`
    /// matches no chain of the catalog.
    pub fn from_name_string(s: &str) -> (r: Option<BlockChainNames>)
        ensures
            r == spec_name_of(s@),
    {
        if text::str_eq(s, "Bitcoin") {
            Some(BlockChainNames::Bitcoin)
        } else if text::str_eq(s, "Bitcoin_Cash") {
            Some(BlockChainNames::BitcoinCash)
        } else if text::str_eq(s, "Dogecoin") {
            Some(BlockChainNames::Dogecoin)
        } else if text::str_eq(s, "Litecoin") {
            Some(BlockChainNames::Litecoin)
        } else if text::str_eq(s, "Dash") {
            Some(BlockChainNames::Dash)
        } else if text::str_eq(s, "Ethereum") {
            Some(BlockChainNames::Ethereum)
        } else if text::str_eq(s, "Ethereum_Classic") {
            Some(BlockChainNames::EthereumClassic)
        } else {
            None
        }
    }
}

/// Mathematical model of a [`ChainStats`] record.
#[verifier::ext_equal]
pub ghost struct ChainStatsView {
    pub id: Option<int>,
    pub blockchain_name: Seq<char>,
    pub short_description: Seq<char>,
    pub time_offset: int,
    pub total_coin_issuance: int,
    pub total_active_coins: int,
    pub total_unknown_supply: Option<int>,
    pub block_height: int,
    pub block_range_start: int,
    pub block_range_end: int,
    pub date_range_start: int,
    pub date_range_end: int,
    pub active_addresses: int,
    pub last_updated: int,
    pub stat_type: BlockChainStatType,
}

/// A chain-wide statistics snapshot.  Coin quantities are in base
/// units; `total_unknown_supply` is `None` for chains where unknown
/// supply is not tracked.
#[derive(Debug)]
pub struct ChainStats {
    id: Option<i64>,
    blockchain_name: String,
    short_description: String,
    time_offset: i64,
    total_coin_issuance: i64,
    total_active_coins: i64,
    total_unknown_supply: Option<i64>,
    block_height: i64,
    block_range_start: i64,
    block_range_end: i64,
    date_range_start: i64,
    date_range_end: i64,
    active_addresses: i64,
    last_updated: i64,
    stat_type: BlockChainStatType,
}

impl View for ChainStats {
    type V = ChainStatsView;

    closed spec fn view(&self) -> ChainStatsView {
        ChainStatsView {
            id: match self.id {
                Some(v) => Some(v as int),
                None => None,
            },
            blockchain_name: self.blockchain_name@,
            short_description: self.short_description@,
            time_offset: self.time_offset as int,
            total_coin_issuance: self.total_coin_issuance as int,
            total_active_coins: self.total_active_coins as int,
            total_unknown_supply: match self.total_unknown_supply {
                Some(v) => Some(v as int),
                None => None,
            },
            block_height: self.block_height as int,
            block_range_start: self.block_range_start as int,
            block_range_end: self.block_range_end as int,
            date_range_start: self.date_range_start as int,
            date_range_end: self.date_range_end as int,
            active_addresses: self.active_addresses as int,
            last_updated: self.last_updated as int,
            stat_type: self.stat_type,
        }
    }
}

/// The block reward the emission schedule starts from, in base units:
/// fifty coins of eight decimal places.
pub const INITIAL_REWARD_BASE_UNITS: u64 = 5_000_000_000;

/// How many blocks an emission epoch lasts before the reward halves.
pub const HALVING_INTERVAL_BLOCKS: u64 = 210_000;

/// Cumulative emission of `height` blocks when the current epoch pays
/// `reward` per block: every completed epoch contributes a full
/// `reward * interval` at its own halved rate, the final partial epoch
/// pays for its blocks alone.
pub open spec fn issuance_from(reward: int, height: int) -> int
    decreases height,
{
    if height <= HALVING_INTERVAL_BLOCKS as int {
        reward * height
    } else {
        reward * (HALVING_INTERVAL_BLOCKS as int) + issuance_from(
            reward / 2,
            height - HALVING_INTERVAL_BLOCKS as int,
        )
    }
}

/// Total coin issuance after `height` blocks under the halving
/// schedule, in base units.
pub open spec fn total_issuance(height: int) -> int {
    issuance_from(INITIAL_REWARD_BASE_UNITS as int, height)
}

impl ChainStats {
    /// An empty snapshot for the given chain: no id yet, every counter
    /// zero, unknown supply tracked at zero, a rolling window tag.
    pub fn new(blockchain_name: BlockChainNames, short_description: String, time_offset: i64) -> (r:
        Self)
        ensures
            r@ == (ChainStatsView {
                id: None,
                blockchain_name: names_string(blockchain_name),
                short_description: short_description@,
                time_offset: time_offset as int,
                total_coin_issuance: 0,
                total_active_coins: 0,
                total_unknown_supply: Some(0),
                block_height: 0,
                block_range_start: 0,
                block_range_end: 0,
                date_range_start: 0,
                date_range_end: 0,
                active_addresses: 0,
                last_updated: 0,
                stat_type: BlockChainStatType::Default,
            }),
    {
        let ghost n = blockchain_name;
        let r = ChainStats {
            id: None,
            blockchain_name: blockchain_name.name_string(),
            short_description,
            time_offset,
            total_coin_issuance: 0,
            total_active_coins: 0,
            total_unknown_supply: Some(0),
            block_height: 0,
            block_range_start: 0,
            block_range_end: 0,
            date_range_start: 0,
            date_range_end: 0,
            active_addresses: 0,
            last_updated: 0,
            stat_type: BlockChainStatType::Default,
        };
        proof {
            assert(r@ =~= (ChainStatsView {
                id: None,
                blockchain_name: names_string(n),
                short_description: r@.short_description,
                time_offset: r@.time_offset,
                total_coin_issuance: 0,
                total_active_coins: 0,
                total_unknown_supply: Some(0),
                block_height: 0,
                block_range_start: 0,
                block_range_end: 0,
                date_range_start: 0,
                date_range_end: 0,
                active_addresses: 0,
                last_updated: 0,
                stat_type: BlockChainStatType::Default,
            }));
        }
        r
    }

    pub fn block_range_start(&self) -> (r: i64)
        ensures
            r as int == self@.block_range_start,
    {
        self.block_range_start
    }

    pub fn block_range_end(&self) -> (r: i64)
        ensures
            r as int == self@.block_range_end,
    {
        self.block_range_end
    }

    pub fn date_range_start(&self) -> (r: i64)
        ensures
            r as int == self@.date_range_start,
    {
        self.date_range_start
    }

    pub fn date_range_end(&self) -> (r: i64)
        ensures
            r as int == self@.date_range_end,
    {
        self.date_range_end
    }

    pub fn id(&self) -> (r: Option<i64>)
        ensures
            self@.id == match r {
                Some(v) => Some(v as int),
                None => None::<int>,
            },
    {
        self.id
    }

    pub fn time_offset(&self) -> (r: i64)
        ensures
            r as int == self@.time_offset,
    {
        self.time_offset
    }

    pub fn last_updated(&self) -> (r: i64)
        ensures
            r as int == self@.last_updated,
    {
        self.last_updated
    }

    pub fn active_addresses(&self) -> (r: i64)
        ensures
            r as int == self@.active_addresses,
    {
        self.active_addresses
    }

    pub fn block_height(&self) -> (r: i64)
        ensures
            r as int == self@.block_height,
    {
        self.block_height
    }

    pub fn total_coin_issuance(&self) -> (r: i64)
        ensures
            r as int == self@.total_coin_issuance,
    {
        self.total_coin_issuance
    }

    pub fn blockchain_name(&self) -> (r: String)
        ensures
            r@ == self@.blockchain_name,
    {
        self.blockchain_name.clone()
    }

    pub fn total_active_coins(&self) -> (r: i64)
        ensures
            r as int == self@.total_active_coins,
    {
        self.total_active_coins
    }

    pub fn total_unknown_supply(&self) -> (r: Option<i64>)
        ensures
            self@.total_unknown_supply == match r {
                Some(v) => Some(v as int),
                None => None::<int>,
            },
    {
        self.total_unknown_supply
    }

    pub fn short_description(&self) -> (r: String)
        ensures
            r@ == self@.short_description,
    {
        self.short_description.clone()
    }

    pub fn stat_type(&self) -> (r: BlockChainStatType)
        ensures
            r == self@.stat_type,
    {
        self.stat_type
    }

    pub fn update_last_updated(&mut self, time: i64)
        ensures
            final(self)@ == (ChainStatsView { last_updated: time as int, ..old(self)@ }),
    {
        self.last_updated = time;
    }

    /// Sets the covered date range.  No order between the bounds is
    /// enforced — keeping `start <= end` is the caller's duty.
    pub fn update_date_range(&mut self, start_time: i64, end_time: i64) -> (r: &mut Self)
        ensures
            (*r)@ == (ChainStatsView {
                date_range_start: start_time as int,
                date_range_end: end_time as int,
                ..old(self)@
            }),
            *final(self) == *final(r),
    {
        self.date_range_start = start_time;
        self.date_range_end = end_time;
        self
    }

    /// Sets the covered block range.  No order between the bounds is
    /// enforced — keeping `start <= end` is the caller's duty.
    pub fn update_block_range(&mut self, start_block: i64, end_block: i64) -> (r: &mut Self)
        ensures
            (*r)@ == (ChainStatsView {
                block_range_start: start_block as int,
                block_range_end: end_block as int,
                ..old(self)@
            }),
            *final(self) == *final(r),
    {
        self.block_range_start = start_block;
        self.block_range_end = end_block;
        self
    }

    pub fn update_active_addresses(&mut self, total: i64) -> (r: &mut Self)
        ensures
            (*r)@ == (ChainStatsView { active_addresses: total as int, ..old(self)@ }),
            *final(self) == *final(r),
    {
        self.active_addresses = total;
        self
    }

    pub fn update_block_height(&mut self, height: i64) -> (r: &mut Self)
        ensures
            (*r)@ == (ChainStatsView { block_height: height as int, ..old(self)@ }),
            *final(self) == *final(r),
    {
        self.block_height = height;
        self
    }

    /// Recomputes the total coin issuance from the block height by
    /// whole emission epochs — a closed-form walk of the halving
    /// schedule, not a per-block loop over history.
    pub fn update_total_coin_issuance_by_block(&mut self, block_height: i64)
        requires
            block_height >= 0,
        ensures
            final(self)@ == (ChainStatsView {
                total_coin_issuance: total_issuance(block_height as int),
                ..old(self)@
            }),
    {
        let mut reward: u64 = INITIAL_REWARD_BASE_UNITS;
        let mut total_mined: u64 = 0;
        let mut remaining: i64 = block_height;

        while remaining > HALVING_INTERVAL_BLOCKS as i64
            invariant
                0 <= remaining,
                total_mined as int + issuance_from(reward as int, remaining as int)
                    == total_issuance(block_height as int),
                total_mined + 2 * reward * HALVING_INTERVAL_BLOCKS <= 2 * INITIAL_REWARD_BASE_UNITS
                    * HALVING_INTERVAL_BLOCKS,
            decreases remaining,
        {
            proof {
                assert(2 * ((reward / 2) as int) * (HALVING_INTERVAL_BLOCKS as int) <= (
                reward as int) * (HALVING_INTERVAL_BLOCKS as int)) by (nonlinear_arith);
            }
            total_mined = total_mined + reward * HALVING_INTERVAL_BLOCKS;
            reward = reward / 2;
            remaining = remaining - HALVING_INTERVAL_BLOCKS as i64;
        }

        proof {
            assert((reward as int) * (remaining as int) <= (reward as int) * (
            HALVING_INTERVAL_BLOCKS as int)) by (nonlinear_arith)
                requires
                    0 <= remaining <= HALVING_INTERVAL_BLOCKS as int,
                    reward >= 0,
            ;
            assert((reward as int) * (remaining as int) >= 0) by (nonlinear_arith)
                requires
                    remaining >= 0,
                    reward >= 0,
            ;
        }
        total_mined = total_mined + reward * (remaining as u64);

        self.total_coin_issuance = total_mined as i64;
        proof {
            assert(final(self)@ =~= (ChainStatsView {
                total_coin_issuance: total_issuance(block_height as int),
                ..old(self)@
            }));
        }
    }

    pub fn update_total_coin_issuance(&mut self, amount: i64)
        ensures
            final(self)@ == (ChainStatsView { total_coin_issuance: amount as int, ..old(self)@ }),
    {
        self.total_coin_issuance = amount;
    }

    pub fn update_total_active_coins(&mut self, amount: i64)
        ensures
            final(self)@ == (ChainStatsView { total_active_coins: amount as int, ..old(self)@ }),
    {
        self.total_active_coins = amount;
    }

    pub fn update_total_unknown_supply(&mut self, amount: Option<i64>)
        ensures
            final(self)@ == (ChainStatsView {
                total_unknown_supply: match amount {
                    Some(v) => Some(v as int),
                    None => None,
                },
                ..old(self)@
            }),
    {
        self.total_unknown_supply = amount;
    }
}

/// The failure of a catalog lookup: the given name or key denotes no
/// chain this catalog knows.
#[derive(Debug, Clone, Copy, PartialEq, Eq, Structural)]
pub struct LookupError;

/// Mathematical model of a [`BlockChain`] catalog entry.
#[verifier::ext_equal]
pub ghost struct BlockChainView {
    pub name: Seq<char>,
    pub short_description: Seq<char>,
    pub key: Seq<char>,
    pub decimal_places: int,
}

/// A static catalog entry: display metadata of one chain, immutable
/// and purely descriptive.
#[derive(Debug)]
pub struct BlockChain {
    name: String,
    short_description: String,
    key: String,
    decimal_places: u8,
}

impl View for BlockChain {
    type V = BlockChainView;

    closed spec fn view(&self) -> BlockChainView {
        BlockChainView {
            name: self.name@,
            short_description: self.short_description@,
            key: self.key@,
            decimal_places: self.decimal_places as int,
        }
    }
}

/// The catalog's metadata of a chain: display name, ticker, lowercase
/// key, and decimal precision — eight places for the UTXO-style chains,
/// eighteen for the account-style ones.
pub open spec fn chain_info(n: BlockChainNames) -> BlockChainView {
    match n {
        BlockChainNames::Bitcoin => BlockChainView {
            name: "Bitcoin"@,
            short_description: "BTC"@,
            key: "bitcoin"@,
            decimal_places: 8,
        },
        BlockChainNames::BitcoinCash => BlockChainView {
            name: "Bitcoin Cash"@,
            short_description: "BCH"@,
            key: "bitcoin-cash"@,
            decimal_places: 8,
        },
        BlockChainNames::Dogecoin => BlockChainView {
            name: "Dogecoin"@,
            short_description: "DOGE"@,
            key: "dogecoin"@,
            decimal_places: 8,
        },
        BlockChainNames::Litecoin => BlockChainView {
            name: "Litecoin"@,
            short_description: "LTC"@,
            key: "litecoin"@,
            decimal_places: 8,
        },
        BlockChainNames::Dash => BlockChainView {
            name: "Dash"@,
            short_description: "DASH"@,
            key: "dash"@,
            decimal_places: 8,
        },
        BlockChainNames::Ethereum => BlockChainView {
            name: "Ethereum"@,
            short_description: "ETH"@,
            key: "ethereum"@,
            decimal_places: 18,
        },
        BlockChainNames::EthereumClassic => BlockChainView {
            name: "Ethereum Classic"@,
            short_description: "ETC"@,
            key: "ethereum-classic"@,
            decimal_places: 18,
        },
    }
}

/// The chain a lowercase key denotes, if any; both the `-` and the `_`
/// spelling of the two-word keys are accepted.
pub open spec fn chain_of_key(k: Seq<char>) -> Option<BlockChainNames> {
    if k == "bitcoin"@ {
        Some(BlockChainNames::Bitcoin)
    } else if k == "bitcoin-cash"@ || k == "bitcoin_cash"@ {
        Some(BlockChainNames::BitcoinCash)
    } else if k == "dogecoin"@ {
        Some(BlockChainNames::Dogecoin)
    } else if k == "litecoin"@ {
        Some(BlockChainNames::Litecoin)
    } else if k == "dash"@ {
        Some(BlockChainNames::Dash)
    } else if k == "ethereum"@ {
        Some(BlockChainNames::Ethereum)
    } else if k == "ethereum-classic"@ || k == "ethereum_classic"@ {
        Some(BlockChainNames::EthereumClassic)
    } else {
        None
    }
}

/// The catalog entry a lowercase key denotes, if any.
pub open spec fn chain_view_of_key(k: Seq<char>) -> Option<BlockChainView> {
    match chain_of_key(k) {
        Some(n) => Some(chain_info(n)),
        None => None,
    }
}

/// What [`str::to_lowercase`] returns; the result is a function of the
/// characters alone.
pub uninterp spec fn lower_of(s: Seq<char>) -> Seq<char>;

/// Relies on `str::to_lowercase`: Unicode lowercasing of a string,
/// depending on its characters alone.
#[verifier::external_body]
fn lowercase(s: &str) -> (r: String)
    ensures
        r@ == lower_of(s@),
{
    s.to_lowercase()
}

impl BlockChain {
    /// The catalog entry of a chain name.
    pub fn new(name: BlockChainNames) -> (r: Self)
        ensures
            r@ == chain_info(name),
    {
        let r = match name {
            BlockChainNames::Bitcoin => BlockChain {
                name: "Bitcoin".to_owned(),
                short_description: "BTC".to_owned(),
                key: "bitcoin".to_owned(),
                decimal_places: 8,
            },
            BlockChainNames::BitcoinCash => BlockChain {
                name: "Bitcoin Cash".to_owned(),
                short_description: "BCH".to_owned(),
                key: "bitcoin-cash".to_owned(),
                decimal_places: 8,
            },
            BlockChainNames::Dogecoin => BlockChain {
                name: "Dogecoin".to_owned(),
                short_description: "DOGE".to_owned(),
                key: "dogecoin".to_owned(),
                decimal_places: 8,
            },
            BlockChainNames::Litecoin => BlockChain {
                name: "Litecoin".to_owned(),
                short_description: "LTC".to_owned(),
                key: "litecoin".to_owned(),
                decimal_places: 8,
            },
            BlockChainNames::Dash => BlockChain {
                name: "Dash".to_owned(),
                short_description: "DASH".to_owned(),
                key: "dash".to_owned(),
                decimal_places: 8,
            },
            BlockChainNames::Ethereum => BlockChain {
                name: "Ethereum".to_owned(),
                short_description: "ETH".to_owned(),
                key: "ethereum".to_owned(),
                decimal_places: 18,
            },
            BlockChainNames::EthereumClassic => BlockChain {
                name: "Ethereum Classic".to_owned(),
                short_description: "ETC".to_owned(),
                key: "ethereum-classic".to_owned(),
                decimal_places: 18,
            },
        };
        proof {
            assert(r@ =~= chain_info(name));
        }
        r
    }

    /// The catalog entry of a key already in lowercase, or
    /// [`LookupError`] when the catalog knows no such key.
    pub fn new_from_key(key: &str) -> (r: Result<BlockChain, LookupError>)
        ensures
            match r {
                Ok(c) => chain_view_of_key(key@) == Some(c@),
                Err(_) => chain_view_of_key(key@) is None,
            },
    {
        if text::str_eq(key, "bitcoin") {
            Ok(BlockChain::new(BlockChainNames::Bitcoin))
        } else if text::str_eq(key, "bitcoin-cash") || text::str_eq(key, "bitcoin_cash") {
            Ok(BlockChain::new(BlockChainNames::BitcoinCash))
        } else if text::str_eq(key, "dogecoin") {
            Ok(BlockChain::new(BlockChainNames::Dogecoin))
        } else if text::str_eq(key, "litecoin") {
            Ok(BlockChain::new(BlockChainNames::Litecoin))
        } else if text::str_eq(key, "dash") {
            Ok(BlockChain::new(BlockChainNames::Dash))
        } else if text::str_eq(key, "ethereum") {
            Ok(BlockChain::new(BlockChainNames::Ethereum))
        } else if text::str_eq(key, "ethereum-classic") || text::str_eq(key, "ethereum_classic") {
            Ok(BlockChain::new(BlockChainNames::EthereumClassic))
        } else {
            Err(LookupError)
        }
    }

    /// The catalog entry of a name in any letter case: the name is
    /// lowercased, then looked up as a key.  `Err` exactly when the
    /// lowercased name is no key of the catalog.
    pub fn new_from_string(name: String) -> (r: Result<BlockChain, LookupError>)
        ensures
            match r {
                Ok(c) => chain_view_of_key(lower_of(name@)) == Some(c@),
                Err(_) => chain_view_of_key(lower_of(name@)) is None,
            },
    {
        let lowered = lowercase(name.as_str());
        BlockChain::new_from_key(lowered.as_str())
    }

    pub fn name(&self) -> (r: &String)
        ensures
            r@ == self@.name,
    {
        &self.name
    }

    pub fn short_description(&self) -> (r: &String)
        ensures
            r@ == self@.short_description,
    {
        &self.short_description
    }

    pub fn key(&self) -> (r: &String)
        ensures
            r@ == self@.key,
    {
        &self.key
    }

    pub fn decimal_places(&self) -> (r: u8)
        ensures
            r as int == self@.decimal_places,
    {
        self.decimal_places
    }
}


/// The interchange record of a statistics snapshot: `id` and
/// `total_unknown_supply` are dropped from the record entirely when
/// absent — never emitted as null — while every other field always
/// appears, in canonical order.
pub open spec fn chain_stats_fields(c: ChainStatsView) -> Seq<(Seq<char>, JsonV)> {
    (match c.id {
        Some(n) => seq![("id"@, JsonV::Int(n))],
        None => Seq::<(Seq<char>, JsonV)>::empty(),
    }) + seq![
        ("blockchain_name"@, JsonV::Str(c.blockchain_name)),
        ("short_description"@, JsonV::Str(c.short_description)),
        ("time_offset"@, JsonV::Int(c.time_offset)),
        ("total_coin_issuance"@, JsonV::Int(c.total_coin_issuance)),
        ("total_active_coins"@, JsonV::Int(c.total_active_coins)),
    ] + (match c.total_unknown_supply {
        Some(n) => seq![("total_unknown_supply"@, JsonV::Int(n))],
        None => Seq::<(Seq<char>, JsonV)>::empty(),
    }) + seq![
        ("block_height"@, JsonV::Int(c.block_height)),
        ("block_range_start"@, JsonV::Int(c.block_range_start)),
        ("block_range_end"@, JsonV::Int(c.block_range_end)),
        ("date_range_start"@, JsonV::Int(c.date_range_start)),
        ("date_range_end"@, JsonV::Int(c.date_range_end)),
        ("active_addresses"@, JsonV::Int(c.active_addresses)),
        ("last_updated"@, JsonV::Int(c.last_updated)),
        ("stat_type"@, JsonV::Str(stat_type_string(c.stat_type))),
    ]
}

/// The interchange record of a statistics snapshot.
pub open spec fn chain_stats_record(c: ChainStatsView) -> JsonV {
    JsonV::Object(chain_stats_fields(c))
}

/// The snapshot a record denotes: `id` lenient — native integer or
/// decimal-digit string — and `None` when absent; the numeric counters
/// default to zero when absent; `total_unknown_supply` reads absent
/// and null as "not tracked"; `stat_type` defaults to the rolling
/// window tag; the two text fields are required; unknown fields are
/// ignored.
pub open spec fn chain_stats_of_record(v: JsonV) -> Option<ChainStatsView> {
    match v {
        JsonV::Object(f) => {
            let id = match json::spec_lookup(f, "id"@) {
                None => Some(None::<int>),
                Some(jv) => match json::spec_json_i64(jv) {
                    Some(n) => Some(Some(n)),
                    None => None,
                },
            };
            let unknown = match json::spec_lookup(f, "total_unknown_supply"@) {
                None => Some(None::<int>),
                Some(JsonV::Null) => Some(None::<int>),
                Some(JsonV::Int(n)) => Some(Some(n)),
                Some(_) => None,
            };
            let stat_type = match json::spec_lookup(f, "stat_type"@) {
                None => Some(BlockChainStatType::Default),
                Some(JsonV::Str(s)) => if s == "Default"@ {
                    Some(BlockChainStatType::Default)
                } else if s == "Custom"@ {
                    Some(BlockChainStatType::Custom)
                } else {
                    None
                },
                Some(_) => None,
            };
            if id is Some && unknown is Some && stat_type is Some && json::spec_get_str(
                f,
                "blockchain_name"@,
            ) is Some && json::spec_get_str(f, "short_description"@) is Some
                && json::spec_get_int_or_zero(f, "time_offset"@) is Some
                && json::spec_get_int_or_zero(f, "total_coin_issuance"@) is Some
                && json::spec_get_int_or_zero(f, "total_active_coins"@) is Some
                && json::spec_get_int_or_zero(f, "block_height"@) is Some
                && json::spec_get_int_or_zero(f, "block_range_start"@) is Some
                && json::spec_get_int_or_zero(f, "block_range_end"@) is Some
                && json::spec_get_int_or_zero(f, "date_range_start"@) is Some
                && json::spec_get_int_or_zero(f, "date_range_end"@) is Some
                && json::spec_get_int_or_zero(f, "active_addresses"@) is Some
                && json::spec_get_int_or_zero(f, "last_updated"@) is Some {
                Some(
                    ChainStatsView {
                        id: id->Some_0,
                        blockchain_name: json::spec_get_str(f, "blockchain_name"@)->Some_0,
                        short_description: json::spec_get_str(f, "short_description"@)->Some_0,
                        time_offset: json::spec_get_int_or_zero(f, "time_offset"@)->Some_0,
                        total_coin_issuance: json::spec_get_int_or_zero(
                            f,
                            "total_coin_issuance"@,
                        )->Some_0,
                        total_active_coins: json::spec_get_int_or_zero(
                            f,
                            "total_active_coins"@,
                        )->Some_0,
                        total_unknown_supply: unknown->Some_0,
                        block_height: json::spec_get_int_or_zero(f, "block_height"@)->Some_0,
                        block_range_start: json::spec_get_int_or_zero(
                            f,
                            "block_range_start"@,
                        )->Some_0,
                        block_range_end: json::spec_get_int_or_zero(f, "block_range_end"@)->Some_0,
                        date_range_start: json::spec_get_int_or_zero(
                            f,
                            "date_range_start"@,
                        )->Some_0,
                        date_range_end: json::spec_get_int_or_zero(f, "date_range_end"@)->Some_0,
                        active_addresses: json::spec_get_int_or_zero(
                            f,
                            "active_addresses"@,
                        )->Some_0,
                        last_updated: json::spec_get_int_or_zero(f, "last_updated"@)->Some_0,
                        stat_type: stat_type->Some_0,
                    },
                )
            } else {
                None
            }
        },
        _ => None,
    }
}

/// Whether a snapshot model is realizable: each numeric field fits its
/// machine integer.
pub open spec fn wf_chain_stats(c: ChainStatsView) -> bool {
    &&& match c.id {
        Some(n) => i64::MIN <= n <= i64::MAX,
        None => true,
    }
    &&& match c.total_unknown_supply {
        Some(n) => i64::MIN <= n <= i64::MAX,
        None => true,
    }
    &&& i64::MIN <= c.time_offset <= i64::MAX
    &&& i64::MIN <= c.total_coin_issuance <= i64::MAX
    &&& i64::MIN <= c.total_active_coins <= i64::MAX
    &&& i64::MIN <= c.block_height <= i64::MAX
    &&& i64::MIN <= c.block_range_start <= i64::MAX
    &&& i64::MIN <= c.block_range_end <= i64::MAX
    &&& i64::MIN <= c.date_range_start <= i64::MAX
    &&& i64::MIN <= c.date_range_end <= i64::MAX
    &&& i64::MIN <= c.active_addresses <= i64::MAX
    &&& i64::MIN <= c.last_updated <= i64::MAX
}

/// Law: a snapshot's record deserializes back to the snapshot itself,
/// whether or not the optional fields are present.
#[verifier::rlimit(60)]
pub proof fn lemma_chain_stats_record_round_trip(c: ChainStatsView)
    requires
        wf_chain_stats(c),
    ensures
        chain_stats_of_record(chain_stats_record(c)) == Some(c),
{
    let f = chain_stats_fields(c);
    let head = match c.id {
        Some(n) => seq![("id"@, JsonV::Int(n))],
        None => Seq::<(Seq<char>, JsonV)>::empty(),
    };
    let mid = seq![
        ("blockchain_name"@, JsonV::Str(c.blockchain_name)),
        ("short_description"@, JsonV::Str(c.short_description)),
        ("time_offset"@, JsonV::Int(c.time_offset)),
        ("total_coin_issuance"@, JsonV::Int(c.total_coin_issuance)),
        ("total_active_coins"@, JsonV::Int(c.total_active_coins)),
    ];
    let unk = match c.total_unknown_supply {
        Some(n) => seq![("total_unknown_supply"@, JsonV::Int(n))],
        None => Seq::<(Seq<char>, JsonV)>::empty(),
    };
    let tail = seq![
        ("block_height"@, JsonV::Int(c.block_height)),
        ("block_range_start"@, JsonV::Int(c.block_range_start)),
        ("block_range_end"@, JsonV::Int(c.block_range_end)),
        ("date_range_start"@, JsonV::Int(c.date_range_start)),
        ("date_range_end"@, JsonV::Int(c.date_range_end)),
        ("active_addresses"@, JsonV::Int(c.active_addresses)),
        ("last_updated"@, JsonV::Int(c.last_updated)),
        ("stat_type"@, JsonV::Str(stat_type_string(c.stat_type))),
    ];
    reveal_strlit("id");
    reveal_strlit("blockchain_name");
    reveal_strlit("short_description");
    reveal_strlit("time_offset");
    reveal_strlit("total_coin_issuance");
    reveal_strlit("total_active_coins");
    reveal_strlit("total_unknown_supply");
    reveal_strlit("block_height");
    reveal_strlit("block_range_start");
    reveal_strlit("block_range_end");
    reveal_strlit("date_range_start");
    reveal_strlit("date_range_end");
    reveal_strlit("active_addresses");
    reveal_strlit("last_updated");
    reveal_strlit("stat_type");
    reveal_strlit("Default");
    reveal_strlit("Custom");
    assert("id"@.len() == 2);
    assert("blockchain_name"@.len() == 15);
    assert("short_description"@.len() == 17);
    assert("time_offset"@.len() == 11);
    assert("total_coin_issuance"@.len() == 19);
    assert("total_active_coins"@.len() == 18);
    assert("total_unknown_supply"@.len() == 20);
    assert("block_height"@.len() == 12);
    assert("block_range_start"@.len() == 17);
    assert("block_range_end"@.len() == 15);
    assert("date_range_start"@.len() == 16);
    assert("date_range_end"@.len() == 14);
    assert("active_addresses"@.len() == 16);
    assert("last_updated"@.len() == 12);
    assert("stat_type"@.len() == 9);
    assert("Default"@.len() == 7);
    assert("Custom"@.len() == 6);
    assert("active_addresses"@[0] == 'a');
    assert("block_height"@[0] == 'b');
    assert("block_range_end"@[5] == '_');
    assert("block_range_start"@[0] == 'b');
    assert("blockchain_name"@[5] == 'c');
    assert("date_range_start"@[0] == 'd');
    assert("last_updated"@[0] == 'l');
    assert("short_description"@[0] == 's');
    if c.id is Some {
        assert(head.len() == 1 && head[0] == ("id"@, JsonV::Int(c.id->Some_0)));
        assert(head.drop_first() =~= Seq::<(Seq<char>, JsonV)>::empty());
        assert(json::spec_lookup(head, "id"@) == Some(JsonV::Int(c.id->Some_0)));
        assert(json::spec_lookup(head, "blockchain_name"@) == json::spec_lookup(head.drop_first(), "blockchain_name"@));
        assert(json::spec_lookup(head, "blockchain_name"@) is None);
        assert(json::spec_lookup(head, "short_description"@) == json::spec_lookup(head.drop_first(), "short_description"@));
        assert(json::spec_lookup(head, "short_description"@) is None);
        assert(json::spec_lookup(head, "time_offset"@) == json::spec_lookup(head.drop_first(), "time_offset"@));
        assert(json::spec_lookup(head, "time_offset"@) is None);
        assert(json::spec_lookup(head, "total_coin_issuance"@) == json::spec_lookup(head.drop_first(), "total_coin_issuance"@));
        assert(json::spec_lookup(head, "total_coin_issuance"@) is None);
        assert(json::spec_lookup(head, "total_active_coins"@) == json::spec_lookup(head.drop_first(), "total_active_coins"@));
        assert(json::spec_lookup(head, "total_active_coins"@) is None);
        assert(json::spec_lookup(head, "total_unknown_supply"@) == json::spec_lookup(head.drop_first(), "total_unknown_supply"@));
        assert(json::spec_lookup(head, "total_unknown_supply"@) is None);
        assert(json::spec_lookup(head, "block_height"@) == json::spec_lookup(head.drop_first(), "block_height"@));
        assert(json::spec_lookup(head, "block_height"@) is None);
        assert(json::spec_lookup(head, "block_range_start"@) == json::spec_lookup(head.drop_first(), "block_range_start"@));
        assert(json::spec_lookup(head, "block_range_start"@) is None);
        assert(json::spec_lookup(head, "block_range_end"@) == json::spec_lookup(head.drop_first(), "block_range_end"@));
        assert(json::spec_lookup(head, "block_range_end"@) is None);
        assert(json::spec_lookup(head, "date_range_start"@) == json::spec_lookup(head.drop_first(), "date_range_start"@));
        assert(json::spec_lookup(head, "date_range_start"@) is None);
        assert(json::spec_lookup(head, "date_range_end"@) == json::spec_lookup(head.drop_first(), "date_range_end"@));
        assert(json::spec_lookup(head, "date_range_end"@) is None);
        assert(json::spec_lookup(head, "active_addresses"@) == json::spec_lookup(head.drop_first(), "active_addresses"@));
        assert(json::spec_lookup(head, "active_addresses"@) is None);
        assert(json::spec_lookup(head, "last_updated"@) == json::spec_lookup(head.drop_first(), "last_updated"@));
        assert(json::spec_lookup(head, "last_updated"@) is None);
        assert(json::spec_lookup(head, "stat_type"@) == json::spec_lookup(head.drop_first(), "stat_type"@));
        assert(json::spec_lookup(head, "stat_type"@) is None);
    } else {
        assert(head.len() == 0);
        assert(json::spec_lookup(head, "id"@) is None);
        assert(json::spec_lookup(head, "blockchain_name"@) is None);
        assert(json::spec_lookup(head, "short_description"@) is None);
        assert(json::spec_lookup(head, "time_offset"@) is None);
        assert(json::spec_lookup(head, "total_coin_issuance"@) is None);
        assert(json::spec_lookup(head, "total_active_coins"@) is None);
        assert(json::spec_lookup(head, "total_unknown_supply"@) is None);
        assert(json::spec_lookup(head, "block_height"@) is None);
        assert(json::spec_lookup(head, "block_range_start"@) is None);
        assert(json::spec_lookup(head, "block_range_end"@) is None);
        assert(json::spec_lookup(head, "date_range_start"@) is None);
        assert(json::spec_lookup(head, "date_range_end"@) is None);
        assert(json::spec_lookup(head, "active_addresses"@) is None);
        assert(json::spec_lookup(head, "last_updated"@) is None);
        assert(json::spec_lookup(head, "stat_type"@) is None);
    }
    if c.total_unknown_supply is Some {
        assert(unk.len() == 1 && unk[0] == ("total_unknown_supply"@, JsonV::Int(c.total_unknown_supply->Some_0)));
        assert(unk.drop_first() =~= Seq::<(Seq<char>, JsonV)>::empty());
        assert(json::spec_lookup(unk, "total_unknown_supply"@) == Some(JsonV::Int(c.total_unknown_supply->Some_0)));
        assert(json::spec_lookup(unk, "id"@) == json::spec_lookup(unk.drop_first(), "id"@));
        assert(json::spec_lookup(unk, "id"@) is None);
        assert(json::spec_lookup(unk, "block_height"@) == json::spec_lookup(unk.drop_first(), "block_height"@));
        assert(json::spec_lookup(unk, "block_height"@) is None);
        assert(json::spec_lookup(unk, "block_range_start"@) == json::spec_lookup(unk.drop_first(), "block_range_start"@));
        assert(json::spec_lookup(unk, "block_range_start"@) is None);
        assert(json::spec_lookup(unk, "block_range_end"@) == json::spec_lookup(unk.drop_first(), "block_range_end"@));
        assert(json::spec_lookup(unk, "block_range_end"@) is None);
        assert(json::spec_lookup(unk, "date_range_start"@) == json::spec_lookup(unk.drop_first(), "date_range_start"@));
        assert(json::spec_lookup(unk, "date_range_start"@) is None);
        assert(json::spec_lookup(unk, "date_range_end"@) == json::spec_lookup(unk.drop_first(), "date_range_end"@));
        assert(json::spec_lookup(unk, "date_range_end"@) is None);
        assert(json::spec_lookup(unk, "active_addresses"@) == json::spec_lookup(unk.drop_first(), "active_addresses"@));
        assert(json::spec_lookup(unk, "active_addresses"@) is None);
        assert(json::spec_lookup(unk, "last_updated"@) == json::spec_lookup(unk.drop_first(), "last_updated"@));
        assert(json::spec_lookup(unk, "last_updated"@) is None);
        assert(json::spec_lookup(unk, "stat_type"@) == json::spec_lookup(unk.drop_first(), "stat_type"@));
        assert(json::spec_lookup(unk, "stat_type"@) is None);
    } else {
        assert(unk.len() == 0);
        assert(json::spec_lookup(unk, "id"@) is None);
        assert(json::spec_lookup(unk, "block_height"@) is None);
        assert(json::spec_lookup(unk, "block_range_start"@) is None);
        assert(json::spec_lookup(unk, "block_range_end"@) is None);
        assert(json::spec_lookup(unk, "date_range_start"@) is None);
        assert(json::spec_lookup(unk, "date_range_end"@) is None);
        assert(json::spec_lookup(unk, "active_addresses"@) is None);
        assert(json::spec_lookup(unk, "last_updated"@) is None);
        assert(json::spec_lookup(unk, "stat_type"@) is None);
        assert(json::spec_lookup(unk, "total_unknown_supply"@) is None);
    }
    let mid_1 = mid.drop_first();
    let mid_2 = mid_1.drop_first();
    let mid_3 = mid_2.drop_first();
    let mid_4 = mid_3.drop_first();
    assert(mid.len() == 5);
    assert(mid_1.len() == 4 && mid_1[0] == mid[1] && mid_1[1] == mid[2] && mid_1[2] == mid[3] && mid_1[3] == mid[4]);
    assert(mid_2.len() == 3 && mid_2[0] == mid[2] && mid_2[1] == mid[3] && mid_2[2] == mid[4]);
    assert(mid_3.len() == 2 && mid_3[0] == mid[3] && mid_3[1] == mid[4]);
    assert(mid_4.len() == 1 && mid_4[0] == mid[4]);
    assert(mid_4.drop_first() =~= Seq::<(Seq<char>, JsonV)>::empty());
    assert(json::spec_lookup(mid_4, "id"@) is None);
    assert(json::spec_lookup(mid_3, "id"@) == json::spec_lookup(mid_4, "id"@));
    assert(json::spec_lookup(mid_2, "id"@) == json::spec_lookup(mid_3, "id"@));
    assert(json::spec_lookup(mid_1, "id"@) == json::spec_lookup(mid_2, "id"@));
    assert(json::spec_lookup(mid, "id"@) == json::spec_lookup(mid_1, "id"@));
    assert(json::spec_lookup(mid, "id"@) is None);
    assert(json::spec_lookup(mid, "blockchain_name"@) == Some(JsonV::Str(c.blockchain_name)));
    assert(json::spec_lookup(mid_1, "short_description"@) == Some(JsonV::Str(c.short_description)));
    assert(json::spec_lookup(mid, "short_description"@) == json::spec_lookup(mid_1, "short_description"@));
    assert(json::spec_lookup(mid_2, "time_offset"@) == Some(JsonV::Int(c.time_offset)));
    assert(json::spec_lookup(mid_1, "time_offset"@) == json::spec_lookup(mid_2, "time_offset"@));
    assert(json::spec_lookup(mid, "time_offset"@) == json::spec_lookup(mid_1, "time_offset"@));
    assert(json::spec_lookup(mid_3, "total_coin_issuance"@) == Some(JsonV::Int(c.total_coin_issuance)));
    assert(json::spec_lookup(mid_2, "total_coin_issuance"@) == json::spec_lookup(mid_3, "total_coin_issuance"@));
    assert(json::spec_lookup(mid_1, "total_coin_issuance"@) == json::spec_lookup(mid_2, "total_coin_issuance"@));
    assert(json::spec_lookup(mid, "total_coin_issuance"@) == json::spec_lookup(mid_1, "total_coin_issuance"@));
    assert(json::spec_lookup(mid_4, "total_active_coins"@) == Some(JsonV::Int(c.total_active_coins)));
    assert(json::spec_lookup(mid_3, "total_active_coins"@) == json::spec_lookup(mid_4, "total_active_coins"@));
    assert(json::spec_lookup(mid_2, "total_active_coins"@) == json::spec_lookup(mid_3, "total_active_coins"@));
    assert(json::spec_lookup(mid_1, "total_active_coins"@) == json::spec_lookup(mid_2, "total_active_coins"@));
    assert(json::spec_lookup(mid, "total_active_coins"@) == json::spec_lookup(mid_1, "total_active_coins"@));
    assert(json::spec_lookup(mid_4, "total_unknown_supply"@) is None);
    assert(json::spec_lookup(mid_3, "total_unknown_supply"@) == json::spec_lookup(mid_4, "total_unknown_supply"@));
    assert(json::spec_lookup(mid_2, "total_unknown_supply"@) == json::spec_lookup(mid_3, "total_unknown_supply"@));
    assert(json::spec_lookup(mid_1, "total_unknown_supply"@) == json::spec_lookup(mid_2, "total_unknown_supply"@));
    assert(json::spec_lookup(mid, "total_unknown_supply"@) == json::spec_lookup(mid_1, "total_unknown_supply"@));
    assert(json::spec_lookup(mid, "total_unknown_supply"@) is None);
    assert(json::spec_lookup(mid_4, "block_height"@) is None);
    assert(json::spec_lookup(mid_3, "block_height"@) == json::spec_lookup(mid_4, "block_height"@));
    assert(json::spec_lookup(mid_2, "block_height"@) == json::spec_lookup(mid_3, "block_height"@));
    assert(json::spec_lookup(mid_1, "block_height"@) == json::spec_lookup(mid_2, "block_height"@));
    assert(json::spec_lookup(mid, "block_height"@) == json::spec_lookup(mid_1, "block_height"@));
    assert(json::spec_lookup(mid, "block_height"@) is None);
    assert(json::spec_lookup(mid_4, "block_range_start"@) is None);
    assert(json::spec_lookup(mid_3, "block_range_start"@) == json::spec_lookup(mid_4, "block_range_start"@));
    assert(json::spec_lookup(mid_2, "block_range_start"@) == json::spec_lookup(mid_3, "block_range_start"@));
    assert(json::spec_lookup(mid_1, "block_range_start"@) == json::spec_lookup(mid_2, "block_range_start"@));
    assert(json::spec_lookup(mid, "block_range_start"@) == json::spec_lookup(mid_1, "block_range_start"@));
    assert(json::spec_lookup(mid, "block_range_start"@) is None);
    assert(json::spec_lookup(mid_4, "block_range_end"@) is None);
    assert(json::spec_lookup(mid_3, "block_range_end"@) == json::spec_lookup(mid_4, "block_range_end"@));
    assert(json::spec_lookup(mid_2, "block_range_end"@) == json::spec_lookup(mid_3, "block_range_end"@));
    assert(json::spec_lookup(mid_1, "block_range_end"@) == json::spec_lookup(mid_2, "block_range_end"@));
    assert(json::spec_lookup(mid, "block_range_end"@) == json::spec_lookup(mid_1, "block_range_end"@));
    assert(json::spec_lookup(mid, "block_range_end"@) is None);
    assert(json::spec_lookup(mid_4, "date_range_start"@) is None);
    assert(json::spec_lookup(mid_3, "date_range_start"@) == json::spec_lookup(mid_4, "date_range_start"@));
    assert(json::spec_lookup(mid_2, "date_range_start"@) == json::spec_lookup(mid_3, "date_range_start"@));
    assert(json::spec_lookup(mid_1, "date_range_start"@) == json::spec_lookup(mid_2, "date_range_start"@));
    assert(json::spec_lookup(mid, "date_range_start"@) == json::spec_lookup(mid_1, "date_range_start"@));
    assert(json::spec_lookup(mid, "date_range_start"@) is None);
    assert(json::spec_lookup(mid_4, "date_range_end"@) is None);
    assert(json::spec_lookup(mid_3, "date_range_end"@) == json::spec_lookup(mid_4, "date_range_end"@));
    assert(json::spec_lookup(mid_2, "date_range_end"@) == json::spec_lookup(mid_3, "date_range_end"@));
    assert(json::spec_lookup(mid_1, "date_range_end"@) == json::spec_lookup(mid_2, "date_range_end"@));
    assert(json::spec_lookup(mid, "date_range_end"@) == json::spec_lookup(mid_1, "date_range_end"@));
    assert(json::spec_lookup(mid, "date_range_end"@) is None);
    assert(json::spec_lookup(mid_4, "active_addresses"@) is None);
    assert(json::spec_lookup(mid_3, "active_addresses"@) == json::spec_lookup(mid_4, "active_addresses"@));
    assert(json::spec_lookup(mid_2, "active_addresses"@) == json::spec_lookup(mid_3, "active_addresses"@));
    assert(json::spec_lookup(mid_1, "active_addresses"@) == json::spec_lookup(mid_2, "active_addresses"@));
    assert(json::spec_lookup(mid, "active_addresses"@) == json::spec_lookup(mid_1, "active_addresses"@));
    assert(json::spec_lookup(mid, "active_addresses"@) is None);
    assert(json::spec_lookup(mid_4, "last_updated"@) is None);
    assert(json::spec_lookup(mid_3, "last_updated"@) == json::spec_lookup(mid_4, "last_updated"@));
    assert(json::spec_lookup(mid_2, "last_updated"@) == json::spec_lookup(mid_3, "last_updated"@));
    assert(json::spec_lookup(mid_1, "last_updated"@) == json::spec_lookup(mid_2, "last_updated"@));
    assert(json::spec_lookup(mid, "last_updated"@) == json::spec_lookup(mid_1, "last_updated"@));
    assert(json::spec_lookup(mid, "last_updated"@) is None);
    assert(json::spec_lookup(mid_4, "stat_type"@) is None);
    assert(json::spec_lookup(mid_3, "stat_type"@) == json::spec_lookup(mid_4, "stat_type"@));
    assert(json::spec_lookup(mid_2, "stat_type"@) == json::spec_lookup(mid_3, "stat_type"@));
    assert(json::spec_lookup(mid_1, "stat_type"@) == json::spec_lookup(mid_2, "stat_type"@));
    assert(json::spec_lookup(mid, "stat_type"@) == json::spec_lookup(mid_1, "stat_type"@));
    assert(json::spec_lookup(mid, "stat_type"@) is None);
    let tail_1 = tail.drop_first();
    let tail_2 = tail_1.drop_first();
    let tail_3 = tail_2.drop_first();
    let tail_4 = tail_3.drop_first();
    let tail_5 = tail_4.drop_first();
    let tail_6 = tail_5.drop_first();
    let tail_7 = tail_6.drop_first();
    assert(tail.len() == 8);
    assert(tail_1.len() == 7 && tail_1[0] == tail[1] && tail_1[1] == tail[2] && tail_1[2] == tail[3] && tail_1[3] == tail[4] && tail_1[4] == tail[5] && tail_1[5] == tail[6] && tail_1[6] == tail[7]);
    assert(tail_2.len() == 6 && tail_2[0] == tail[2] && tail_2[1] == tail[3] && tail_2[2] == tail[4] && tail_2[3] == tail[5] && tail_2[4] == tail[6] && tail_2[5] == tail[7]);
    assert(tail_3.len() == 5 && tail_3[0] == tail[3] && tail_3[1] == tail[4] && tail_3[2] == tail[5] && tail_3[3] == tail[6] && tail_3[4] == tail[7]);
    assert(tail_4.len() == 4 && tail_4[0] == tail[4] && tail_4[1] == tail[5] && tail_4[2] == tail[6] && tail_4[3] == tail[7]);
    assert(tail_5.len() == 3 && tail_5[0] == tail[5] && tail_5[1] == tail[6] && tail_5[2] == tail[7]);
    assert(tail_6.len() == 2 && tail_6[0] == tail[6] && tail_6[1] == tail[7]);
    assert(tail_7.len() == 1 && tail_7[0] == tail[7]);
    assert(tail_7.drop_first() =~= Seq::<(Seq<char>, JsonV)>::empty());
    assert(json::spec_lookup(tail, "block_height"@) == Some(JsonV::Int(c.block_height)));
    assert(json::spec_lookup(tail_1, "block_range_start"@) == Some(JsonV::Int(c.block_range_start)));
    assert(json::spec_lookup(tail, "block_range_start"@) == json::spec_lookup(tail_1, "block_range_start"@));
    assert(json::spec_lookup(tail_2, "block_range_end"@) == Some(JsonV::Int(c.block_range_end)));
    assert(json::spec_lookup(tail_1, "block_range_end"@) == json::spec_lookup(tail_2, "block_range_end"@));
    assert(json::spec_lookup(tail, "block_range_end"@) == json::spec_lookup(tail_1, "block_range_end"@));
    assert(json::spec_lookup(tail_3, "date_range_start"@) == Some(JsonV::Int(c.date_range_start)));
    assert(json::spec_lookup(tail_2, "date_range_start"@) == json::spec_lookup(tail_3, "date_range_start"@));
    assert(json::spec_lookup(tail_1, "date_range_start"@) == json::spec_lookup(tail_2, "date_range_start"@));
    assert(json::spec_lookup(tail, "date_range_start"@) == json::spec_lookup(tail_1, "date_range_start"@));
    assert(json::spec_lookup(tail_4, "date_range_end"@) == Some(JsonV::Int(c.date_range_end)));
    assert(json::spec_lookup(tail_3, "date_range_end"@) == json::spec_lookup(tail_4, "date_range_end"@));
    assert(json::spec_lookup(tail_2, "date_range_end"@) == json::spec_lookup(tail_3, "date_range_end"@));
    assert(json::spec_lookup(tail_1, "date_range_end"@) == json::spec_lookup(tail_2, "date_range_end"@));
    assert(json::spec_lookup(tail, "date_range_end"@) == json::spec_lookup(tail_1, "date_range_end"@));
    assert(json::spec_lookup(tail_5, "active_addresses"@) == Some(JsonV::Int(c.active_addresses)));
    assert(json::spec_lookup(tail_4, "active_addresses"@) == json::spec_lookup(tail_5, "active_addresses"@));
    assert(json::spec_lookup(tail_3, "active_addresses"@) == json::spec_lookup(tail_4, "active_addresses"@));
    assert(json::spec_lookup(tail_2, "active_addresses"@) == json::spec_lookup(tail_3, "active_addresses"@));
    assert(json::spec_lookup(tail_1, "active_addresses"@) == json::spec_lookup(tail_2, "active_addresses"@));
    assert(json::spec_lookup(tail, "active_addresses"@) == json::spec_lookup(tail_1, "active_addresses"@));
    assert(json::spec_lookup(tail_6, "last_updated"@) == Some(JsonV::Int(c.last_updated)));
    assert(json::spec_lookup(tail_5, "last_updated"@) == json::spec_lookup(tail_6, "last_updated"@));
    assert(json::spec_lookup(tail_4, "last_updated"@) == json::spec_lookup(tail_5, "last_updated"@));
    assert(json::spec_lookup(tail_3, "last_updated"@) == json::spec_lookup(tail_4, "last_updated"@));
    assert(json::spec_lookup(tail_2, "last_updated"@) == json::spec_lookup(tail_3, "last_updated"@));
    assert(json::spec_lookup(tail_1, "last_updated"@) == json::spec_lookup(tail_2, "last_updated"@));
    assert(json::spec_lookup(tail, "last_updated"@) == json::spec_lookup(tail_1, "last_updated"@));
    assert(json::spec_lookup(tail_7, "stat_type"@) == Some(JsonV::Str(stat_type_string(c.stat_type))));
    assert(json::spec_lookup(tail_6, "stat_type"@) == json::spec_lookup(tail_7, "stat_type"@));
    assert(json::spec_lookup(tail_5, "stat_type"@) == json::spec_lookup(tail_6, "stat_type"@));
    assert(json::spec_lookup(tail_4, "stat_type"@) == json::spec_lookup(tail_5, "stat_type"@));
    assert(json::spec_lookup(tail_3, "stat_type"@) == json::spec_lookup(tail_4, "stat_type"@));
    assert(json::spec_lookup(tail_2, "stat_type"@) == json::spec_lookup(tail_3, "stat_type"@));
    assert(json::spec_lookup(tail_1, "stat_type"@) == json::spec_lookup(tail_2, "stat_type"@));
    assert(json::spec_lookup(tail, "stat_type"@) == json::spec_lookup(tail_1, "stat_type"@));
    assert(json::spec_lookup(tail_7, "id"@) is None);
    assert(json::spec_lookup(tail_6, "id"@) == json::spec_lookup(tail_7, "id"@));
    assert(json::spec_lookup(tail_5, "id"@) == json::spec_lookup(tail_6, "id"@));
    assert(json::spec_lookup(tail_4, "id"@) == json::spec_lookup(tail_5, "id"@));
    assert(json::spec_lookup(tail_3, "id"@) == json::spec_lookup(tail_4, "id"@));
    assert(json::spec_lookup(tail_2, "id"@) == json::spec_lookup(tail_3, "id"@));
    assert(json::spec_lookup(tail_1, "id"@) == json::spec_lookup(tail_2, "id"@));
    assert(json::spec_lookup(tail, "id"@) == json::spec_lookup(tail_1, "id"@));
    assert(json::spec_lookup(tail, "id"@) is None);
    assert(json::spec_lookup(tail_7, "total_unknown_supply"@) is None);
    assert(json::spec_lookup(tail_6, "total_unknown_supply"@) == json::spec_lookup(tail_7, "total_unknown_supply"@));
    assert(json::spec_lookup(tail_5, "total_unknown_supply"@) == json::spec_lookup(tail_6, "total_unknown_supply"@));
    assert(json::spec_lookup(tail_4, "total_unknown_supply"@) == json::spec_lookup(tail_5, "total_unknown_supply"@));
    assert(json::spec_lookup(tail_3, "total_unknown_supply"@) == json::spec_lookup(tail_4, "total_unknown_supply"@));
    assert(json::spec_lookup(tail_2, "total_unknown_supply"@) == json::spec_lookup(tail_3, "total_unknown_supply"@));
    assert(json::spec_lookup(tail_1, "total_unknown_supply"@) == json::spec_lookup(tail_2, "total_unknown_supply"@));
    assert(json::spec_lookup(tail, "total_unknown_supply"@) == json::spec_lookup(tail_1, "total_unknown_supply"@));
    assert(json::spec_lookup(tail, "total_unknown_supply"@) is None);
    assert(f == ((head + mid) + unk) + tail);
    json::lemma_lookup_append((head + mid) + unk, tail, "id"@);
    json::lemma_lookup_append(head + mid, unk, "id"@);
    json::lemma_lookup_append(head, mid, "id"@);
    json::lemma_lookup_append((head + mid) + unk, tail, "blockchain_name"@);
    json::lemma_lookup_append(head + mid, unk, "blockchain_name"@);
    json::lemma_lookup_append(head, mid, "blockchain_name"@);
    json::lemma_lookup_append((head + mid) + unk, tail, "short_description"@);
    json::lemma_lookup_append(head + mid, unk, "short_description"@);
    json::lemma_lookup_append(head, mid, "short_description"@);
    json::lemma_lookup_append((head + mid) + unk, tail, "time_offset"@);
    json::lemma_lookup_append(head + mid, unk, "time_offset"@);
    json::lemma_lookup_append(head, mid, "time_offset"@);
    json::lemma_lookup_append((head + mid) + unk, tail, "total_coin_issuance"@);
    json::lemma_lookup_append(head + mid, unk, "total_coin_issuance"@);
    json::lemma_lookup_append(head, mid, "total_coin_issuance"@);
    json::lemma_lookup_append((head + mid) + unk, tail, "total_active_coins"@);
    json::lemma_lookup_append(head + mid, unk, "total_active_coins"@);
    json::lemma_lookup_append(head, mid, "total_active_coins"@);
    json::lemma_lookup_append((head + mid) + unk, tail, "total_unknown_supply"@);
    json::lemma_lookup_append(head + mid, unk, "total_unknown_supply"@);
    json::lemma_lookup_append(head, mid, "total_unknown_supply"@);
    json::lemma_lookup_append((head + mid) + unk, tail, "block_height"@);
    json::lemma_lookup_append(head + mid, unk, "block_height"@);
    json::lemma_lookup_append(head, mid, "block_height"@);
    json::lemma_lookup_append((head + mid) + unk, tail, "block_range_start"@);
    json::lemma_lookup_append(head + mid, unk, "block_range_start"@);
    json::lemma_lookup_append(head, mid, "block_range_start"@);
    json::lemma_lookup_append((head + mid) + unk, tail, "block_range_end"@);
    json::lemma_lookup_append(head + mid, unk, "block_range_end"@);
    json::lemma_lookup_append(head, mid, "block_range_end"@);
    json::lemma_lookup_append((head + mid) + unk, tail, "date_range_start"@);
    json::lemma_lookup_append(head + mid, unk, "date_range_start"@);
    json::lemma_lookup_append(head, mid, "date_range_start"@);
    json::lemma_lookup_append((head + mid) + unk, tail, "date_range_end"@);
    json::lemma_lookup_append(head + mid, unk, "date_range_end"@);
    json::lemma_lookup_append(head, mid, "date_range_end"@);
    json::lemma_lookup_append((head + mid) + unk, tail, "active_addresses"@);
    json::lemma_lookup_append(head + mid, unk, "active_addresses"@);
    json::lemma_lookup_append(head, mid, "active_addresses"@);
    json::lemma_lookup_append((head + mid) + unk, tail, "last_updated"@);
    json::lemma_lookup_append(head + mid, unk, "last_updated"@);
    json::lemma_lookup_append(head, mid, "last_updated"@);
    json::lemma_lookup_append((head + mid) + unk, tail, "stat_type"@);
    json::lemma_lookup_append(head + mid, unk, "stat_type"@);
    json::lemma_lookup_append(head, mid, "stat_type"@);
    assert(chain_stats_of_record(chain_stats_record(c)) == Some(c)) by {
        assert(match chain_stats_of_record(chain_stats_record(c)) {
            Some(u) => u =~= c,
            None => false,
        });
    }
}


impl ChainStats {
    /// Serializes this snapshot to its interchange record: the two
    /// optional fields are dropped entirely when absent.
    pub fn to_record(&self) -> (r: JsonValue)
        ensures
            r@ == chain_stats_record(self@),
    {
        let mut head: Vec<(String, JsonValue)> = Vec::new();
        match &self.id {
            Some(n) => {
                head.push(("id".to_owned(), JsonValue::Int(*n)));
            },
            None => {},
        }
        let mut mid: Vec<(String, JsonValue)> = Vec::new();
        mid.push(("blockchain_name".to_owned(), JsonValue::Str(self.blockchain_name.clone())));
        mid.push(("short_description".to_owned(), JsonValue::Str(self.short_description.clone())));
        mid.push(("time_offset".to_owned(), JsonValue::Int(self.time_offset)));
        mid.push(("total_coin_issuance".to_owned(), JsonValue::Int(self.total_coin_issuance)));
        mid.push(("total_active_coins".to_owned(), JsonValue::Int(self.total_active_coins)));
        let mut unk: Vec<(String, JsonValue)> = Vec::new();
        match &self.total_unknown_supply {
            Some(n) => {
                unk.push(("total_unknown_supply".to_owned(), JsonValue::Int(*n)));
            },
            None => {},
        }
        let mut tail: Vec<(String, JsonValue)> = Vec::new();
        tail.push(("block_height".to_owned(), JsonValue::Int(self.block_height)));
        tail.push(("block_range_start".to_owned(), JsonValue::Int(self.block_range_start)));
        tail.push(("block_range_end".to_owned(), JsonValue::Int(self.block_range_end)));
        tail.push(("date_range_start".to_owned(), JsonValue::Int(self.date_range_start)));
        tail.push(("date_range_end".to_owned(), JsonValue::Int(self.date_range_end)));
        tail.push(("active_addresses".to_owned(), JsonValue::Int(self.active_addresses)));
        tail.push(("last_updated".to_owned(), JsonValue::Int(self.last_updated)));
        tail.push(("stat_type".to_owned(), JsonValue::Str(self.stat_type.name_string())));
        let ghost g_head = head@;
        let ghost g_mid = mid@;
        let ghost g_unk = unk@;
        let ghost g_tail = tail@;
        let mut fields = head;
        fields.append(&mut mid);
        fields.append(&mut unk);
        fields.append(&mut tail);
        let ghost gf = fields@;
        let r = JsonValue::Object(fields);
        proof {
            assert(gf == ((g_head + g_mid) + g_unk) + g_tail);
            json::lemma_json_fields_view_append((g_head + g_mid) + g_unk, g_tail);
            json::lemma_json_fields_view_append(g_head + g_mid, g_unk);
            json::lemma_json_fields_view_append(g_head, g_mid);
            json::lemma_json_fields_view(g_head);
            json::lemma_json_fields_view(g_mid);
            json::lemma_json_fields_view(g_unk);
            json::lemma_json_fields_view(g_tail);
            match self@.id {
                Some(n) => {
                    assert(g_head.len() == 1);
                    assert(g_head[0].0@ == "id"@);
                    assert(json::json_fields_view(g_head) =~= seq![("id"@, JsonV::Int(n))]);
                },
                None => {
                    assert(json::json_fields_view(g_head)
                        =~= Seq::<(Seq<char>, JsonV)>::empty());
                },
            }
            assert(g_mid.len() == 5);
            assert(g_mid[0].0@ == "blockchain_name"@);
            assert(g_mid[1].0@ == "short_description"@);
            assert(g_mid[2].0@ == "time_offset"@);
            assert(g_mid[3].0@ == "total_coin_issuance"@);
            assert(g_mid[4].0@ == "total_active_coins"@);
            assert(json::json_fields_view(g_mid) =~= seq![
                ("blockchain_name"@, JsonV::Str(self@.blockchain_name)),
                ("short_description"@, JsonV::Str(self@.short_description)),
                ("time_offset"@, JsonV::Int(self@.time_offset)),
                ("total_coin_issuance"@, JsonV::Int(self@.total_coin_issuance)),
                ("total_active_coins"@, JsonV::Int(self@.total_active_coins)),
            ]);
            match self@.total_unknown_supply {
                Some(n) => {
                    assert(g_unk.len() == 1);
                    assert(g_unk[0].0@ == "total_unknown_supply"@);
                    assert(json::json_fields_view(g_unk) =~= seq![
                        ("total_unknown_supply"@, JsonV::Int(n)),
                    ]);
                },
                None => {
                    assert(json::json_fields_view(g_unk)
                        =~= Seq::<(Seq<char>, JsonV)>::empty());
                },
            }
            assert(g_tail.len() == 8);
            assert(g_tail[0].0@ == "block_height"@);
            assert(g_tail[1].0@ == "block_range_start"@);
            assert(g_tail[2].0@ == "block_range_end"@);
            assert(g_tail[3].0@ == "date_range_start"@);
            assert(g_tail[4].0@ == "date_range_end"@);
            assert(g_tail[5].0@ == "active_addresses"@);
            assert(g_tail[6].0@ == "last_updated"@);
            assert(g_tail[7].0@ == "stat_type"@);
            assert(json::json_fields_view(g_tail) =~= seq![
                ("block_height"@, JsonV::Int(self@.block_height)),
                ("block_range_start"@, JsonV::Int(self@.block_range_start)),
                ("block_range_end"@, JsonV::Int(self@.block_range_end)),
                ("date_range_start"@, JsonV::Int(self@.date_range_start)),
                ("date_range_end"@, JsonV::Int(self@.date_range_end)),
                ("active_addresses"@, JsonV::Int(self@.active_addresses)),
                ("last_updated"@, JsonV::Int(self@.last_updated)),
                ("stat_type"@, JsonV::Str(stat_type_string(self@.stat_type))),
            ]);
            assert(json::json_fields_view(gf) == chain_stats_fields(self@));
            assert(r@ == chain_stats_record(self@));
        }
        r
    }

    /// The backend write projection: a snapshot has no nested
    /// collection, so the projection is the full record.
    pub fn graphql_inputs(&self) -> (r: JsonValue)
        ensures
            r@ == chain_stats_record(self@),
    {
        self.to_record()
    }

    /// Deserializes a snapshot from its interchange record.
    pub fn from_record(v: &JsonValue) -> (r: Result<ChainStats, FormatError>)
        ensures
            match r {
                Ok(c) => chain_stats_of_record(v@) == Some(c@),
                Err(_) => chain_stats_of_record(v@) is None,
            },
    {
        let fields = match v {
            JsonValue::Object(f) => f,
            _ => {
                return Err(FormatError);
            },
        };
        let id = match json::lookup(fields, "id") {
            None => None,
            Some(jv) => match json::deserialize_i64_or_string(jv) {
                Ok(o) => o,
                Err(e) => {
                    return Err(e);
                },
            },
        };
        let blockchain_name = match json::get_string(fields, "blockchain_name") {
            Ok(s) => s,
            Err(e) => {
                return Err(e);
            },
        };
        let short_description = match json::get_string(fields, "short_description") {
            Ok(s) => s,
            Err(e) => {
                return Err(e);
            },
        };
        let time_offset = match json::get_i64_or_zero(fields, "time_offset") {
            Ok(n) => n,
            Err(e) => {
                return Err(e);
            },
        };
        let total_coin_issuance = match json::get_i64_or_zero(fields, "total_coin_issuance") {
            Ok(n) => n,
            Err(e) => {
                return Err(e);
            },
        };
        let total_active_coins = match json::get_i64_or_zero(fields, "total_active_coins") {
            Ok(n) => n,
            Err(e) => {
                return Err(e);
            },
        };
        let total_unknown_supply = match json::lookup(fields, "total_unknown_supply") {
            None => None,
            Some(JsonValue::Null) => None,
            Some(JsonValue::Int(n)) => Some(*n),
            Some(_) => {
                return Err(FormatError);
            },
        };
        let block_height = match json::get_i64_or_zero(fields, "block_height") {
            Ok(n) => n,
            Err(e) => {
                return Err(e);
            },
        };
        let block_range_start = match json::get_i64_or_zero(fields, "block_range_start") {
            Ok(n) => n,
            Err(e) => {
                return Err(e);
            },
        };
        let block_range_end = match json::get_i64_or_zero(fields, "block_range_end") {
            Ok(n) => n,
            Err(e) => {
                return Err(e);
            },
        };
        let date_range_start = match json::get_i64_or_zero(fields, "date_range_start") {
            Ok(n) => n,
            Err(e) => {
                return Err(e);
            },
        };
        let date_range_end = match json::get_i64_or_zero(fields, "date_range_end") {
            Ok(n) => n,
            Err(e) => {
                return Err(e);
            },
        };
        let active_addresses = match json::get_i64_or_zero(fields, "active_addresses") {
            Ok(n) => n,
            Err(e) => {
                return Err(e);
            },
        };
        let last_updated = match json::get_i64_or_zero(fields, "last_updated") {
            Ok(n) => n,
            Err(e) => {
                return Err(e);
            },
        };
        let stat_type = match json::lookup(fields, "stat_type") {
            None => BlockChainStatType::Default,
            Some(JsonValue::Str(s)) => {
                if text::str_eq(s.as_str(), "Default") {
                    BlockChainStatType::Default
                } else if text::str_eq(s.as_str(), "Custom") {
                    BlockChainStatType::Custom
                } else {
                    return Err(FormatError);
                }
            },
            Some(_) => {
                return Err(FormatError);
            },
        };
        Ok(
            ChainStats {
                id,
                blockchain_name,
                short_description,
                time_offset,
                total_coin_issuance,
                total_active_coins,
                total_unknown_supply,
                block_height,
                block_range_start,
                block_range_end,
                date_range_start,
                date_range_end,
                active_addresses,
                last_updated,
                stat_type,
            },
        )
    }

    /// The field-selection text a backend read of snapshots asks for.
    pub fn fetch_fields() -> (r: String)
        ensures
            r@
                == "{ id, blockchain_name, short_description, time_offset, total_coin_issuance, total_active_coins, total_unknown_supply, block_height, block_range_start, block_range_end, date_range_start, date_range_end, active_addresses, last_updated, stat_type}"@,
    {
        "{ id, blockchain_name, short_description, time_offset, total_coin_issuance, total_active_coins, total_unknown_supply, block_height, block_range_start, block_range_end, date_range_start, date_range_end, active_addresses, last_updated, stat_type}".to_owned()
    }

    /// The insert-mutation text for a snapshot write, naming the given
    /// input parameter.
    pub fn insert_query(&self, param: String) -> (r: String)
        ensures
            r@ == "create_chain_stats (input: $"@ + param@ + " ){ id }"@,
    {
        let mut s = String::from_str("create_chain_stats (input: $");
        s.append(param.as_str());
        s.append(" ){ id }");
        s
    }

    /// The backend input-type name of a snapshot write.
    pub fn input_type(&self) -> (r: String)
        ensures
            r@ == "chain_statsInput"@,
    {
        "chain_statsInput".to_owned()
    }

    /// The delete-key expression of this snapshot: its id, which must
    /// be present — a snapshot never written has no key to delete by.
    pub fn delete_input(&self) -> (r: String)
        requires
            self@.id is Some,
        ensures
            r@ == "id: \""@ + crate::text::int_chars(self@.id->Some_0) + "\""@,
    {
        let mut s = String::from_str("id: \"");
        let id = match &self.id {
            Some(n) => *n,
            None => 0,
        };
        let digits = text::i64_to_string(id);
        s.append(digits.as_str());
        s.append("\"");
        s
    }
}

} // verus!
