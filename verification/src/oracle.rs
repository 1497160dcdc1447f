//! The price oracle: per-pair configuration, a cache of observed prices with
//! a staleness bound, and the queries by which a price is fetched from the
//! exchange.

use crate::params::PriceData;
use crate::table::{entries_map, entry_keys, Table};
use vstd::prelude::*;
use vstd::string::*;

verus! {

/// The decimals of every cached price.
pub const PRICE_DECIMALS: u8 = 24;

/// Nanoseconds in a second: timestamps are in nanoseconds, staleness bounds
/// in seconds.
pub const NANOS_PER_SECOND: u64 = 1_000_000_000;

/// Why the oracle turned an operation down.
#[derive(Clone, Copy, Debug, PartialEq, Eq)]
pub enum OracleError {
    /// The caller is not the owner.
    NotOwner,
    /// The oracle is paused.
    Paused,
    /// No oracle is configured for the pair.
    NotConfigured,
    /// An age or a staleness bound does not fit in 64 bits.
    ArithmeticOverflow,
}

impl OracleError {
    /// The reason in words.
    pub open spec fn message_spec(self) -> Seq<char> {
        match self {
            OracleError::NotOwner => "Only owner can call this method"@,
            OracleError::Paused => "Oracle is paused"@,
            OracleError::NotConfigured => "Oracle not configured"@,
            OracleError::ArithmeticOverflow => "Arithmetic overflow"@,
        }
    }

    /// The reason in words, to show to the caller.
    pub fn message(&self) -> (text: &'static str)
        ensures
            text@ == self.message_spec(),
    {
        match self {
            OracleError::NotOwner => "Only owner can call this method",
            OracleError::Paused => "Oracle is paused",
            OracleError::NotConfigured => "Oracle not configured",
            OracleError::ArithmeticOverflow => "Arithmetic overflow",
        }
    }
}

/// How the price of one pair is obtained and for how long it is trusted.
#[derive(Clone, Copy, Debug, PartialEq, Eq)]
pub struct OracleConfig {
    /// The pool of the exchange that trades the pair.
    pub rhea_pool_id: u64,
    /// The window of the time-weighted average, in seconds.
    pub twap_window: u64,
    /// The greatest age of a cached price, in seconds.
    pub max_staleness: u64,
    /// The greatest deviation accepted by a sanity check, in basis points.
    pub max_deviation_bps: u16,
    /// Whether the pool is a stable pool, priced as such.
    pub use_stable_pool: bool,
}

impl View for OracleConfig {
    type V = OracleConfig;

    open spec fn view(&self) -> OracleConfig {
        *self
    }
}

/// A price query to send to the exchange.
#[derive(Debug, PartialEq, Eq)]
pub enum PriceQuery {
    /// The time-weighted average price over `window_secs` seconds.
    Twap { exchange: String, pool_id: u64, token_in: String, token_out: String, window_secs: u64 },
    /// The price of a stable pool.
    StablePool { exchange: String, pool_id: u64, token_in: String, token_out: String },
}

/// A price query as plain values.
pub enum PriceQueryView {
    Twap {
        exchange: Seq<char>,
        pool_id: u64,
        token_in: Seq<char>,
        token_out: Seq<char>,
        window_secs: u64,
    },
    StablePool { exchange: Seq<char>, pool_id: u64, token_in: Seq<char>, token_out: Seq<char> },
}

impl View for PriceQuery {
    type V = PriceQueryView;

    open spec fn view(&self) -> PriceQueryView {
        match *self {
            PriceQuery::Twap { exchange, pool_id, token_in, token_out, window_secs } => {
                PriceQueryView::Twap {
                    exchange: exchange@,
                    pool_id,
                    token_in: token_in@,
                    token_out: token_out@,
                    window_secs,
                }
            },
            PriceQuery::StablePool { exchange, pool_id, token_in, token_out } => {
                PriceQueryView::StablePool {
                    exchange: exchange@,
                    pool_id,
                    token_in: token_in@,
                    token_out: token_out@,
                }
            },
        }
    }
}

/// The oracle.
pub struct OracleRouter {
    owner: String,
    oracle_configs: Table<OracleConfig>,
    price_cache: Table<PriceData>,
    paused: bool,
}

/// The oracle as plain values. Both maps are keyed by `pair_key_spec`.
pub struct OracleView {
    pub owner: Seq<char>,
    pub oracle_configs: Map<Seq<char>, OracleConfig>,
    pub price_cache: Map<Seq<char>, PriceData>,
    pub paused: bool,
}

/// The key of a pair: the underlying, a colon, the quote.
pub open spec fn pair_key_spec(underlying: Seq<char>, quote: Seq<char>) -> Seq<char> {
    underlying + ":"@ + quote
}

/// The account of the exchange on the network in use.
pub open spec fn exchange_account_spec(testnet: bool) -> Seq<char> {
    if testnet {
        "rhea.testnet"@
    } else {
        "rhea.near"@
    }
}

impl OracleView {
    /// The configuration of a pair, if it has one.
    pub open spec fn config_of(self, underlying: Seq<char>, quote: Seq<char>) -> Option<
        OracleConfig,
    > {
        let key = pair_key_spec(underlying, quote);
        if self.oracle_configs.contains_key(key) {
            Some(self.oracle_configs[key])
        } else {
            None
        }
    }

    /// The cached price of a pair at time `now`: none for a pair without a
    /// configuration or without a cached price, and none for a price older
    /// than the pair's staleness bound.
    pub open spec fn get_price(self, underlying: Seq<char>, quote: Seq<char>, now: u64) -> Result<
        Option<PriceData>,
        OracleError,
    > {
        let key = pair_key_spec(underlying, quote);
        if self.paused {
            Err(OracleError::Paused)
        } else if !self.oracle_configs.contains_key(key) || !self.price_cache.contains_key(key) {
            Ok(None)
        } else {
            let cached = self.price_cache[key];
            let bound = self.oracle_configs[key].max_staleness * NANOS_PER_SECOND;
            if cached.timestamp > now || bound > u64::MAX {
                Err(OracleError::ArithmeticOverflow)
            } else if now - cached.timestamp <= bound {
                Ok(Some(cached))
            } else {
                Ok(None)
            }
        }
    }

    /// The query for the time-weighted average price of a pair.
    pub open spec fn fetch_price(
        self,
        underlying: Seq<char>,
        quote: Seq<char>,
        testnet: bool,
    ) -> Result<PriceQueryView, OracleError> {
        if self.paused {
            Err(OracleError::Paused)
        } else {
            match self.config_of(underlying, quote) {
                None => Err(OracleError::NotConfigured),
                Some(config) => Ok(
                    PriceQueryView::Twap {
                        exchange: exchange_account_spec(testnet),
                        pool_id: config.rhea_pool_id,
                        token_in: underlying,
                        token_out: quote,
                        window_secs: config.twap_window,
                    },
                ),
            }
        }
    }

    /// The query for the price of a pair that is then cached: that of the
    /// stable pool where the pair is configured for one, the time-weighted
    /// average otherwise.
    pub open spec fn fetch_and_cache_price(
        self,
        underlying: Seq<char>,
        quote: Seq<char>,
        testnet: bool,
    ) -> Result<PriceQueryView, OracleError> {
        if self.paused {
            Err(OracleError::Paused)
        } else {
            match self.config_of(underlying, quote) {
                None => Err(OracleError::NotConfigured),
                Some(config) => if config.use_stable_pool {
                    Ok(
                        PriceQueryView::StablePool {
                            exchange: exchange_account_spec(testnet),
                            pool_id: config.rhea_pool_id,
                            token_in: underlying,
                            token_out: quote,
                        },
                    )
                } else {
                    Ok(
                        PriceQueryView::Twap {
                            exchange: exchange_account_spec(testnet),
                            pool_id: config.rhea_pool_id,
                            token_in: underlying,
                            token_out: quote,
                            window_secs: config.twap_window,
                        },
                    )
                },
            }
        }
    }
}

/// Everything that an oracle holds, as plain data to store and to load.
#[derive(Debug, PartialEq, Eq)]
pub struct OracleRecord {
    pub owner: String,
    pub oracle_configs: Vec<(String, OracleConfig)>,
    pub price_cache: Vec<(String, PriceData)>,
    pub paused: bool,
}

impl View for OracleRecord {
    type V = OracleView;

    open spec fn view(&self) -> OracleView {
        OracleView {
            owner: self.owner@,
            oracle_configs: entries_map(self.oracle_configs@),
            price_cache: entries_map(self.price_cache@),
            paused: self.paused,
        }
    }
}

impl OracleRecord {
    /// Whether the record is that of an oracle: no pair occurs twice among
    /// the configurations, nor among the prices.
    pub open spec fn valid(&self) -> bool {
        &&& entry_keys(self.oracle_configs@).no_duplicates()
        &&& entry_keys(self.price_cache@).no_duplicates()
    }
}

impl View for OracleRouter {
    type V = OracleView;

    closed spec fn view(&self) -> OracleView {
        OracleView {
            owner: self.owner@,
            oracle_configs: self.oracle_configs@,
            price_cache: self.price_cache@,
            paused: self.paused,
        }
    }
}

/// The key of a pair.
pub fn make_key(underlying: &String, quote: &String) -> (key: String)
    ensures
        key@ == pair_key_spec(underlying@, quote@),
{
    let mut key = underlying.clone();
    key.append(":");
    key.append(quote.as_str());
    key
}

fn exchange_account(testnet: bool) -> (account: String)
    ensures
        account@ == exchange_account_spec(testnet),
{
    if testnet {
        String::from_str("rhea.testnet")
    } else {
        String::from_str("rhea.near")
    }
}

impl OracleRouter {
    /// The oracle's tables are well formed.
    pub closed spec fn wf(&self) -> bool {
        &&& self.oracle_configs.wf()
        &&& self.price_cache.wf()
    }

    /// An oracle with no pair configured and no price cached.
    pub fn new(owner: String) -> (router: Self)
        ensures
            router.wf(),
            router@ == (OracleView {
                owner: owner@,
                oracle_configs: Map::empty(),
                price_cache: Map::empty(),
                paused: false,
            }),
    {
        OracleRouter {
            owner,
            oracle_configs: Table::new(),
            price_cache: Table::new(),
            paused: false,
        }
    }

    /// Takes the oracle apart into a record of everything it holds.
    pub fn into_record(self) -> (record: OracleRecord)
        requires
            self.wf(),
        ensures
            record.valid(),
            record@ == self@,
    {
        let OracleRouter { owner, oracle_configs, price_cache, paused } = self;
        proof {
            oracle_configs.lemma_keys();
            price_cache.lemma_keys();
        }
        OracleRecord {
            owner,
            oracle_configs: oracle_configs.into_entries(),
            price_cache: price_cache.into_entries(),
            paused,
        }
    }

    /// Puts an oracle together from a record, if the record is that of an
    /// oracle.
    pub fn from_record(record: OracleRecord) -> (r: Option<OracleRouter>)
        ensures
            r is Some <==> record.valid(),
            match r {
                Some(router) => router.wf() && router@ == record@,
                None => true,
            },
    {
        let OracleRecord { owner, oracle_configs, price_cache, paused } = record;
        let oracle_configs = match Table::from_entries(oracle_configs) {
            Some(table) => table,
            None => {
                return None;
            },
        };
        let price_cache = match Table::from_entries(price_cache) {
            Some(table) => table,
            None => {
                return None;
            },
        };
        Some(OracleRouter { owner, oracle_configs, price_cache, paused })
    }

    /// Sets the configuration of a pair. Only the owner may.
    pub fn configure_oracle(
        &mut self,
        caller: &String,
        underlying: &String,
        quote: &String,
        config: OracleConfig,
    ) -> (r: Result<(), OracleError>)
        requires
            old(self).wf(),
        ensures
            final(self).wf(),
            r == (if caller@ == old(self)@.owner {
                Ok::<(), OracleError>(())
            } else {
                Err(OracleError::NotOwner)
            }),
            final(self)@ == (if r is Ok {
                OracleView {
                    oracle_configs: old(self)@.oracle_configs.insert(
                        pair_key_spec(underlying@, quote@),
                        config,
                    ),
                    ..old(self)@
                }
            } else {
                old(self)@
            }),
    {
        if !(*caller == self.owner) {
            return Err(OracleError::NotOwner);
        }
        let key = make_key(underlying, quote);
        self.oracle_configs.insert(key, config);
        Ok(())
    }

    /// The cached price of a pair at time `now`, if the pair is configured
    /// and the price is no older than its staleness bound.
    pub fn get_price(&self, underlying: &String, quote: &String, now: u64) -> (r: Result<
        Option<PriceData>,
        OracleError,
    >)
        requires
            self.wf(),
        ensures
            r == self@.get_price(underlying@, quote@, now),
    {
        if self.paused {
            return Err(OracleError::Paused);
        }
        let key = make_key(underlying, quote);
        let config = match self.oracle_configs.get(&key) {
            Some(config) => *config,
            None => {
                return Ok(None);
            },
        };
        let cached = match self.price_cache.get(&key) {
            Some(cached) => *cached,
            None => {
                return Ok(None);
            },
        };
        let age = match now.checked_sub(cached.timestamp) {
            Some(age) => age,
            None => {
                return Err(OracleError::ArithmeticOverflow);
            },
        };
        let bound = match config.max_staleness.checked_mul(NANOS_PER_SECOND) {
            Some(bound) => bound,
            None => {
                return Err(OracleError::ArithmeticOverflow);
            },
        };
        if age <= bound {
            Ok(Some(cached))
        } else {
            Ok(None)
        }
    }

    /// Caches `price` for a pair as observed at time `now`, and hands back
    /// what was cached.
    pub fn update_price_from_rhea(
        &mut self,
        underlying: &String,
        quote: &String,
        price: u128,
        now: u64,
    ) -> (data: PriceData)
        requires
            old(self).wf(),
        ensures
            final(self).wf(),
            data == (PriceData { price, timestamp: now, decimals: PRICE_DECIMALS }),
            final(self)@ == (OracleView {
                price_cache: old(self)@.price_cache.insert(
                    pair_key_spec(underlying@, quote@),
                    data,
                ),
                ..old(self)@
            }),
    {
        let key = make_key(underlying, quote);
        let data = PriceData { price, timestamp: now, decimals: PRICE_DECIMALS };
        self.price_cache.insert(key, data);
        data
    }

    /// The query for the time-weighted average price of a configured pair.
    pub fn fetch_price(&self, underlying: &String, quote: &String, testnet: bool) -> (r: Result<
        PriceQuery,
        OracleError,
    >)
        requires
            self.wf(),
        ensures
            match self@.fetch_price(underlying@, quote@, testnet) {
                Ok(query) => r is Ok && r.unwrap()@ == query,
                Err(e) => r == Err::<PriceQuery, OracleError>(e),
            },
    {
        if self.paused {
            return Err(OracleError::Paused);
        }
        let key = make_key(underlying, quote);
        let config = match self.oracle_configs.get(&key) {
            Some(config) => *config,
            None => {
                return Err(OracleError::NotConfigured);
            },
        };
        Ok(
            PriceQuery::Twap {
                exchange: exchange_account(testnet),
                pool_id: config.rhea_pool_id,
                token_in: underlying.clone(),
                token_out: quote.clone(),
                window_secs: config.twap_window,
            },
        )
    }

    /// The query for the price of a configured pair whose answer is to be
    /// cached with `update_price_from_rhea`.
    pub fn fetch_and_cache_price(&self, underlying: &String, quote: &String, testnet: bool) -> (r:
        Result<PriceQuery, OracleError>)
        requires
            self.wf(),
        ensures
            match self@.fetch_and_cache_price(underlying@, quote@, testnet) {
                Ok(query) => r is Ok && r.unwrap()@ == query,
                Err(e) => r == Err::<PriceQuery, OracleError>(e),
            },
    {
        if self.paused {
            return Err(OracleError::Paused);
        }
        let key = make_key(underlying, quote);
        let config = match self.oracle_configs.get(&key) {
            Some(config) => *config,
            None => {
                return Err(OracleError::NotConfigured);
            },
        };
        if config.use_stable_pool {
            Ok(
                PriceQuery::StablePool {
                    exchange: exchange_account(testnet),
                    pool_id: config.rhea_pool_id,
                    token_in: underlying.clone(),
                    token_out: quote.clone(),
                },
            )
        } else {
            Ok(
                PriceQuery::Twap {
                    exchange: exchange_account(testnet),
                    pool_id: config.rhea_pool_id,
                    token_in: underlying.clone(),
                    token_out: quote.clone(),
                    window_secs: config.twap_window,
                },
            )
        }
    }

    /// Pauses or resumes the oracle. Only the owner may.
    pub fn set_paused(&mut self, caller: &String, paused: bool) -> (r: Result<(), OracleError>)
        requires
            old(self).wf(),
        ensures
            final(self).wf(),
            r == (if caller@ == old(self)@.owner {
                Ok::<(), OracleError>(())
            } else {
                Err(OracleError::NotOwner)
            }),
            final(self)@ == (if r is Ok {
                OracleView { paused, ..old(self)@ }
            } else {
                old(self)@
            }),
    {
        if !(*caller == self.owner) {
            return Err(OracleError::NotOwner);
        }
        self.paused = paused;
        Ok(())
    }

    /// The configuration of a pair, if it has one.
    pub fn get_oracle_config(&self, underlying: &String, quote: &String) -> (config: Option<
        OracleConfig,
    >)
        requires
            self.wf(),
        ensures
            config == self@.config_of(underlying@, quote@),
    {
        let key = make_key(underlying, quote);
        match self.oracle_configs.get(&key) {
            Some(config) => Some(*config),
            None => None,
        }
    }
}

} // verus!
