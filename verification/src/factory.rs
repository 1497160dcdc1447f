//! The deployment orchestrator: the registry of deployed markets, their
//! dedupe keys, and the plan by which a new market is provisioned.
//!
//! A deployment is a chain of four steps that the caller runs in order, each
//! only after the one before it succeeded: the long claim ledger, the short
//! claim ledger, the market engine, and the registration. A chain that
//! breaks on the way never reaches the registration, and leaves behind the
//! accounts it had created. Two chains for one key that were both started
//! before either registered will both register: the later one replaces the
//! entry of the earlier one, so the registry still holds one market under
//! the key.

use crate::params::{MarketParams, MarketParamsView};
use crate::table::{entries_map, entry_keys, Table};
use crate::text::{
    decimal, decimal_string, lemma_decimal_has_no_colon, lemma_decimal_injective,
    lemma_split_at_separator,
};
use vstd::prelude::*;
use vstd::string::*;

verus! {

/// What a new market account is funded with.
pub const MARKET_STORAGE: u128 = 10_000_000_000_000_000_000_000_000;

/// What a new claim-ledger account is funded with.
pub const TOKEN_STORAGE: u128 = 5_000_000_000_000_000_000_000_000;

/// The decimals of both claim tokens.
pub const CLAIM_DECIMALS: u8 = 24;

/// Why the orchestrator turned an operation down.
#[derive(Clone, Copy, Debug, PartialEq, Eq)]
pub enum FactoryError {
    /// Deployments are paused.
    Paused,
    /// No code is configured for the market engine.
    MarketCodeNotSet,
    /// No code is configured for one of the claim ledgers.
    TokenCodesNotSet,
    /// The attached funding does not cover three new accounts.
    InsufficientDeposit,
    /// A market is registered under the same dedupe key.
    MarketExists,
    /// The caller is not the owner.
    NotOwner,
    /// The caller is neither the owner nor the guardian.
    NotAuthorized,
    /// The deployment counter cannot advance.
    CounterOverflow,
}

impl FactoryError {
    /// The reason in words.
    pub open spec fn message_spec(self) -> Seq<char> {
        match self {
            FactoryError::Paused => "Factory is paused"@,
            FactoryError::MarketCodeNotSet => "Market code not set"@,
            FactoryError::TokenCodesNotSet => "Token codes not set"@,
            FactoryError::InsufficientDeposit => "Insufficient deposit for deployment"@,
            FactoryError::MarketExists => "Market already exists"@,
            FactoryError::NotOwner => "Only owner can call this method"@,
            FactoryError::NotAuthorized => "Not authorized"@,
            FactoryError::CounterOverflow => "Deployment counter overflow"@,
        }
    }

    /// The reason in words, to show to the caller.
    pub fn message(&self) -> (text: &'static str)
        ensures
            text@ == self.message_spec(),
    {
        match self {
            FactoryError::Paused => "Factory is paused",
            FactoryError::MarketCodeNotSet => "Market code not set",
            FactoryError::TokenCodesNotSet => "Token codes not set",
            FactoryError::InsufficientDeposit => "Insufficient deposit for deployment",
            FactoryError::MarketExists => "Market already exists",
            FactoryError::NotOwner => "Only owner can call this method",
            FactoryError::NotAuthorized => "Not authorized",
            FactoryError::CounterOverflow => "Deployment counter overflow",
        }
    }
}

/// The record of one deployed market.
#[derive(Debug, PartialEq, Eq)]
pub struct MarketInfo {
    pub market_id: String,
    pub long_token: String,
    pub short_token: String,
    pub params: MarketParams,
    pub created_at: u64,
    pub creator: String,
}

/// The record of a deployed market as plain values.
pub struct MarketInfoView {
    pub market_id: Seq<char>,
    pub long_token: Seq<char>,
    pub short_token: Seq<char>,
    pub params: MarketParamsView,
    pub created_at: u64,
    pub creator: Seq<char>,
}

impl View for MarketInfo {
    type V = MarketInfoView;

    open spec fn view(&self) -> MarketInfoView {
        MarketInfoView {
            market_id: self.market_id@,
            long_token: self.long_token@,
            short_token: self.short_token@,
            params: self.params@,
            created_at: self.created_at,
            creator: self.creator@,
        }
    }
}

impl DeepView for MarketInfo {
    type V = MarketInfoView;

    open spec fn deep_view(&self) -> MarketInfoView {
        self@
    }
}

impl Clone for MarketInfo {
    fn clone(&self) -> (copy: Self)
        ensures
            copy == *self,
    {
        MarketInfo {
            market_id: self.market_id.clone(),
            long_token: self.long_token.clone(),
            short_token: self.short_token.clone(),
            params: self.params.clone(),
            created_at: self.created_at,
            creator: self.creator.clone(),
        }
    }
}

/// One step of a deployment.
#[derive(Debug, PartialEq, Eq)]
pub enum DeployStep {
    /// Create the account of a claim ledger, fund it, deploy the code and
    /// initialize the ledger for its market.
    CreateClaimLedger {
        account_id: String,
        funding: u128,
        code: Vec<u8>,
        market: String,
        name: String,
        symbol: String,
        decimals: u8,
    },
    /// Create the account of the market engine, fund it, deploy the code and
    /// initialize the engine with both ledgers and its collaborators.
    CreateMarket {
        account_id: String,
        funding: u128,
        code: Vec<u8>,
        params: MarketParams,
        long_token: String,
        short_token: String,
        oracle: String,
        fee_collector: String,
        owner: String,
        guardian: String,
    },
    /// Record the market in the registry.
    Register { market_key: String, info: MarketInfo },
}

/// A deployment step as plain values.
pub enum DeployStepView {
    CreateClaimLedger {
        account_id: Seq<char>,
        funding: u128,
        code: Seq<u8>,
        market: Seq<char>,
        name: Seq<char>,
        symbol: Seq<char>,
        decimals: u8,
    },
    CreateMarket {
        account_id: Seq<char>,
        funding: u128,
        code: Seq<u8>,
        params: MarketParamsView,
        long_token: Seq<char>,
        short_token: Seq<char>,
        oracle: Seq<char>,
        fee_collector: Seq<char>,
        owner: Seq<char>,
        guardian: Seq<char>,
    },
    Register { market_key: Seq<char>, info: MarketInfoView },
}

impl View for DeployStep {
    type V = DeployStepView;

    open spec fn view(&self) -> DeployStepView {
        match *self {
            DeployStep::CreateClaimLedger {
                account_id,
                funding,
                code,
                market,
                name,
                symbol,
                decimals,
            } => DeployStepView::CreateClaimLedger {
                account_id: account_id@,
                funding,
                code: code@,
                market: market@,
                name: name@,
                symbol: symbol@,
                decimals,
            },
            DeployStep::CreateMarket {
                account_id,
                funding,
                code,
                params,
                long_token,
                short_token,
                oracle,
                fee_collector,
                owner,
                guardian,
            } => DeployStepView::CreateMarket {
                account_id: account_id@,
                funding,
                code: code@,
                params: params@,
                long_token: long_token@,
                short_token: short_token@,
                oracle: oracle@,
                fee_collector: fee_collector@,
                owner: owner@,
                guardian: guardian@,
            },
            DeployStep::Register { market_key, info } => DeployStepView::Register {
                market_key: market_key@,
                info: info@,
            },
        }
    }
}

impl DeepView for DeployStep {
    type V = DeployStepView;

    open spec fn deep_view(&self) -> DeployStepView {
        self@
    }
}

/// The dedupe keys of one creator's markets, in the order of registration.
#[derive(Debug, PartialEq, Eq)]
pub struct KeyList {
    pub keys: Vec<String>,
}

impl View for KeyList {
    type V = Seq<Seq<char>>;

    open spec fn view(&self) -> Seq<Seq<char>> {
        Seq::new(self.keys@.len(), |i: int| self.keys@[i]@)
    }
}

impl KeyList {
    fn new() -> (list: Self)
        ensures
            list@ == Seq::<Seq<char>>::empty(),
    {
        let list = KeyList { keys: Vec::new() };
        assert(list@ =~= Seq::<Seq<char>>::empty());
        list
    }

    fn push(&mut self, key: String)
        ensures
            final(self)@ == old(self)@.push(key@),
    {
        self.keys.push(key);
        assert(self@ =~= old(self)@.push(key@));
    }

    fn len(&self) -> (n: usize)
        ensures
            n == self@.len(),
    {
        self.keys.len()
    }

    fn key_at(&self, i: usize) -> (key: &String)
        requires
            i < self@.len(),
        ensures
            key@ == self@[i as int],
    {
        &self.keys[i]
    }
}

/// The dedupe key of a market: the two assets, the maturity, the strike and
/// the band, joined by colons. The fees are no part of it.
pub open spec fn market_key_spec(params: MarketParamsView) -> Seq<char> {
    params.underlying + ":"@ + params.quote + ":"@ + decimal(params.maturity as nat) + ":"@
        + decimal(params.strike_k as nat) + ":"@ + decimal(params.lower_bound_l as nat) + ":"@
        + decimal(params.upper_bound_u as nat)
}

/// The identifier of the account numbered `counter` of one kind under
/// `parent`: the kind's prefix, the number, a dot, and the parent.
pub open spec fn account_id_spec(prefix: Seq<char>, counter: u64, parent: Seq<char>) -> Seq<char> {
    prefix + decimal(counter as nat) + "."@ + parent
}

/// The dedupe key of `params`.
pub fn compute_market_key(params: &MarketParams) -> (key: String)
    ensures
        key@ == market_key_spec(params@),
{
    let mut key = params.underlying.clone();
    key.append(":");
    key.append(params.quote.as_str());
    key.append(":");
    key.append(decimal_string(params.maturity as u128).as_str());
    key.append(":");
    key.append(decimal_string(params.strike_k).as_str());
    key.append(":");
    key.append(decimal_string(params.lower_bound_l).as_str());
    key.append(":");
    key.append(decimal_string(params.upper_bound_u).as_str());
    key
}

fn account_id(prefix: &str, counter: u64, parent: &String) -> (id: String)
    ensures
        id@ == account_id_spec(prefix@, counter, parent@),
{
    let mut id = String::from_str(prefix);
    id.append(decimal_string(counter as u128).as_str());
    id.append(".");
    id.append(parent.as_str());
    id
}

fn claim_name(prefix: &str, underlying: &String) -> (name: String)
    ensures
        name@ == prefix@ + underlying@,
{
    let mut name = String::from_str(prefix);
    name.append(underlying.as_str());
    name
}

fn copy_bytes(bytes: &Vec<u8>) -> (copy: Vec<u8>)
    ensures
        copy@ == bytes@,
{
    let copy = bytes.clone();
    assert(copy@ =~= bytes@);
    copy
}

/// The orchestrator: who runs it, what it deploys, and what it has deployed.
pub struct ForwardFactory {
    owner: String,
    oracle: String,
    fee_collector: String,
    guardian: String,
    markets: Table<MarketInfo>,
    markets_by_creator: Table<KeyList>,
    market_code: Vec<u8>,
    long_token_code: Vec<u8>,
    short_token_code: Vec<u8>,
    paused: bool,
    deploy_counter: u64,
}

/// The orchestrator as plain values. `all_market_keys` lists the keys of
/// `markets` in the order in which they were first registered.
pub struct FactoryView {
    pub owner: Seq<char>,
    pub oracle: Seq<char>,
    pub fee_collector: Seq<char>,
    pub guardian: Seq<char>,
    pub markets: Map<Seq<char>, MarketInfoView>,
    pub all_market_keys: Seq<Seq<char>>,
    pub markets_by_creator: Map<Seq<char>, Seq<Seq<char>>>,
    pub market_code: Seq<u8>,
    pub long_token_code: Seq<u8>,
    pub short_token_code: Seq<u8>,
    pub paused: bool,
    pub deploy_counter: u64,
}

/// One operation on an orchestrator, with what it is given.
pub enum FactoryOp {
    DeployMarket {
        params: MarketParamsView,
        deposit: u128,
        creator: Seq<char>,
        current_account: Seq<char>,
        now: u64,
    },
    OnMarketDeployed { market_key: Seq<char>, info: MarketInfoView },
    SetContractCodes {
        caller: Seq<char>,
        market_code: Seq<u8>,
        long_token_code: Seq<u8>,
        short_token_code: Seq<u8>,
    },
    SetPaused { caller: Seq<char>, paused: bool },
    UpdateOracle { caller: Seq<char>, oracle: Seq<char> },
    UpdateFeeCollector { caller: Seq<char>, fee_collector: Seq<char> },
    UpdateGuardian { caller: Seq<char>, guardian: Seq<char> },
    UpdateOwner { caller: Seq<char>, owner: Seq<char> },
}

impl FactoryView {
    /// What holds of every orchestrator between operations: the index lists
    /// each registered key once, and every key in a creator's list is
    /// registered.
    pub open spec fn inv(self) -> bool {
        &&& self.all_market_keys.no_duplicates()
        &&& forall|k: Seq<char>| self.markets.contains_key(k) <==> self.all_market_keys.contains(k)
        &&& forall|c: Seq<char>, i: int|
            self.markets_by_creator.contains_key(c) && 0 <= i < self.markets_by_creator[c].len()
                ==> self.markets.contains_key(#[trigger] self.markets_by_creator[c][i])
    }

    /// A newly constructed orchestrator.
    pub open spec fn initial(
        owner: Seq<char>,
        oracle: Seq<char>,
        fee_collector: Seq<char>,
        guardian: Seq<char>,
    ) -> FactoryView {
        FactoryView {
            owner,
            oracle,
            fee_collector,
            guardian,
            markets: Map::empty(),
            all_market_keys: Seq::empty(),
            markets_by_creator: Map::empty(),
            market_code: Seq::empty(),
            long_token_code: Seq::empty(),
            short_token_code: Seq::empty(),
            paused: false,
            deploy_counter: 0,
        }
    }

    /// The keys that `creator` has registered, in order.
    pub open spec fn creator_keys(self, creator: Seq<char>) -> Seq<Seq<char>> {
        if self.markets_by_creator.contains_key(creator) {
            self.markets_by_creator[creator]
        } else {
            Seq::empty()
        }
    }

    /// The first reason, if any, for which a deployment of `params` funded
    /// with `deposit` is turned down.
    pub open spec fn deploy_error(self, params: MarketParamsView, deposit: u128) -> Option<
        FactoryError,
    > {
        if self.paused {
            Some(FactoryError::Paused)
        } else if self.market_code.len() == 0 {
            Some(FactoryError::MarketCodeNotSet)
        } else if self.long_token_code.len() == 0 || self.short_token_code.len() == 0 {
            Some(FactoryError::TokenCodesNotSet)
        } else if deposit < MARKET_STORAGE + 2 * TOKEN_STORAGE {
            Some(FactoryError::InsufficientDeposit)
        } else if self.markets.contains_key(market_key_spec(params)) {
            Some(FactoryError::MarketExists)
        } else if self.deploy_counter == u64::MAX {
            Some(FactoryError::CounterOverflow)
        } else {
            None
        }
    }

    /// The record of the market that deployment number `number` creates for
    /// `params` under `current_account`.
    pub open spec fn planned_info(
        params: MarketParamsView,
        number: u64,
        creator: Seq<char>,
        current_account: Seq<char>,
        now: u64,
    ) -> MarketInfoView {
        MarketInfoView {
            market_id: account_id_spec("market-"@, number, current_account),
            long_token: account_id_spec("long-"@, number, current_account),
            short_token: account_id_spec("short-"@, number, current_account),
            params,
            created_at: now,
            creator,
        }
    }

    /// The four steps of deployment number `number`, in the order in which
    /// they run.
    pub open spec fn deploy_steps(
        self,
        params: MarketParamsView,
        number: u64,
        creator: Seq<char>,
        current_account: Seq<char>,
        now: u64,
    ) -> Seq<DeployStepView> {
        let info = Self::planned_info(params, number, creator, current_account, now);
        seq![
            DeployStepView::CreateClaimLedger {
                account_id: info.long_token,
                funding: TOKEN_STORAGE,
                code: self.long_token_code,
                market: info.market_id,
                name: "LONG-"@ + params.underlying,
                symbol: "LONG"@,
                decimals: CLAIM_DECIMALS,
            },
            DeployStepView::CreateClaimLedger {
                account_id: info.short_token,
                funding: TOKEN_STORAGE,
                code: self.short_token_code,
                market: info.market_id,
                name: "SHORT-"@ + params.underlying,
                symbol: "SHORT"@,
                decimals: CLAIM_DECIMALS,
            },
            DeployStepView::CreateMarket {
                account_id: info.market_id,
                funding: MARKET_STORAGE,
                code: self.market_code,
                params,
                long_token: info.long_token,
                short_token: info.short_token,
                oracle: self.oracle,
                fee_collector: self.fee_collector,
                owner: self.owner,
                guardian: self.guardian,
            },
            DeployStepView::Register { market_key: market_key_spec(params), info },
        ]
    }

    /// Starting a deployment: the counter advances and the steps are planned;
    /// the registry changes only when the last step runs.
    pub open spec fn deploy_market(
        self,
        params: MarketParamsView,
        deposit: u128,
        creator: Seq<char>,
        current_account: Seq<char>,
        now: u64,
    ) -> Result<(FactoryView, Seq<DeployStepView>), FactoryError> {
        match self.deploy_error(params, deposit) {
            Some(e) => Err(e),
            None => {
                let number = (self.deploy_counter + 1) as u64;
                Ok(
                    (
                        FactoryView { deploy_counter: number, ..self },
                        self.deploy_steps(params, number, creator, current_account, now),
                    ),
                )
            },
        }
    }

    /// The registration that ends a deployment: the record goes under its
    /// key, a key that is new goes to the end of the index, and the key is
    /// appended to its creator's list.
    pub open spec fn on_market_deployed(
        self,
        market_key: Seq<char>,
        info: MarketInfoView,
    ) -> FactoryView {
        FactoryView {
            markets: self.markets.insert(market_key, info),
            all_market_keys: if self.markets.contains_key(market_key) {
                self.all_market_keys
            } else {
                self.all_market_keys.push(market_key)
            },
            markets_by_creator: self.markets_by_creator.insert(
                info.creator,
                self.creator_keys(info.creator).push(market_key),
            ),
            ..self
        }
    }

    /// Replacing the deployable code as `caller`.
    pub open spec fn set_contract_codes(
        self,
        caller: Seq<char>,
        market_code: Seq<u8>,
        long_token_code: Seq<u8>,
        short_token_code: Seq<u8>,
    ) -> Result<FactoryView, FactoryError> {
        if caller == self.owner {
            Ok(FactoryView { market_code, long_token_code, short_token_code, ..self })
        } else {
            Err(FactoryError::NotOwner)
        }
    }

    /// Pausing or resuming deployments as `caller`.
    pub open spec fn set_paused(self, caller: Seq<char>, paused: bool) -> Result<
        FactoryView,
        FactoryError,
    > {
        if caller == self.guardian || caller == self.owner {
            Ok(FactoryView { paused, ..self })
        } else {
            Err(FactoryError::NotAuthorized)
        }
    }

    /// Naming another oracle as `caller`.
    pub open spec fn update_oracle(self, caller: Seq<char>, oracle: Seq<char>) -> Result<
        FactoryView,
        FactoryError,
    > {
        if caller == self.owner {
            Ok(FactoryView { oracle, ..self })
        } else {
            Err(FactoryError::NotOwner)
        }
    }

    /// Naming another fee collector as `caller`.
    pub open spec fn update_fee_collector(
        self,
        caller: Seq<char>,
        fee_collector: Seq<char>,
    ) -> Result<FactoryView, FactoryError> {
        if caller == self.owner {
            Ok(FactoryView { fee_collector, ..self })
        } else {
            Err(FactoryError::NotOwner)
        }
    }

    /// Naming another guardian as `caller`.
    pub open spec fn update_guardian(self, caller: Seq<char>, guardian: Seq<char>) -> Result<
        FactoryView,
        FactoryError,
    > {
        if caller == self.owner {
            Ok(FactoryView { guardian, ..self })
        } else {
            Err(FactoryError::NotOwner)
        }
    }

    /// Naming another owner as `caller`.
    pub open spec fn update_owner(self, caller: Seq<char>, owner: Seq<char>) -> Result<
        FactoryView,
        FactoryError,
    > {
        if caller == self.owner {
            Ok(FactoryView { owner, ..self })
        } else {
            Err(FactoryError::NotOwner)
        }
    }

    /// The orchestrator after `op`: as the operation leaves it, or unchanged
    /// where the operation is turned down.
    pub open spec fn after(self, op: FactoryOp) -> FactoryView {
        let unchanged: Result<FactoryView, FactoryError> = Ok(self);
        let outcome = match op {
            FactoryOp::DeployMarket { params, deposit, creator, current_account, now } => {
                match self.deploy_market(params, deposit, creator, current_account, now) {
                    Ok((next, _)) => Ok(next),
                    Err(_) => unchanged,
                }
            },
            FactoryOp::OnMarketDeployed { market_key, info } => Ok(
                self.on_market_deployed(market_key, info),
            ),
            FactoryOp::SetContractCodes {
                caller,
                market_code,
                long_token_code,
                short_token_code,
            } => self.set_contract_codes(caller, market_code, long_token_code, short_token_code),
            FactoryOp::SetPaused { caller, paused } => self.set_paused(caller, paused),
            FactoryOp::UpdateOracle { caller, oracle } => self.update_oracle(caller, oracle),
            FactoryOp::UpdateFeeCollector { caller, fee_collector } => self.update_fee_collector(
                caller,
                fee_collector,
            ),
            FactoryOp::UpdateGuardian { caller, guardian } => self.update_guardian(
                caller,
                guardian,
            ),
            FactoryOp::UpdateOwner { caller, owner } => self.update_owner(caller, owner),
        };
        match outcome {
            Ok(next) => next,
            Err(_) => self,
        }
    }

    /// The orchestrator after the operations `ops`, one after the other.
    pub open spec fn after_all(self, ops: Seq<FactoryOp>) -> FactoryView
        decreases ops.len(),
    {
        if ops.len() == 0 {
            self
        } else {
            self.after_all(ops.drop_last()).after(ops.last())
        }
    }

    /// The market registered under `market_key`, if there is one.
    pub open spec fn get_market(self, market_key: Seq<char>) -> Option<MarketInfoView> {
        if self.markets.contains_key(market_key) {
            Some(self.markets[market_key])
        } else {
            None
        }
    }

    /// The markets that `creator` has registered, in order.
    pub open spec fn markets_of(self, creator: Seq<char>) -> Seq<MarketInfoView> {
        let keys = self.creator_keys(creator);
        Seq::new(keys.len(), |i: int| self.markets[keys[i]])
    }

    /// Up to `limit` markets of the index, from place `from_index` on.
    pub open spec fn page(self, from_index: u64, limit: u64) -> Seq<MarketInfoView> {
        let n = self.all_market_keys.len() as int;
        let start = if from_index < n {
            from_index as int
        } else {
            n
        };
        let end = if from_index + limit < n {
            from_index + limit
        } else {
            n
        };
        Seq::new((end - start) as nat, |i: int| self.markets[self.all_market_keys[start + i]])
    }
}

/// Everything that an orchestrator holds, as plain data to store and to
/// load. The markets stand in the order of the index.
#[derive(Debug, PartialEq, Eq)]
pub struct FactoryRecord {
    pub owner: String,
    pub oracle: String,
    pub fee_collector: String,
    pub guardian: String,
    pub markets: Vec<(String, MarketInfo)>,
    pub markets_by_creator: Vec<(String, KeyList)>,
    pub market_code: Vec<u8>,
    pub long_token_code: Vec<u8>,
    pub short_token_code: Vec<u8>,
    pub paused: bool,
    pub deploy_counter: u64,
}

impl View for FactoryRecord {
    type V = FactoryView;

    open spec fn view(&self) -> FactoryView {
        FactoryView {
            owner: self.owner@,
            oracle: self.oracle@,
            fee_collector: self.fee_collector@,
            guardian: self.guardian@,
            markets: entries_map(self.markets@),
            all_market_keys: entry_keys(self.markets@),
            markets_by_creator: entries_map(self.markets_by_creator@),
            market_code: self.market_code@,
            long_token_code: self.long_token_code@,
            short_token_code: self.short_token_code@,
            paused: self.paused,
            deploy_counter: self.deploy_counter,
        }
    }
}

impl FactoryRecord {
    /// Whether the record is that of an orchestrator: no key and no creator
    /// occurs twice, and the registry invariant holds.
    pub open spec fn valid(&self) -> bool {
        &&& entry_keys(self.markets@).no_duplicates()
        &&& entry_keys(self.markets_by_creator@).no_duplicates()
        &&& self@.inv()
    }
}

impl View for ForwardFactory {
    type V = FactoryView;

    closed spec fn view(&self) -> FactoryView {
        FactoryView {
            owner: self.owner@,
            oracle: self.oracle@,
            fee_collector: self.fee_collector@,
            guardian: self.guardian@,
            markets: self.markets@,
            all_market_keys: self.markets.keys(),
            markets_by_creator: self.markets_by_creator@,
            market_code: self.market_code@,
            long_token_code: self.long_token_code@,
            short_token_code: self.short_token_code@,
            paused: self.paused,
            deploy_counter: self.deploy_counter,
        }
    }
}

impl ForwardFactory {
    /// The orchestrator's tables are well formed and its registry is
    /// consistent.
    pub closed spec fn wf(&self) -> bool {
        &&& self.markets.wf()
        &&& self.markets_by_creator.wf()
        &&& self@.inv()
    }

    /// A well-formed orchestrator satisfies the registry invariant.
    pub proof fn lemma_wf_inv(&self)
        requires
            self.wf(),
        ensures
            self@.inv(),
    {
    }

    /// Whether every key in a creator's list is registered.
    fn lists_registered(markets: &Table<MarketInfo>, lists: &Table<KeyList>) -> (ok: bool)
        requires
            markets.wf(),
            lists.wf(),
        ensures
            ok == (forall|c: Seq<char>, i: int|
                lists@.contains_key(c) && 0 <= i < lists@[c].len() ==> markets@.contains_key(
                    #[trigger] lists@[c][i],
                )),
    {
        proof {
            lists.lemma_keys();
        }
        let n = lists.len();
        let mut j: usize = 0;
        while j < n
            invariant
                markets.wf(),
                lists.wf(),
                n == lists.keys().len(),
                j <= n,
                forall|k: Seq<char>| lists@.contains_key(k) <==> lists.keys().contains(k),
                forall|a: int, i: int|
                    0 <= a < j && 0 <= i < lists@[lists.keys()[a]].len() ==> markets@.contains_key(
                        #[trigger] lists@[lists.keys()[a]][i],
                    ),
            decreases n - j,
        {
            let list = lists.value_at(j);
            let m = list.len();
            let mut i: usize = 0;
            while i < m
                invariant
                    markets.wf(),
                    j < lists.keys().len(),
                    lists@.contains_key(lists.keys()[j as int]),
                    list@ == lists@[lists.keys()[j as int]],
                    m == list@.len(),
                    i <= m,
                    forall|b: int| 0 <= b < i ==> markets@.contains_key(#[trigger] list@[b]),
                decreases m - i,
            {
                if !markets.contains_key(list.key_at(i)) {
                    return false;
                }
                i += 1;
            }
            j += 1;
        }
        proof {
            assert forall|c: Seq<char>, i: int|
                lists@.contains_key(c) && 0 <= i < lists@[c].len() implies markets@.contains_key(
                #[trigger] lists@[c][i],
            ) by {
                assert(lists.keys().contains(c));
                let a = lists.keys().index_of(c);
                assert(0 <= a < n && lists.keys()[a] == c);
                assert(markets@.contains_key(lists@[lists.keys()[a]][i]));
            }
        }
        true
    }

    /// Takes the orchestrator apart into a record of everything it holds.
    pub fn into_record(self) -> (record: FactoryRecord)
        requires
            self.wf(),
        ensures
            record.valid(),
            record@ == self@,
    {
        let ForwardFactory {
            owner,
            oracle,
            fee_collector,
            guardian,
            markets,
            markets_by_creator,
            market_code,
            long_token_code,
            short_token_code,
            paused,
            deploy_counter,
        } = self;
        proof {
            markets.lemma_keys();
            markets_by_creator.lemma_keys();
        }
        FactoryRecord {
            owner,
            oracle,
            fee_collector,
            guardian,
            markets: markets.into_entries(),
            markets_by_creator: markets_by_creator.into_entries(),
            market_code,
            long_token_code,
            short_token_code,
            paused,
            deploy_counter,
        }
    }

    /// Puts an orchestrator together from a record, if the record is that of
    /// an orchestrator.
    pub fn from_record(record: FactoryRecord) -> (r: Option<ForwardFactory>)
        ensures
            r is Some <==> record.valid(),
            match r {
                Some(factory) => factory.wf() && factory@ == record@,
                None => true,
            },
    {
        let FactoryRecord {
            owner,
            oracle,
            fee_collector,
            guardian,
            markets,
            markets_by_creator,
            market_code,
            long_token_code,
            short_token_code,
            paused,
            deploy_counter,
        } = record;
        let markets = match Table::from_entries(markets) {
            Some(table) => table,
            None => {
                return None;
            },
        };
        let markets_by_creator = match Table::from_entries(markets_by_creator) {
            Some(table) => table,
            None => {
                return None;
            },
        };
        if !Self::lists_registered(&markets, &markets_by_creator) {
            proof {
                let (c, i) = choose|c: Seq<char>, i: int|
                    markets_by_creator@.contains_key(c) && 0 <= i < markets_by_creator@[c].len()
                        && !markets@.contains_key(#[trigger] markets_by_creator@[c][i]);
                assert(!record@.markets.contains_key(record@.markets_by_creator[c][i]));
            }
            return None;
        }
        proof {
            markets.lemma_keys();
        }
        Some(
            ForwardFactory {
                owner,
                oracle,
                fee_collector,
                guardian,
                markets,
                markets_by_creator,
                market_code,
                long_token_code,
                short_token_code,
                paused,
                deploy_counter,
            },
        )
    }

    /// An orchestrator with no code configured and no market registered.
    pub fn new(owner: String, oracle: String, fee_collector: String, guardian: String) -> (factory:
        Self)
        ensures
            factory.wf(),
            factory@ == FactoryView::initial(owner@, oracle@, fee_collector@, guardian@),
    {
        ForwardFactory {
            owner,
            oracle,
            fee_collector,
            guardian,
            markets: Table::new(),
            markets_by_creator: Table::new(),
            market_code: Vec::new(),
            long_token_code: Vec::new(),
            short_token_code: Vec::new(),
            paused: false,
            deploy_counter: 0,
        }
    }

    /// Replaces the code of the market engine and of both claim ledgers.
    /// Only the owner may.
    pub fn set_contract_codes(
        &mut self,
        caller: &String,
        market_code: Vec<u8>,
        long_token_code: Vec<u8>,
        short_token_code: Vec<u8>,
    ) -> (r: Result<(), FactoryError>)
        requires
            old(self).wf(),
        ensures
            final(self).wf(),
            match old(self)@.set_contract_codes(
                caller@,
                market_code@,
                long_token_code@,
                short_token_code@,
            ) {
                Ok(next) => r is Ok && final(self)@ == next,
                Err(e) => r == Err::<(), FactoryError>(e) && final(self)@ == old(self)@,
            },
    {
        if !(*caller == self.owner) {
            return Err(FactoryError::NotOwner);
        }
        self.market_code = market_code;
        self.long_token_code = long_token_code;
        self.short_token_code = short_token_code;
        Ok(())
    }

    /// Starts the deployment of a market for `creator`, funded with
    /// `attached_deposit`, under the orchestrator's account
    /// `current_account` at time `now`. The three account identifiers come
    /// from the deployment counter, which advances with every deployment
    /// that is started, whether or not its chain completes.
    pub fn deploy_market(
        &mut self,
        params: MarketParams,
        attached_deposit: u128,
        creator: String,
        current_account: &String,
        now: u64,
    ) -> (r: Result<Vec<DeployStep>, FactoryError>)
        requires
            old(self).wf(),
        ensures
            final(self).wf(),
            match old(self)@.deploy_market(
                params@,
                attached_deposit,
                creator@,
                current_account@,
                now,
            ) {
                Ok((next, steps)) => r is Ok && final(self)@ == next && r.unwrap().deep_view()
                    == steps,
                Err(e) => r == Err::<Vec<DeployStep>, FactoryError>(e) && final(self)@ == old(
                    self,
                )@,
            },
    {
        if self.paused {
            return Err(FactoryError::Paused);
        }
        if self.market_code.len() == 0 {
            return Err(FactoryError::MarketCodeNotSet);
        }
        if self.long_token_code.len() == 0 || self.short_token_code.len() == 0 {
            return Err(FactoryError::TokenCodesNotSet);
        }
        if attached_deposit < MARKET_STORAGE + 2 * TOKEN_STORAGE {
            return Err(FactoryError::InsufficientDeposit);
        }
        let market_key = compute_market_key(&params);
        if self.markets.contains_key(&market_key) {
            return Err(FactoryError::MarketExists);
        }
        if self.deploy_counter == u64::MAX {
            return Err(FactoryError::CounterOverflow);
        }
        self.deploy_counter = self.deploy_counter + 1;
        let market_id = account_id("market-", self.deploy_counter, current_account);
        let long_token_id = account_id("long-", self.deploy_counter, current_account);
        let short_token_id = account_id("short-", self.deploy_counter, current_account);
        let mut steps: Vec<DeployStep> = Vec::new();
        steps.push(
            DeployStep::CreateClaimLedger {
                account_id: long_token_id.clone(),
                funding: TOKEN_STORAGE,
                code: copy_bytes(&self.long_token_code),
                market: market_id.clone(),
                name: claim_name("LONG-", &params.underlying),
                symbol: String::from_str("LONG"),
                decimals: CLAIM_DECIMALS,
            },
        );
        steps.push(
            DeployStep::CreateClaimLedger {
                account_id: short_token_id.clone(),
                funding: TOKEN_STORAGE,
                code: copy_bytes(&self.short_token_code),
                market: market_id.clone(),
                name: claim_name("SHORT-", &params.underlying),
                symbol: String::from_str("SHORT"),
                decimals: CLAIM_DECIMALS,
            },
        );
        steps.push(
            DeployStep::CreateMarket {
                account_id: market_id.clone(),
                funding: MARKET_STORAGE,
                code: copy_bytes(&self.market_code),
                params: params.clone(),
                long_token: long_token_id.clone(),
                short_token: short_token_id.clone(),
                oracle: self.oracle.clone(),
                fee_collector: self.fee_collector.clone(),
                owner: self.owner.clone(),
                guardian: self.guardian.clone(),
            },
        );
        steps.push(
            DeployStep::Register {
                market_key,
                info: MarketInfo {
                    market_id,
                    long_token: long_token_id,
                    short_token: short_token_id,
                    params,
                    created_at: now,
                    creator,
                },
            },
        );
        assert(steps.deep_view() =~= old(self)@.deploy_steps(
            params@,
            self.deploy_counter,
            creator@,
            current_account@,
            now,
        ));
        Ok(steps)
    }

    /// The last step of a deployment: registers `market_info` under
    /// `market_key`. No check for a duplicate is made here; a record that is
    /// already under the key is replaced.
    pub fn on_market_deployed(&mut self, market_key: String, market_info: MarketInfo)
        requires
            old(self).wf(),
        ensures
            final(self).wf(),
            final(self)@ == old(self)@.on_market_deployed(market_key@, market_info@),
    {
        let creator = market_info.creator.clone();
        proof {
            self.markets.lemma_keys();
        }
        self.markets.insert(market_key.clone(), market_info);
        let mut list = match self.markets_by_creator.remove(&creator) {
            Some(list) => list,
            None => KeyList::new(),
        };
        list.push(market_key);
        self.markets_by_creator.insert(creator, list);
        proof {
            self.markets.lemma_keys();
            assert(self@.markets_by_creator =~= old(self)@.markets_by_creator.insert(
                creator@,
                old(self)@.creator_keys(creator@).push(market_key@),
            ));
        }
    }

    /// The market registered under `market_key`, if there is one.
    pub fn get_market(&self, market_key: &String) -> (market: Option<MarketInfo>)
        requires
            self.wf(),
        ensures
            market.deep_view() == self@.get_market(market_key@),
    {
        match self.markets.get(market_key) {
            Some(info) => Some(info.clone()),
            None => None,
        }
    }

    /// The market registered under the dedupe key of `params`, if there is
    /// one.
    pub fn get_market_by_params(&self, params: &MarketParams) -> (market: Option<MarketInfo>)
        requires
            self.wf(),
        ensures
            market.deep_view() == self@.get_market(market_key_spec(params@)),
    {
        let key = compute_market_key(params);
        self.get_market(&key)
    }

    /// The markets that `creator` has registered, in the order of
    /// registration.
    pub fn get_markets_by_creator(&self, creator: &String) -> (markets: Vec<MarketInfo>)
        requires
            self.wf(),
        ensures
            markets.deep_view() == self@.markets_of(creator@),
    {
        let mut markets: Vec<MarketInfo> = Vec::new();
        match self.markets_by_creator.get(creator) {
            Some(list) => {
                let n = list.len();
                let mut i: usize = 0;
                while i < n
                    invariant
                        self.wf(),
                        n == list@.len(),
                        i <= n,
                        markets@.len() == i,
                        list@ == self@.creator_keys(creator@),
                        self@.markets_by_creator.contains_key(creator@),
                        markets.deep_view() =~= Seq::new(
                            i as nat,
                            |j: int| self@.markets[list@[j]],
                        ),
                    decreases n - i,
                {
                    let key = list.key_at(i);
                    assert(self@.markets.contains_key(
                        self@.markets_by_creator[creator@][i as int],
                    ));
                    let ghost before = markets;
                    match self.markets.get(key) {
                        Some(info) => {
                            markets.push(info.clone());
                        },
                        None => {},
                    }
                    proof {
                        assert forall|j: int| 0 <= j < i + 1 implies #[trigger]
                            markets.deep_view()[j] == self@.markets[list@[j]] by {
                            if j < i {
                                assert(markets@[j] == before@[j]);
                                assert(before.deep_view()[j] == self@.markets[list@[j]]);
                            }
                        }
                    }
                    i += 1;
                }
            },
            None => {},
        }
        assert(markets.deep_view() =~= self@.markets_of(creator@));
        markets
    }

    /// Up to `limit` registered markets in the order of registration,
    /// skipping the first `from_index`.
    pub fn get_all_markets(&self, from_index: u64, limit: u64) -> (markets: Vec<MarketInfo>)
        requires
            self.wf(),
        ensures
            markets.deep_view() == self@.page(from_index, limit),
    {
        let mut markets: Vec<MarketInfo> = Vec::new();
        let n = self.markets.len();
        if from_index >= n as u64 {
            assert(markets.deep_view() =~= self@.page(from_index, limit));
            return markets;
        }
        let start = from_index as usize;
        let count: usize = if limit < (n - start) as u64 {
            limit as usize
        } else {
            n - start
        };
        let mut i: usize = 0;
        while i < count
            invariant
                self.wf(),
                n == self@.all_market_keys.len(),
                start + count <= n,
                i <= count,
                markets@.len() == i,
                markets.deep_view() =~= Seq::new(
                    i as nat,
                    |j: int| self@.markets[self@.all_market_keys[start + j]],
                ),
            decreases count - i,
        {
            let ghost before = markets;
            let info = self.markets.value_at(start + i);
            markets.push(info.clone());
            proof {
                assert forall|j: int| 0 <= j < i + 1 implies #[trigger] markets.deep_view()[j]
                    == self@.markets[self@.all_market_keys[start + j]] by {
                    if j < i {
                        assert(markets@[j] == before@[j]);
                        assert(before.deep_view()[j] == self@.markets[self@.all_market_keys[start
                            + j]]);
                    }
                }
            }
            i += 1;
        }
        assert(markets.deep_view() =~= self@.page(from_index, limit));
        markets
    }

    /// The number of registered markets.
    pub fn get_market_count(&self) -> (count: u64)
        requires
            self.wf(),
        ensures
            count == self@.all_market_keys.len(),
            count == self@.markets.dom().len(),
    {
        self.markets.len() as u64
    }

    /// Pauses or resumes deployments. Only the guardian and the owner may.
    pub fn set_paused(&mut self, caller: &String, paused: bool) -> (r: Result<(), FactoryError>)
        requires
            old(self).wf(),
        ensures
            final(self).wf(),
            match old(self)@.set_paused(caller@, paused) {
                Ok(next) => r is Ok && final(self)@ == next,
                Err(e) => r == Err::<(), FactoryError>(e) && final(self)@ == old(self)@,
            },
    {
        if *caller == self.guardian || *caller == self.owner {
            self.paused = paused;
            Ok(())
        } else {
            Err(FactoryError::NotAuthorized)
        }
    }

    /// Names another oracle for markets deployed from now on. Only the
    /// owner may.
    pub fn update_oracle(&mut self, caller: &String, oracle: String) -> (r: Result<
        (),
        FactoryError,
    >)
        requires
            old(self).wf(),
        ensures
            final(self).wf(),
            match old(self)@.update_oracle(caller@, oracle@) {
                Ok(next) => r is Ok && final(self)@ == next,
                Err(e) => r == Err::<(), FactoryError>(e) && final(self)@ == old(self)@,
            },
    {
        if !(*caller == self.owner) {
            return Err(FactoryError::NotOwner);
        }
        self.oracle = oracle;
        Ok(())
    }

    /// Names another fee collector for markets deployed from now on. Only
    /// the owner may.
    pub fn update_fee_collector(&mut self, caller: &String, fee_collector: String) -> (r: Result<
        (),
        FactoryError,
    >)
        requires
            old(self).wf(),
        ensures
            final(self).wf(),
            match old(self)@.update_fee_collector(caller@, fee_collector@) {
                Ok(next) => r is Ok && final(self)@ == next,
                Err(e) => r == Err::<(), FactoryError>(e) && final(self)@ == old(self)@,
            },
    {
        if !(*caller == self.owner) {
            return Err(FactoryError::NotOwner);
        }
        self.fee_collector = fee_collector;
        Ok(())
    }

    /// Names another guardian. Only the owner may.
    pub fn update_guardian(&mut self, caller: &String, guardian: String) -> (r: Result<
        (),
        FactoryError,
    >)
        requires
            old(self).wf(),
        ensures
            final(self).wf(),
            match old(self)@.update_guardian(caller@, guardian@) {
                Ok(next) => r is Ok && final(self)@ == next,
                Err(e) => r == Err::<(), FactoryError>(e) && final(self)@ == old(self)@,
            },
    {
        if !(*caller == self.owner) {
            return Err(FactoryError::NotOwner);
        }
        self.guardian = guardian;
        Ok(())
    }

    /// Hands the orchestrator to another owner. Only the owner may.
    pub fn update_owner(&mut self, caller: &String, owner: String) -> (r: Result<(), FactoryError>)
        requires
            old(self).wf(),
        ensures
            final(self).wf(),
            match old(self)@.update_owner(caller@, owner@) {
                Ok(next) => r is Ok && final(self)@ == next,
                Err(e) => r == Err::<(), FactoryError>(e) && final(self)@ == old(self)@,
            },
    {
        if !(*caller == self.owner) {
            return Err(FactoryError::NotOwner);
        }
        self.owner = owner;
        Ok(())
    }
}

/// Whether two sets of parameters describe the same market economically:
/// they agree in everything but, possibly, the fees.
pub open spec fn same_economics(a: MarketParamsView, b: MarketParamsView) -> bool {
    &&& a.underlying == b.underlying
    &&& a.quote == b.quote
    &&& a.maturity == b.maturity
    &&& a.strike_k == b.strike_k
    &&& a.lower_bound_l == b.lower_bound_l
    &&& a.upper_bound_u == b.upper_bound_u
}

/// Parameters that differ at most in their fees have the same dedupe key.
pub proof fn lemma_market_key_ignores_fees(a: MarketParamsView, b: MarketParamsView)
    requires
        same_economics(a, b),
    ensures
        market_key_spec(a) == market_key_spec(b),
{
}

/// Registration keeps the registry consistent.
pub proof fn lemma_registration_keeps_inv(
    factory: FactoryView,
    market_key: Seq<char>,
    info: MarketInfoView,
)
    requires
        factory.inv(),
    ensures
        factory.on_market_deployed(market_key, info).inv(),
{
    let next = factory.on_market_deployed(market_key, info);
    assert(next.all_market_keys.no_duplicates()) by {
        if !factory.markets.contains_key(market_key) {
            assert forall|i: int, j: int|
                0 <= i < next.all_market_keys.len() && 0 <= j < next.all_market_keys.len() && i
                    != j implies next.all_market_keys[i] != next.all_market_keys[j] by {
                let n = factory.all_market_keys.len() as int;
                if i < n {
                    assert(factory.all_market_keys.contains(factory.all_market_keys[i]));
                }
                if j < n {
                    assert(factory.all_market_keys.contains(factory.all_market_keys[j]));
                }
            }
        }
    }
    assert forall|k: Seq<char>| next.markets.contains_key(k) <==> next.all_market_keys.contains(
        k,
    ) by {
        if factory.markets.contains_key(market_key) {
        } else {
            let n = factory.all_market_keys.len() as int;
            assert(next.all_market_keys[n] == market_key);
            if factory.all_market_keys.contains(k) {
                let i = choose|i: int|
                    0 <= i < factory.all_market_keys.len() && factory.all_market_keys[i] == k;
                assert(next.all_market_keys[i] == k);
            }
        }
    }
    assert forall|c: Seq<char>, i: int|
        next.markets_by_creator.contains_key(c) && 0 <= i < next.markets_by_creator[c].len()
        implies next.markets.contains_key(#[trigger] next.markets_by_creator[c][i]) by {
        if c == info.creator {
            if i < factory.creator_keys(c).len() {
                assert(factory.markets.contains_key(factory.markets_by_creator[c][i]));
            }
        } else {
            assert(factory.markets.contains_key(factory.markets_by_creator[c][i]));
        }
    }
}

/// Once a deployment has registered its market, a deployment of parameters
/// with the same economics is turned down, whatever its fees: as a
/// duplicate, unless the orchestrator turns it down for an earlier reason.
pub proof fn lemma_duplicate_rejected(
    factory: FactoryView,
    first: MarketParamsView,
    first_deposit: u128,
    first_creator: Seq<char>,
    second: MarketParamsView,
    second_deposit: u128,
    second_creator: Seq<char>,
    current_account: Seq<char>,
    first_time: u64,
    second_time: u64,
)
    requires
        same_economics(first, second),
        factory.deploy_market(first, first_deposit, first_creator, current_account, first_time)
            is Ok,
    ensures
        ({
            let (started, steps) = factory.deploy_market(
                first,
                first_deposit,
                first_creator,
                current_account,
                first_time,
            ).unwrap();
            let registered = started.on_market_deployed(
                market_key_spec(first),
                FactoryView::planned_info(
                    first,
                    started.deploy_counter,
                    first_creator,
                    current_account,
                    first_time,
                ),
            );
            let second_try = registered.deploy_market(
                second,
                second_deposit,
                second_creator,
                current_account,
                second_time,
            );
            &&& steps[3] == DeployStepView::Register {
                market_key: market_key_spec(first),
                info: FactoryView::planned_info(
                    first,
                    started.deploy_counter,
                    first_creator,
                    current_account,
                    first_time,
                ),
            }
            &&& second_try is Err
            &&& second_deposit >= MARKET_STORAGE + 2 * TOKEN_STORAGE ==> second_try == Err::<
                (FactoryView, Seq<DeployStepView>),
                FactoryError,
            >(FactoryError::MarketExists)
        }),
{
    lemma_market_key_ignores_fees(first, second);
}

/// Two registrations under one key leave one market under it: the second
/// record replaces the first, and the index and the count stay as the first
/// registration left them.
pub proof fn lemma_one_market_per_key(
    factory: FactoryView,
    market_key: Seq<char>,
    first: MarketInfoView,
    second: MarketInfoView,
)
    requires
        factory.inv(),
    ensures
        ({
            let once = factory.on_market_deployed(market_key, first);
            let twice = once.on_market_deployed(market_key, second);
            &&& twice.inv()
            &&& twice.all_market_keys == once.all_market_keys
            &&& twice.markets.dom() == once.markets.dom()
            &&& twice.get_market(market_key) == Some(second)
        }),
{
    let once = factory.on_market_deployed(market_key, first);
    let twice = once.on_market_deployed(market_key, second);
    lemma_registration_keeps_inv(factory, market_key, first);
    lemma_registration_keeps_inv(once, market_key, second);
    assert(twice.markets.dom() =~= once.markets.dom());
}

/// Accounts of one kind under one parent have different identifiers where
/// their numbers differ: an identifier is never used twice while the
/// counter advances.
pub proof fn lemma_account_ids_differ(prefix: Seq<char>, a: u64, b: u64, parent: Seq<char>)
    requires
        a != b,
    ensures
        account_id_spec(prefix, a, parent) != account_id_spec(prefix, b, parent),
{
    let da = decimal(a as nat);
    let db = decimal(b as nat);
    let ia = account_id_spec(prefix, a, parent);
    let ib = account_id_spec(prefix, b, parent);
    if ia == ib {
        let start = prefix.len() as int;
        assert(ia.len() == prefix.len() + da.len() + "."@.len() + parent.len());
        assert(ib.len() == prefix.len() + db.len() + "."@.len() + parent.len());
        assert(da =~= ia.subrange(start, start + da.len()));
        assert(db =~= ib.subrange(start, start + db.len()));
        lemma_decimal_injective(a as nat, b as nat);
    }
}

/// No operation breaks the registry invariant, takes a market out of the
/// registry, reorders the index, or turns the deployment counter back.
pub proof fn lemma_operation_keeps_registry(factory: FactoryView, op: FactoryOp)
    requires
        factory.inv(),
    ensures
        factory.after(op).inv(),
        factory.all_market_keys.is_prefix_of(factory.after(op).all_market_keys),
        factory.deploy_counter <= factory.after(op).deploy_counter,
{
    if let FactoryOp::OnMarketDeployed { market_key, info } = op {
        lemma_registration_keeps_inv(factory, market_key, info);
    }
}

/// Whatever operations an orchestrator goes through, in whatever order, its
/// registry stays consistent, every market that was registered stays in the
/// index at its place, and the deployment counter never goes back.
pub proof fn lemma_operations_keep_registry(factory: FactoryView, ops: Seq<FactoryOp>)
    requires
        factory.inv(),
    ensures
        factory.after_all(ops).inv(),
        factory.all_market_keys.is_prefix_of(factory.after_all(ops).all_market_keys),
        factory.deploy_counter <= factory.after_all(ops).deploy_counter,
    decreases ops.len(),
{
    if ops.len() > 0 {
        let before = factory.after_all(ops.drop_last());
        lemma_operations_keep_registry(factory, ops.drop_last());
        lemma_operation_keeps_registry(before, ops.last());
    }
}

/// A head, a part, a colon and a rest, joined from the left, are the head
/// followed by the three others joined.
proof fn lemma_join_from_the_left(head: Seq<char>, part: Seq<char>, rest: Seq<char>)
    ensures
        head + part + seq![':'] + rest == head + (part + seq![':'] + rest),
{
    assert(head + part + seq![':'] + rest =~= head + (part + seq![':'] + rest));
}

/// The dedupe key, read from the left as a part, a colon, and the rest.
proof fn lemma_market_key_parts(params: MarketParamsView)
    ensures
        market_key_spec(params) == params.underlying + seq![':'] + (params.quote + seq![':'] + (
        decimal(params.maturity as nat) + seq![':'] + (decimal(params.strike_k as nat) + seq![':']
            + (decimal(params.lower_bound_l as nat) + seq![':'] + decimal(
            params.upper_bound_u as nat,
        ))))),
{
    reveal_strlit(":");
    let colon = seq![':'];
    assert(":"@ =~= colon);
    let quote = params.quote;
    let maturity = decimal(params.maturity as nat);
    let strike = decimal(params.strike_k as nat);
    let lower = decimal(params.lower_bound_l as nat);
    let upper = decimal(params.upper_bound_u as nat);
    let head4 = params.underlying + colon + quote + colon + maturity + colon + strike + colon;
    let head3 = params.underlying + colon + quote + colon + maturity + colon;
    let head2 = params.underlying + colon + quote + colon;
    let head1 = params.underlying + colon;
    let rest4 = lower + colon + upper;
    let rest3 = strike + colon + rest4;
    let rest2 = maturity + colon + rest3;
    let rest1 = quote + colon + rest2;
    lemma_join_from_the_left(head4, lower, upper);
    lemma_join_from_the_left(head3, strike, rest4);
    lemma_join_from_the_left(head2, maturity, rest3);
    lemma_join_from_the_left(head1, quote, rest2);
    assert(market_key_spec(params) == head4 + lower + colon + upper);
    assert(head4 + rest4 == head3 + strike + colon + rest4);
    assert(head3 + rest3 == head2 + maturity + colon + rest3);
    assert(head2 + rest2 == head1 + quote + colon + rest2);
}

/// Markets whose asset names hold no colon have the same dedupe key only
/// where their economics are the same.
pub proof fn lemma_market_key_tells_economics_apart(a: MarketParamsView, b: MarketParamsView)
    requires
        !a.underlying.contains(':'),
        !a.quote.contains(':'),
        !b.underlying.contains(':'),
        !b.quote.contains(':'),
        market_key_spec(a) == market_key_spec(b),
    ensures
        same_economics(a, b),
{
    let colon = seq![':'];
    let (am, ak, al, au) = (
        decimal(a.maturity as nat),
        decimal(a.strike_k as nat),
        decimal(a.lower_bound_l as nat),
        decimal(a.upper_bound_u as nat),
    );
    let (bm, bk, bl, bu) = (
        decimal(b.maturity as nat),
        decimal(b.strike_k as nat),
        decimal(b.lower_bound_l as nat),
        decimal(b.upper_bound_u as nat),
    );
    lemma_decimal_has_no_colon(a.maturity as nat);
    lemma_decimal_has_no_colon(a.strike_k as nat);
    lemma_decimal_has_no_colon(a.lower_bound_l as nat);
    lemma_decimal_has_no_colon(b.maturity as nat);
    lemma_decimal_has_no_colon(b.strike_k as nat);
    lemma_decimal_has_no_colon(b.lower_bound_l as nat);
    lemma_market_key_parts(a);
    lemma_market_key_parts(b);
    let a4 = al + colon + au;
    let a3 = ak + colon + a4;
    let a2 = am + colon + a3;
    let a1 = a.quote + colon + a2;
    let b4 = bl + colon + bu;
    let b3 = bk + colon + b4;
    let b2 = bm + colon + b3;
    let b1 = b.quote + colon + b2;
    lemma_split_at_separator(a.underlying, a1, b.underlying, b1, ':');
    lemma_split_at_separator(a.quote, a2, b.quote, b2, ':');
    lemma_split_at_separator(am, a3, bm, b3, ':');
    lemma_split_at_separator(ak, a4, bk, b4, ':');
    lemma_split_at_separator(al, au, bl, bu, ':');
    lemma_decimal_injective(a.maturity as nat, b.maturity as nat);
    lemma_decimal_injective(a.strike_k as nat, b.strike_k as nat);
    lemma_decimal_injective(a.lower_bound_l as nat, b.lower_bound_l as nat);
    lemma_decimal_injective(a.upper_bound_u as nat, b.upper_bound_u as nat);
}

} // verus!
