//! The market engine: one market's parameters, collateral accounting,
//! claim-pair supply, pending-action table and settlement state.
//!
//! Every operation runs to completion on the engine's own state and hands
//! back the requests to send to the claim ledgers, the fee ledger, the quote
//! asset and the oracle. Their answers come in through separate entry points
//! (`ft_on_transfer`, `on_price_received`), possibly much later and with other
//! operations in between. Nothing is undone when a request fails on its way:
//! a pending action whose transfer never arrives stays in the table, and a
//! redemption has left the collateral whether or not its burns and its
//! payout go through.

use crate::calls::{Call, CallView};
use crate::fixed_point::{
    fee_amount, fee_spec, lemma_fee_within_amount, lemma_payout_within_amount, lemma_payouts_fit,
    lemma_settlement_factor_range, settlement_factor, settlement_factor_spec, share_payout,
    share_payout_spec, BPS_DENOMINATOR, SCALE,
};
use crate::params::{MarketParams, MarketParamsView, PriceData};
use crate::table::{entries_map, entry_keys, Table};
use crate::text::{decimal, decimal_string, lemma_decimal_injective, lemma_decimal_nonempty};
use vstd::prelude::*;
use vstd::string::*;

verus! {

/// Why the engine turned an operation down.
#[derive(Clone, Copy, Debug, PartialEq, Eq)]
pub enum MarketError {
    /// The upper bound is not above the lower bound.
    InvalidBounds,
    /// The strike is below the lower bound.
    StrikeBelowLowerBound,
    /// The strike is above the upper bound.
    StrikeAboveUpperBound,
    /// The maturity is not after the time of creation.
    MaturityInPast,
    /// A fee is more than 10000 basis points.
    FeeOutOfRange,
    /// Minting is paused.
    MintingPaused,
    /// The market is settled and takes no new positions.
    MarketSettled,
    /// The amount is zero.
    AmountNotPositive,
    /// The market is not settled yet.
    NotSettled,
    /// Both amounts to redeem are zero.
    NothingToRedeem,
    /// The payout after fees is more than the collateral held.
    InsufficientCollateral,
    /// Settlement is paused.
    SettlementPaused,
    /// The market is settled already.
    AlreadySettled,
    /// The maturity has not been reached.
    NotMature,
    /// The caller is neither the owner nor the guardian.
    NotAuthorized,
    /// The transfer came from a token other than the quote asset.
    WrongToken,
    /// A sum or a difference does not fit in 128 bits.
    ArithmeticOverflow,
}

impl MarketError {
    /// The reason in words.
    pub open spec fn message_spec(self) -> Seq<char> {
        match self {
            MarketError::InvalidBounds => "Invalid bounds"@,
            MarketError::StrikeBelowLowerBound => "Strike below lower bound"@,
            MarketError::StrikeAboveUpperBound => "Strike above upper bound"@,
            MarketError::MaturityInPast => "Maturity in past"@,
            MarketError::FeeOutOfRange => "Fee above 10000 basis points"@,
            MarketError::MintingPaused => "Minting is paused"@,
            MarketError::MarketSettled => "Market is settled"@,
            MarketError::AmountNotPositive => "Amount must be positive"@,
            MarketError::NotSettled => "Market not settled"@,
            MarketError::NothingToRedeem => "No tokens to redeem"@,
            MarketError::InsufficientCollateral => "Insufficient collateral"@,
            MarketError::SettlementPaused => "Settlement is paused"@,
            MarketError::AlreadySettled => "Already settled"@,
            MarketError::NotMature => "Not mature yet"@,
            MarketError::NotAuthorized => "Not authorized"@,
            MarketError::WrongToken => "Wrong token"@,
            MarketError::ArithmeticOverflow => "Arithmetic overflow"@,
        }
    }

    /// The reason in words, to show to the caller.
    pub fn message(&self) -> (text: &'static str)
        ensures
            text@ == self.message_spec(),
    {
        match self {
            MarketError::InvalidBounds => "Invalid bounds",
            MarketError::StrikeBelowLowerBound => "Strike below lower bound",
            MarketError::StrikeAboveUpperBound => "Strike above upper bound",
            MarketError::MaturityInPast => "Maturity in past",
            MarketError::FeeOutOfRange => "Fee above 10000 basis points",
            MarketError::MintingPaused => "Minting is paused",
            MarketError::MarketSettled => "Market is settled",
            MarketError::AmountNotPositive => "Amount must be positive",
            MarketError::NotSettled => "Market not settled",
            MarketError::NothingToRedeem => "No tokens to redeem",
            MarketError::InsufficientCollateral => "Insufficient collateral",
            MarketError::SettlementPaused => "Settlement is paused",
            MarketError::AlreadySettled => "Already settled",
            MarketError::NotMature => "Not mature yet",
            MarketError::NotAuthorized => "Not authorized",
            MarketError::WrongToken => "Wrong token",
            MarketError::ArithmeticOverflow => "Arithmetic overflow",
        }
    }
}

/// What a pending action is waiting to do.
#[derive(Clone, Copy, Debug, PartialEq, Eq, Structural)]
pub enum ActionType {
    Mint,
    Redeem,
}

/// The mutable accounting of a market.
#[derive(Clone, Copy, Debug, PartialEq, Eq)]
pub struct MarketState {
    pub is_settled: bool,
    pub settlement_price: Option<u128>,
    pub settlement_factor: Option<u128>,
    pub total_collateral: u128,
    pub long_token_supply: u128,
    pub short_token_supply: u128,
    pub paused_mint: bool,
    pub paused_settle: bool,
}

/// An action that was started and waits for its transfer to arrive.
#[derive(Debug, PartialEq, Eq)]
pub struct PendingAction {
    pub account: String,
    pub amount: u128,
    pub action_type: ActionType,
}

/// A pending action as plain values.
pub struct PendingActionView {
    pub account: Seq<char>,
    pub amount: u128,
    pub action_type: ActionType,
}

impl View for PendingAction {
    type V = PendingActionView;

    open spec fn view(&self) -> PendingActionView {
        PendingActionView {
            account: self.account@,
            amount: self.amount,
            action_type: self.action_type,
        }
    }
}

/// What the engine answers to an incoming transfer: how much of it was not
/// consumed, and the requests that follow from it.
#[derive(Debug, PartialEq, Eq)]
pub struct Reconciliation {
    pub unused: u128,
    pub calls: Vec<Call>,
}

/// What the engine answers to a price reply: whether it settled the market,
/// and the requests that follow from it.
#[derive(Debug, PartialEq, Eq)]
pub struct PriceReceipt {
    pub settled: bool,
    pub calls: Vec<Call>,
}

/// One market.
pub struct ForwardMarket {
    params: MarketParams,
    state: MarketState,
    long_token: String,
    short_token: String,
    oracle: String,
    fee_collector: String,
    owner: String,
    guardian: String,
    user_deposits: Table<u128>,
    pending_actions: Table<PendingAction>,
}

/// A market as plain values.
pub struct MarketView {
    pub params: MarketParamsView,
    pub state: MarketState,
    pub long_token: Seq<char>,
    pub short_token: Seq<char>,
    pub oracle: Seq<char>,
    pub fee_collector: Seq<char>,
    pub owner: Seq<char>,
    pub guardian: Seq<char>,
    pub user_deposits: Map<Seq<char>, u128>,
    pub pending_actions: Map<Seq<char>, PendingActionView>,
}

/// A market after an operation, with the requests that the operation issues.
pub struct MarketStep {
    pub next: MarketView,
    pub calls: Seq<CallView>,
}

/// A market after an incoming transfer, with what was left unconsumed and
/// the requests issued.
pub struct TransferStep {
    pub next: MarketView,
    pub unused: u128,
    pub calls: Seq<CallView>,
}

/// One operation on a market, with what it is given.
pub enum MarketOp {
    CreatePosition {
        account: Seq<char>,
        amount: u128,
        block_index: u64,
        current_account: Seq<char>,
    },
    Transfer { token: Seq<char>, sender: Seq<char>, amount: u128, msg: Seq<char> },
    Redeem { account: Seq<char>, long_amount: u128, short_amount: u128 },
    FinalizeSettlement { price: u128 },
    PriceReply { reply: Option<PriceData> },
    SetPaused { caller: Seq<char>, pause_mint: bool, pause_settle: bool },
}

/// Everything that a market holds, as plain data to store and to load.
#[derive(Debug, PartialEq, Eq)]
pub struct MarketRecord {
    pub params: MarketParams,
    pub state: MarketState,
    pub long_token: String,
    pub short_token: String,
    pub oracle: String,
    pub fee_collector: String,
    pub owner: String,
    pub guardian: String,
    pub user_deposits: Vec<(String, u128)>,
    pub pending_actions: Vec<(String, PendingAction)>,
}

impl View for MarketRecord {
    type V = MarketView;

    open spec fn view(&self) -> MarketView {
        MarketView {
            params: self.params@,
            state: self.state,
            long_token: self.long_token@,
            short_token: self.short_token@,
            oracle: self.oracle@,
            fee_collector: self.fee_collector@,
            owner: self.owner@,
            guardian: self.guardian@,
            user_deposits: entries_map(self.user_deposits@),
            pending_actions: entries_map(self.pending_actions@),
        }
    }
}

impl MarketRecord {
    /// Whether the record is that of a market: no account and no tag occurs
    /// twice, and the market invariant holds.
    pub open spec fn valid(&self) -> bool {
        &&& entry_keys(self.user_deposits@).no_duplicates()
        &&& entry_keys(self.pending_actions@).no_duplicates()
        &&& self@.inv()
    }
}

/// The accounting of a market that has just been constructed.
pub open spec fn initial_state() -> MarketState {
    MarketState {
        is_settled: false,
        settlement_price: None,
        settlement_factor: None,
        total_collateral: 0,
        long_token_supply: 0,
        short_token_supply: 0,
        paused_mint: false,
        paused_settle: false,
    }
}

/// The first reason, if any, for which `params` cannot define a market
/// created at time `now`.
pub open spec fn params_error(params: MarketParamsView, now: u64) -> Option<MarketError> {
    if !(params.upper_bound_u > params.lower_bound_l) {
        Some(MarketError::InvalidBounds)
    } else if params.strike_k < params.lower_bound_l {
        Some(MarketError::StrikeBelowLowerBound)
    } else if params.strike_k > params.upper_bound_u {
        Some(MarketError::StrikeAboveUpperBound)
    } else if !(params.maturity > now) {
        Some(MarketError::MaturityInPast)
    } else if !params.fees_valid() {
        Some(MarketError::FeeOutOfRange)
    } else {
        None
    }
}

/// The correlation tag that attempt number `attempt` tries for a position
/// opened in block `block_index`: the tag of the block for the first attempt,
/// and the tag of the block followed by the number of the attempt for every
/// later one.
pub open spec fn mint_tag_spec(block_index: u64, attempt: nat) -> Seq<char> {
    if attempt == 0 {
        "mint_"@ + decimal(block_index as nat)
    } else {
        "mint_"@ + decimal(block_index as nat) + "_"@ + decimal(attempt)
    }
}

/// Whether `attempt` is the first whose tag is not among `taken`.
pub open spec fn first_free_attempt(taken: Set<Seq<char>>, block_index: u64, attempt: nat) -> bool {
    &&& !taken.contains(mint_tag_spec(block_index, attempt))
    &&& forall|earlier: nat|
        earlier < attempt ==> taken.contains(#[trigger] mint_tag_spec(block_index, earlier))
}

/// The number of the first attempt in block `block_index` whose tag is not
/// among `taken`.
pub open spec fn fresh_attempt_spec(taken: Set<Seq<char>>, block_index: u64) -> nat {
    choose|attempt: nat| first_free_attempt(taken, block_index, attempt)
}

/// The first tag of block `block_index` that is not among `taken`.
pub open spec fn fresh_tag_spec(taken: Set<Seq<char>>, block_index: u64) -> Seq<char> {
    mint_tag_spec(block_index, fresh_attempt_spec(taken, block_index))
}

/// Whether the accounting `state` is consistent with itself and with
/// `params`.
pub open spec fn accounts_balance(params: MarketParamsView, state: MarketState) -> bool {
    &&& params.valid()
    &&& state.long_token_supply == state.short_token_supply
    &&& state.total_collateral <= state.long_token_supply
    &&& state.is_settled == state.settlement_price.is_some()
    &&& state.is_settled == state.settlement_factor.is_some()
    &&& state.is_settled ==> state.settlement_factor.unwrap() == settlement_factor_spec(
        params.lower_bound_l as int,
        params.upper_bound_u as int,
        state.settlement_price.unwrap() as int,
    )
}

/// Once a market is settled, its settlement price and factor stay as they
/// are.
pub open spec fn settlement_kept(before: MarketState, after: MarketState) -> bool {
    before.is_settled ==> {
        &&& after.is_settled
        &&& after.settlement_price == before.settlement_price
        &&& after.settlement_factor == before.settlement_factor
    }
}

impl MarketView {
    /// What holds of every market between operations: its accounts
    /// balance, and finitely many actions are pending.
    pub open spec fn inv(self) -> bool {
        &&& accounts_balance(self.params, self.state)
        &&& self.pending_actions.dom().finite()
    }

    /// The tag under which a position opened in block `block_index` is
    /// registered: the first of the block's tags that is not pending.
    pub open spec fn fresh_tag(self, block_index: u64) -> Seq<char> {
        fresh_tag_spec(self.pending_actions.dom(), block_index)
    }

    /// The settlement factor that this market's band gives to `price`.
    pub open spec fn factor_at(self, price: u128) -> int {
        settlement_factor_spec(
            self.params.lower_bound_l as int,
            self.params.upper_bound_u as int,
            price as int,
        )
    }

    /// How much `account` has deposited, net of fees.
    pub open spec fn deposit_of(self, account: Seq<char>) -> u128 {
        if self.user_deposits.contains_key(account) {
            self.user_deposits[account]
        } else {
            0
        }
    }

    /// A newly constructed market.
    pub open spec fn initial(
        params: MarketParamsView,
        long_token: Seq<char>,
        short_token: Seq<char>,
        oracle: Seq<char>,
        fee_collector: Seq<char>,
        owner: Seq<char>,
        guardian: Seq<char>,
    ) -> MarketView {
        MarketView {
            params,
            state: initial_state(),
            long_token,
            short_token,
            oracle,
            fee_collector,
            owner,
            guardian,
            user_deposits: Map::empty(),
            pending_actions: Map::empty(),
        }
    }

    /// The requests that follow a reconciled deposit: `net` claims of each
    /// side for the depositor, and the fee, if any, for the fee ledger.
    pub open spec fn mint_calls(self, account: Seq<char>, net: u128, fee: u128) -> Seq<CallView> {
        let mints = seq![
            CallView::Mint { ledger: self.long_token, account, amount: net },
            CallView::Mint { ledger: self.short_token, account, amount: net },
        ];
        if fee > 0 {
            mints.push(
                CallView::RecordFee {
                    collector: self.fee_collector,
                    token: self.params.quote,
                    amount: fee,
                },
            )
        } else {
            mints
        }
    }

    /// The requests that follow a redemption: a burn on each ledger with a
    /// nonzero amount, the fee, if any, for the fee ledger, and the payout.
    pub open spec fn redeem_calls(
        self,
        account: Seq<char>,
        long_amount: u128,
        short_amount: u128,
        fee: u128,
        net: u128,
    ) -> Seq<CallView> {
        let burn_long = if long_amount > 0 {
            seq![CallView::Burn { ledger: self.long_token, account, amount: long_amount }]
        } else {
            Seq::empty()
        };
        let burn_short = if short_amount > 0 {
            seq![CallView::Burn { ledger: self.short_token, account, amount: short_amount }]
        } else {
            Seq::empty()
        };
        let record = if fee > 0 {
            seq![
                CallView::RecordFee {
                    collector: self.fee_collector,
                    token: self.params.quote,
                    amount: fee,
                },
            ]
        } else {
            Seq::empty()
        };
        burn_long + burn_short + record + seq![
            CallView::Transfer {
                token: self.params.quote,
                receiver: account,
                amount: net,
                memo: "Redemption payout"@,
            },
        ]
    }

    /// Opening a position: the pending action is registered under a fresh
    /// tag of the block, and the transfer of the deposit is requested.
    pub open spec fn create_position(
        self,
        account: Seq<char>,
        amount: u128,
        block_index: u64,
        current_account: Seq<char>,
    ) -> Result<MarketStep, MarketError> {
        let tag = self.fresh_tag(block_index);
        if self.state.paused_mint {
            Err(MarketError::MintingPaused)
        } else if self.state.is_settled {
            Err(MarketError::MarketSettled)
        } else if amount == 0 {
            Err(MarketError::AmountNotPositive)
        } else {
            Ok(
                MarketStep {
                    next: MarketView {
                        pending_actions: self.pending_actions.insert(
                            tag,
                            PendingActionView { account, amount, action_type: ActionType::Mint },
                        ),
                        ..self
                    },
                    calls: seq![
                        CallView::TransferCall {
                            token: self.params.quote,
                            receiver: current_account,
                            amount,
                            msg: tag,
                        },
                    ],
                },
            )
        }
    }

    /// Whether a transfer of `amount` from `sender` with message `msg`
    /// matches a pending mint.
    pub open spec fn reconciles(self, sender: Seq<char>, amount: u128, msg: Seq<char>) -> bool {
        &&& self.pending_actions.contains_key(msg)
        &&& self.pending_actions[msg].account == sender
        &&& self.pending_actions[msg].amount == amount
        &&& self.pending_actions[msg].action_type == ActionType::Mint
    }

    /// An incoming transfer of `amount` of `token` from `sender` with
    /// message `msg`. A transfer that matches no pending mint is left
    /// unconsumed. One that matches is absorbed: the fee is taken, the rest
    /// is added to collateral, to both supplies and to the sender's deposit,
    /// and the pending action is removed.
    pub open spec fn ft_on_transfer(
        self,
        token: Seq<char>,
        sender: Seq<char>,
        amount: u128,
        msg: Seq<char>,
    ) -> Result<TransferStep, MarketError> {
        let fee = fee_spec(amount as int, self.params.mint_fee_bps as int);
        let net = amount - fee;
        if token != self.params.quote {
            Err(MarketError::WrongToken)
        } else if !self.reconciles(sender, amount, msg) {
            Ok(TransferStep { next: self, unused: amount, calls: Seq::empty() })
        } else if self.state.total_collateral + net > u128::MAX || self.state.long_token_supply
            + net > u128::MAX || self.state.short_token_supply + net > u128::MAX
            || self.deposit_of(sender) + net > u128::MAX {
            Err(MarketError::ArithmeticOverflow)
        } else {
            Ok(
                TransferStep {
                    next: MarketView {
                        state: MarketState {
                            total_collateral: (self.state.total_collateral + net) as u128,
                            long_token_supply: (self.state.long_token_supply + net) as u128,
                            short_token_supply: (self.state.short_token_supply + net) as u128,
                            ..self.state
                        },
                        user_deposits: self.user_deposits.insert(
                            sender,
                            (self.deposit_of(sender) + net) as u128,
                        ),
                        pending_actions: self.pending_actions.remove(msg),
                        ..self
                    },
                    unused: 0,
                    calls: self.mint_calls(sender, net as u128, fee as u128),
                },
            )
        }
    }

    /// Redeeming `long_amount` long and `short_amount` short claims of
    /// `account` after settlement. The whole payout leaves the collateral;
    /// the account is paid the payout less the fee.
    pub open spec fn redeem(
        self,
        account: Seq<char>,
        long_amount: u128,
        short_amount: u128,
    ) -> Result<MarketStep, MarketError> {
        let factor = self.state.settlement_factor.unwrap();
        let long_payout = share_payout_spec(long_amount as int, factor as int);
        let short_payout = share_payout_spec(short_amount as int, SCALE - factor);
        let total = long_payout + short_payout;
        let fee = fee_spec(total, self.params.redeem_fee_bps as int);
        let net = total - fee;
        if !self.state.is_settled {
            Err(MarketError::NotSettled)
        } else if long_amount == 0 && short_amount == 0 {
            Err(MarketError::NothingToRedeem)
        } else if net > self.state.total_collateral {
            Err(MarketError::InsufficientCollateral)
        } else if total > self.state.total_collateral {
            Err(MarketError::ArithmeticOverflow)
        } else {
            Ok(
                MarketStep {
                    next: MarketView {
                        state: MarketState {
                            total_collateral: (self.state.total_collateral - total) as u128,
                            ..self.state
                        },
                        ..self
                    },
                    calls: self.redeem_calls(
                        account,
                        long_amount,
                        short_amount,
                        fee as u128,
                        net as u128,
                    ),
                },
            )
        }
    }

    /// Asking for settlement at time `now`: the price request to the oracle.
    pub open spec fn settle(self, now: u64) -> Result<CallView, MarketError> {
        if self.state.paused_settle {
            Err(MarketError::SettlementPaused)
        } else if self.state.is_settled {
            Err(MarketError::AlreadySettled)
        } else if now < self.params.maturity {
            Err(MarketError::NotMature)
        } else {
            Ok(
                CallView::GetPrice {
                    oracle: self.oracle,
                    underlying: self.params.underlying,
                    quote: self.params.quote,
                },
            )
        }
    }

    /// Finalizing settlement at `price`: the factor is fixed, the settlement
    /// fee leaves the collateral, and the market is settled from then on.
    pub open spec fn finalize_settlement(self, price: u128) -> Result<MarketStep, MarketError> {
        let fee = fee_spec(self.state.total_collateral as int, self.params.settle_fee_bps as int);
        if self.state.is_settled {
            Err(MarketError::AlreadySettled)
        } else {
            Ok(
                MarketStep {
                    next: MarketView {
                        state: MarketState {
                            is_settled: true,
                            settlement_price: Some(price),
                            settlement_factor: Some(self.factor_at(price) as u128),
                            total_collateral: (self.state.total_collateral - fee) as u128,
                            ..self.state
                        },
                        ..self
                    },
                    calls: if fee > 0 {
                        seq![
                            CallView::RecordFee {
                                collector: self.fee_collector,
                                token: self.params.quote,
                                amount: fee as u128,
                            },
                        ]
                    } else {
                        Seq::empty()
                    },
                },
            )
        }
    }

    /// The oracle's reply to a price request: a price settles a market that
    /// is not settled yet; no price, or a market settled already, changes
    /// nothing.
    pub open spec fn on_price_received(self, reply: Option<PriceData>) -> (MarketStep, bool) {
        match reply {
            Some(data) => match self.finalize_settlement(data.price) {
                Ok(step) => (step, true),
                Err(_) => (MarketStep { next: self, calls: Seq::empty() }, false),
            },
            None => (MarketStep { next: self, calls: Seq::empty() }, false),
        }
    }

    /// Setting the pause flags as `caller`.
    pub open spec fn set_paused(
        self,
        caller: Seq<char>,
        pause_mint: bool,
        pause_settle: bool,
    ) -> Result<MarketView, MarketError> {
        if caller == self.guardian || caller == self.owner {
            Ok(
                MarketView {
                    state: MarketState {
                        paused_mint: pause_mint,
                        paused_settle: pause_settle,
                        ..self.state
                    },
                    ..self
                },
            )
        } else {
            Err(MarketError::NotAuthorized)
        }
    }

    /// The market after `op`: as the operation leaves it, or unchanged where
    /// the operation is turned down.
    pub open spec fn after(self, op: MarketOp) -> MarketView {
        match op {
            MarketOp::CreatePosition { account, amount, block_index, current_account } => {
                match self.create_position(account, amount, block_index, current_account) {
                    Ok(step) => step.next,
                    Err(_) => self,
                }
            },
            MarketOp::Transfer { token, sender, amount, msg } => {
                match self.ft_on_transfer(token, sender, amount, msg) {
                    Ok(step) => step.next,
                    Err(_) => self,
                }
            },
            MarketOp::Redeem { account, long_amount, short_amount } => {
                match self.redeem(account, long_amount, short_amount) {
                    Ok(step) => step.next,
                    Err(_) => self,
                }
            },
            MarketOp::FinalizeSettlement { price } => {
                match self.finalize_settlement(price) {
                    Ok(step) => step.next,
                    Err(_) => self,
                }
            },
            MarketOp::PriceReply { reply } => self.on_price_received(reply).0.next,
            MarketOp::SetPaused { caller, pause_mint, pause_settle } => {
                match self.set_paused(caller, pause_mint, pause_settle) {
                    Ok(next) => next,
                    Err(_) => self,
                }
            },
        }
    }

    /// The market after the operations `ops`, one after the other.
    pub open spec fn after_all(self, ops: Seq<MarketOp>) -> MarketView
        decreases ops.len(),
    {
        if ops.len() == 0 {
            self
        } else {
            self.after_all(ops.drop_last()).after(ops.last())
        }
    }
}

impl View for ForwardMarket {
    type V = MarketView;

    closed spec fn view(&self) -> MarketView {
        MarketView {
            params: self.params@,
            state: self.state,
            long_token: self.long_token@,
            short_token: self.short_token@,
            oracle: self.oracle@,
            fee_collector: self.fee_collector@,
            owner: self.owner@,
            guardian: self.guardian@,
            user_deposits: self.user_deposits@,
            pending_actions: self.pending_actions@,
        }
    }
}

impl ForwardMarket {
    /// The engine's tables are well formed and its accounting is consistent.
    pub closed spec fn wf(&self) -> bool {
        &&& self.user_deposits.wf()
        &&& self.pending_actions.wf()
        &&& self@.inv()
    }

    /// A well-formed engine satisfies the market invariant.
    pub proof fn lemma_wf_inv(&self)
        requires
            self.wf(),
        ensures
            self@.inv(),
    {
    }

    /// Constructs the engine of a market created at time `now`, after
    /// validating its parameters.
    pub fn new(
        params: MarketParams,
        long_token: String,
        short_token: String,
        oracle: String,
        fee_collector: String,
        owner: String,
        guardian: String,
        now: u64,
    ) -> (r: Result<ForwardMarket, MarketError>)
        ensures
            match r {
                Ok(market) => {
                    &&& params_error(params@, now) is None
                    &&& market.wf()
                    &&& market@ == MarketView::initial(
                        params@,
                        long_token@,
                        short_token@,
                        oracle@,
                        fee_collector@,
                        owner@,
                        guardian@,
                    )
                },
                Err(e) => params_error(params@, now) == Some(e),
            },
    {
        if !(params.upper_bound_u > params.lower_bound_l) {
            return Err(MarketError::InvalidBounds);
        }
        if params.strike_k < params.lower_bound_l {
            return Err(MarketError::StrikeBelowLowerBound);
        }
        if params.strike_k > params.upper_bound_u {
            return Err(MarketError::StrikeAboveUpperBound);
        }
        if !(params.maturity > now) {
            return Err(MarketError::MaturityInPast);
        }
        if params.mint_fee_bps as u128 > BPS_DENOMINATOR || params.settle_fee_bps as u128
            > BPS_DENOMINATOR || params.redeem_fee_bps as u128 > BPS_DENOMINATOR {
            return Err(MarketError::FeeOutOfRange);
        }
        Ok(
            ForwardMarket {
                params,
                state: MarketState {
                    is_settled: false,
                    settlement_price: None,
                    settlement_factor: None,
                    total_collateral: 0,
                    long_token_supply: 0,
                    short_token_supply: 0,
                    paused_mint: false,
                    paused_settle: false,
                },
                long_token,
                short_token,
                oracle,
                fee_collector,
                owner,
                guardian,
                user_deposits: Table::new(),
                pending_actions: Table::new(),
            },
        )
    }

    fn accounting_consistent(params: &MarketParams, state: &MarketState) -> (ok: bool)
        ensures
            ok == accounts_balance(params@, *state),
    {
        let band = params.lower_bound_l < params.upper_bound_u && params.lower_bound_l
            <= params.strike_k && params.strike_k <= params.upper_bound_u;
        let fees = params.mint_fee_bps as u128 <= BPS_DENOMINATOR && params.settle_fee_bps as u128
            <= BPS_DENOMINATOR && params.redeem_fee_bps as u128 <= BPS_DENOMINATOR;
        let supplies = state.long_token_supply == state.short_token_supply
            && state.total_collateral <= state.long_token_supply;
        let settlement = match (state.settlement_price, state.settlement_factor) {
            (Some(price), Some(factor)) => state.is_settled && factor == settlement_factor(
                params.lower_bound_l,
                params.upper_bound_u,
                price,
            ),
            (None, None) => !state.is_settled,
            _ => false,
        };
        band && fees && supplies && settlement
    }

    /// Takes the engine apart into a record of everything it holds.
    pub fn into_record(self) -> (record: MarketRecord)
        requires
            self.wf(),
        ensures
            record.valid(),
            record@ == self@,
    {
        let ForwardMarket {
            params,
            state,
            long_token,
            short_token,
            oracle,
            fee_collector,
            owner,
            guardian,
            user_deposits,
            pending_actions,
        } = self;
        proof {
            user_deposits.lemma_keys();
            pending_actions.lemma_keys();
        }
        MarketRecord {
            params,
            state,
            long_token,
            short_token,
            oracle,
            fee_collector,
            owner,
            guardian,
            user_deposits: user_deposits.into_entries(),
            pending_actions: pending_actions.into_entries(),
        }
    }

    /// Puts an engine together from a record, if the record is that of a
    /// market.
    pub fn from_record(record: MarketRecord) -> (r: Option<ForwardMarket>)
        ensures
            r is Some <==> record.valid(),
            match r {
                Some(market) => market.wf() && market@ == record@,
                None => true,
            },
    {
        if !Self::accounting_consistent(&record.params, &record.state) {
            return None;
        }
        let MarketRecord {
            params,
            state,
            long_token,
            short_token,
            oracle,
            fee_collector,
            owner,
            guardian,
            user_deposits,
            pending_actions,
        } = record;
        let user_deposits = match Table::from_entries(user_deposits) {
            Some(table) => table,
            None => {
                return None;
            },
        };
        let pending_actions = match Table::from_entries(pending_actions) {
            Some(table) => table,
            None => {
                return None;
            },
        };
        proof {
            pending_actions.lemma_keys();
        }
        Some(
            ForwardMarket {
                params,
                state,
                long_token,
                short_token,
                oracle,
                fee_collector,
                owner,
                guardian,
                user_deposits,
                pending_actions,
            },
        )
    }

    /// The market's parameters.
    pub fn get_market_params(&self) -> (params: MarketParams)
        ensures
            params@ == self@.params,
    {
        self.params.clone()
    }

    /// The market's accounting.
    pub fn get_market_state(&self) -> (state: MarketState)
        ensures
            state == self@.state,
    {
        self.state
    }

    /// What `account` has deposited, net of fees; zero for an account that
    /// never deposited.
    pub fn get_user_deposit(&self, account: &String) -> (deposit: u128)
        requires
            self.wf(),
        ensures
            deposit == self@.deposit_of(account@),
    {
        match self.user_deposits.get(account) {
            Some(amount) => *amount,
            None => 0,
        }
    }

    /// The settlement factor of `price` for this market's band.
    pub fn calculate_settlement_factor(&self, price: u128) -> (factor: u128)
        ensures
            factor == self@.factor_at(price),
            factor <= SCALE,
    {
        settlement_factor(self.params.lower_bound_l, self.params.upper_bound_u, price)
    }

    /// What `amount` claims of one side pay out at `settlement_factor`: the
    /// long side holds the factor, the short side the rest of `SCALE`.
    pub fn calculate_payout(amount: u128, settlement_factor: u128, is_long: bool) -> (payout: u128)
        requires
            settlement_factor <= SCALE,
        ensures
            payout == share_payout_spec(
                amount as int,
                if is_long {
                    settlement_factor as int
                } else {
                    SCALE - settlement_factor
                },
            ),
            payout <= amount,
    {
        if is_long {
            share_payout(amount, settlement_factor)
        } else {
            share_payout(amount, SCALE - settlement_factor)
        }
    }

    /// What one whole claim of each side would be worth if the market
    /// settled at `hypothetical_price`: the long value, then the short value.
    pub fn preview_settlement(&self, hypothetical_price: u128) -> (values: (u128, u128))
        ensures
            values.0 == self@.factor_at(hypothetical_price),
            values.1 == SCALE - self@.factor_at(hypothetical_price),
    {
        let factor = self.calculate_settlement_factor(hypothetical_price);
        (factor, SCALE - factor)
    }

    /// Sets both pause flags. Only the guardian and the owner may.
    pub fn set_paused(&mut self, caller: &String, pause_mint: bool, pause_settle: bool) -> (r:
        Result<(), MarketError>)
        requires
            old(self).wf(),
        ensures
            final(self).wf(),
            settlement_kept(old(self)@.state, final(self)@.state),
            match old(self)@.set_paused(caller@, pause_mint, pause_settle) {
                Ok(next) => r is Ok && final(self)@ == next,
                Err(e) => r == Err::<(), MarketError>(e) && final(self)@ == old(self)@,
            },
    {
        if *caller == self.guardian || *caller == self.owner {
            self.state.paused_mint = pause_mint;
            self.state.paused_settle = pause_settle;
            Ok(())
        } else {
            Err(MarketError::NotAuthorized)
        }
    }

    /// The first tag of block `block_index` under which nothing is pending.
    fn fresh_tag(&self, block_index: u64) -> (tag: String)
        requires
            self.wf(),
        ensures
            tag@ == self@.fresh_tag(block_index),
            !self@.pending_actions.contains_key(tag@),
    {
        let pending = self.pending_actions.len();
        let ghost taken = self.pending_actions@.dom();
        let ghost first = fresh_attempt_spec(taken, block_index);
        proof {
            lemma_fresh_tag_is_free(taken, block_index);
        }
        let mut attempt: usize = 0;
        let mut tag = mint_tag(block_index, attempt);
        while self.pending_actions.contains_key(&tag)
            invariant
                self.wf(),
                taken == self.pending_actions@.dom(),
                first_free_attempt(taken, block_index, first),
                first <= pending,
                attempt <= first,
                tag@ == mint_tag_spec(block_index, attempt as nat),
            decreases first - attempt,
        {
            attempt = attempt + 1;
            tag = mint_tag(block_index, attempt);
        }
        assert(attempt == first) by {
            if attempt < first {
                assert(taken.contains(mint_tag_spec(block_index, attempt as nat)));
            }
        }
        tag
    }

    /// Starts a mint of `amount` for `account` in block `block_index`: the
    /// pending action is registered under a tag that nothing is pending
    /// under, and the transfer of the deposit into the custody of
    /// `current_account` is requested with that tag. Collateral and supply
    /// change only when that transfer arrives. The first position of a block
    /// gets the tag of the block; a position opened while that tag is pending
    /// gets the next of the block's tags that is free.
    pub fn create_position(
        &mut self,
        account: String,
        amount: u128,
        block_index: u64,
        current_account: String,
    ) -> (r: Result<Call, MarketError>)
        requires
            old(self).wf(),
        ensures
            final(self).wf(),
            settlement_kept(old(self)@.state, final(self)@.state),
            r is Err <==> old(self)@.state.paused_mint || old(self)@.state.is_settled || amount
                == 0,
            match old(self)@.create_position(account@, amount, block_index, current_account@) {
                Ok(step) => {
                    &&& r is Ok
                    &&& final(self)@ == step.next
                    &&& seq![r.unwrap()@] == step.calls
                    &&& !old(self)@.pending_actions.contains_key(
                        old(self)@.fresh_tag(block_index),
                    )
                },
                Err(e) => r == Err::<Call, MarketError>(e) && final(self)@ == old(self)@,
            },
    {
        if self.state.paused_mint {
            return Err(MarketError::MintingPaused);
        }
        if self.state.is_settled {
            return Err(MarketError::MarketSettled);
        }
        if amount == 0 {
            return Err(MarketError::AmountNotPositive);
        }
        let tag = self.fresh_tag(block_index);
        let call = Call::TransferCall {
            token: self.params.quote.clone(),
            receiver: current_account,
            amount,
            msg: tag.clone(),
        };
        self.pending_actions.insert(
            tag,
            PendingAction { account, amount, action_type: ActionType::Mint },
        );
        proof {
            self.pending_actions.lemma_keys();
        }
        Ok(call)
    }

    /// Asks for settlement at time `now`: the price request to send to the
    /// oracle, whose reply goes to `on_price_received`.
    pub fn settle(&self, now: u64) -> (r: Result<Call, MarketError>)
        requires
            self.wf(),
        ensures
            match self@.settle(now) {
                Ok(call) => r is Ok && r.unwrap()@ == call,
                Err(e) => r == Err::<Call, MarketError>(e),
            },
    {
        if self.state.paused_settle {
            return Err(MarketError::SettlementPaused);
        }
        if self.state.is_settled {
            return Err(MarketError::AlreadySettled);
        }
        if now < self.params.maturity {
            return Err(MarketError::NotMature);
        }
        Ok(
            Call::GetPrice {
                oracle: self.oracle.clone(),
                underlying: self.params.underlying.clone(),
                quote: self.params.quote.clone(),
            },
        )
    }

    /// Reconciles an incoming transfer of `amount` of `token` from
    /// `sender_id`, tagged `msg`. Only a transfer whose sender and amount
    /// are exactly those of the pending mint under `msg` is absorbed;
    /// any other is left unconsumed, to be returned to its sender.
    pub fn ft_on_transfer(
        &mut self,
        token: &String,
        sender_id: String,
        amount: u128,
        msg: String,
    ) -> (r: Result<Reconciliation, MarketError>)
        requires
            old(self).wf(),
        ensures
            final(self).wf(),
            settlement_kept(old(self)@.state, final(self)@.state),
            match old(self)@.ft_on_transfer(token@, sender_id@, amount, msg@) {
                Ok(step) => {
                    &&& r is Ok
                    &&& final(self)@ == step.next
                    &&& r.unwrap().unused == step.unused
                    &&& r.unwrap().calls.deep_view() == step.calls
                },
                Err(e) => r == Err::<Reconciliation, MarketError>(e) && final(self)@ == old(self)@,
            },
    {
        if !(*token == self.params.quote) {
            return Err(MarketError::WrongToken);
        }
        let matched = match self.pending_actions.get(&msg) {
            Some(action) => {
                let is_mint = match action.action_type {
                    ActionType::Mint => true,
                    ActionType::Redeem => false,
                };
                action.account == sender_id && action.amount == amount && is_mint
            },
            None => false,
        };
        if !matched {
            let calls: Vec<Call> = Vec::new();
            assert(calls.deep_view() =~= Seq::<CallView>::empty());
            return Ok(Reconciliation { unused: amount, calls });
        }
        let fee = fee_amount(amount, self.params.mint_fee_bps);
        let net = amount - fee;
        let deposit = self.get_user_deposit(&sender_id);
        let collateral = match self.state.total_collateral.checked_add(net) {
            Some(sum) => sum,
            None => {
                return Err(MarketError::ArithmeticOverflow);
            },
        };
        let long_supply = match self.state.long_token_supply.checked_add(net) {
            Some(sum) => sum,
            None => {
                return Err(MarketError::ArithmeticOverflow);
            },
        };
        let short_supply = match self.state.short_token_supply.checked_add(net) {
            Some(sum) => sum,
            None => {
                return Err(MarketError::ArithmeticOverflow);
            },
        };
        let new_deposit = match deposit.checked_add(net) {
            Some(sum) => sum,
            None => {
                return Err(MarketError::ArithmeticOverflow);
            },
        };
        self.state.total_collateral = collateral;
        self.state.long_token_supply = long_supply;
        self.state.short_token_supply = short_supply;
        self.user_deposits.insert(sender_id.clone(), new_deposit);
        let mut calls: Vec<Call> = Vec::new();
        calls.push(
            Call::Mint {
                ledger: self.long_token.clone(),
                account: sender_id.clone(),
                amount: net,
            },
        );
        calls.push(
            Call::Mint { ledger: self.short_token.clone(), account: sender_id, amount: net },
        );
        if fee > 0 {
            calls.push(
                Call::RecordFee {
                    collector: self.fee_collector.clone(),
                    token: self.params.quote.clone(),
                    amount: fee,
                },
            );
        }
        self.pending_actions.remove(&msg);
        assert(calls.deep_view() =~= old(self)@.mint_calls(sender_id@, net, fee));
        Ok(Reconciliation { unused: 0, calls })
    }

    /// Redeems `long_amount` long and `short_amount` short claims of
    /// `account`. The whole payout is taken out of the collateral before any
    /// request goes out; the burns, the fee record and the payout are
    /// independent requests.
    pub fn redeem(&mut self, account: String, long_amount: u128, short_amount: u128) -> (r: Result<
        Vec<Call>,
        MarketError,
    >)
        requires
            old(self).wf(),
        ensures
            final(self).wf(),
            settlement_kept(old(self)@.state, final(self)@.state),
            match old(self)@.redeem(account@, long_amount, short_amount) {
                Ok(step) => r is Ok && final(self)@ == step.next && r.unwrap().deep_view()
                    == step.calls,
                Err(e) => r == Err::<Vec<Call>, MarketError>(e) && final(self)@ == old(self)@,
            },
    {
        if !self.state.is_settled {
            return Err(MarketError::NotSettled);
        }
        if long_amount == 0 && short_amount == 0 {
            return Err(MarketError::NothingToRedeem);
        }
        let factor = match self.state.settlement_factor {
            Some(factor) => factor,
            None => {
                return Err(MarketError::NotSettled);
            },
        };
        proof {
            lemma_settlement_factor_range(
                self.params.lower_bound_l as int,
                self.params.upper_bound_u as int,
                self.state.settlement_price.unwrap() as int,
            );
        }
        let long_payout = Self::calculate_payout(long_amount, factor, true);
        let short_payout = Self::calculate_payout(short_amount, factor, false);
        proof {
            lemma_payouts_fit(long_amount as int, short_amount as int, factor as int);
        }
        let total_payout = long_payout + short_payout;
        let fee = fee_amount(total_payout, self.params.redeem_fee_bps);
        let net_payout = total_payout - fee;
        if net_payout > self.state.total_collateral {
            return Err(MarketError::InsufficientCollateral);
        }
        let remaining = match self.state.total_collateral.checked_sub(total_payout) {
            Some(rest) => rest,
            None => {
                return Err(MarketError::ArithmeticOverflow);
            },
        };
        self.state.total_collateral = remaining;
        let mut calls: Vec<Call> = Vec::new();
        if long_amount > 0 {
            calls.push(
                Call::Burn {
                    ledger: self.long_token.clone(),
                    account: account.clone(),
                    amount: long_amount,
                },
            );
        }
        if short_amount > 0 {
            calls.push(
                Call::Burn {
                    ledger: self.short_token.clone(),
                    account: account.clone(),
                    amount: short_amount,
                },
            );
        }
        if fee > 0 {
            calls.push(
                Call::RecordFee {
                    collector: self.fee_collector.clone(),
                    token: self.params.quote.clone(),
                    amount: fee,
                },
            );
        }
        calls.push(
            Call::Transfer {
                token: self.params.quote.clone(),
                receiver: account,
                amount: net_payout,
                memo: String::from_str("Redemption payout"),
            },
        );
        assert(calls.deep_view() =~= old(self)@.redeem_calls(
            account@,
            long_amount,
            short_amount,
            fee,
            net_payout,
        ));
        Ok(calls)
    }

    /// Finalizes settlement at `price`, once: the factor is fixed, the
    /// settlement fee leaves the collateral, and the fee ledger is told of a
    /// fee that is not zero. A market that is settled already is left as it
    /// is.
    pub fn finalize_settlement(&mut self, price: u128) -> (r: Result<Vec<Call>, MarketError>)
        requires
            old(self).wf(),
        ensures
            final(self).wf(),
            settlement_kept(old(self)@.state, final(self)@.state),
            match old(self)@.finalize_settlement(price) {
                Ok(step) => r is Ok && final(self)@ == step.next && r.unwrap().deep_view()
                    == step.calls,
                Err(e) => r == Err::<Vec<Call>, MarketError>(e) && final(self)@ == old(self)@,
            },
    {
        if self.state.is_settled {
            return Err(MarketError::AlreadySettled);
        }
        let factor = self.calculate_settlement_factor(price);
        let fee = fee_amount(self.state.total_collateral, self.params.settle_fee_bps);
        self.state.total_collateral = self.state.total_collateral - fee;
        self.state.is_settled = true;
        self.state.settlement_price = Some(price);
        self.state.settlement_factor = Some(factor);
        let mut calls: Vec<Call> = Vec::new();
        if fee > 0 {
            calls.push(
                Call::RecordFee {
                    collector: self.fee_collector.clone(),
                    token: self.params.quote.clone(),
                    amount: fee,
                },
            );
        }
        assert(calls.deep_view() =~= old(self)@.finalize_settlement(price).unwrap().calls);
        Ok(calls)
    }

    /// Takes the oracle's reply to the price request of `settle`: `None`
    /// where the request failed or the oracle had no price. A price settles
    /// the market and is answered with `settled`; otherwise nothing changes,
    /// and settlement can be asked for again.
    pub fn on_price_received(&mut self, reply: Option<PriceData>) -> (receipt: PriceReceipt)
        requires
            old(self).wf(),
        ensures
            final(self).wf(),
            settlement_kept(old(self)@.state, final(self)@.state),
            final(self)@ == old(self)@.on_price_received(reply).0.next,
            receipt.calls.deep_view() == old(self)@.on_price_received(reply).0.calls,
            receipt.settled == old(self)@.on_price_received(reply).1,
    {
        match reply {
            Some(data) => match self.finalize_settlement(data.price) {
                Ok(calls) => PriceReceipt { settled: true, calls },
                Err(_) => {
                    let calls: Vec<Call> = Vec::new();
                    assert(calls.deep_view() =~= Seq::<CallView>::empty());
                    PriceReceipt { settled: false, calls }
                },
            },
            None => {
                let calls: Vec<Call> = Vec::new();
                assert(calls.deep_view() =~= Seq::<CallView>::empty());
                PriceReceipt { settled: false, calls }
            },
        }
    }
}

/// The correlation tag that attempt number `attempt` tries in block
/// `block_index`.
pub fn mint_tag(block_index: u64, attempt: usize) -> (tag: String)
    ensures
        tag@ == mint_tag_spec(block_index, attempt as nat),
{
    let mut tag = String::from_str("mint_");
    let digits = decimal_string(block_index as u128);
    tag.append(digits.as_str());
    if attempt > 0 {
        let number = decimal_string(attempt as u128);
        tag.append("_");
        tag.append(number.as_str());
    }
    tag
}

/// Different attempts in one block try different tags.
pub proof fn lemma_mint_tags_differ(block_index: u64, attempt: nat, other: nat)
    requires
        attempt != other,
    ensures
        mint_tag_spec(block_index, attempt) != mint_tag_spec(block_index, other),
{
    let base = "mint_"@ + decimal(block_index as nat);
    let start = (base + "_"@).len() as int;
    let tag = mint_tag_spec(block_index, attempt);
    let other_tag = mint_tag_spec(block_index, other);
    lemma_decimal_nonempty(attempt);
    lemma_decimal_nonempty(other);
    if attempt > 0 && other > 0 && tag == other_tag {
        assert(decimal(attempt) =~= tag.subrange(start, tag.len() as int));
        assert(decimal(other) =~= other_tag.subrange(start, other_tag.len() as int));
        lemma_decimal_injective(attempt, other);
    }
}

/// Where the first `tried` attempts of a block found their tags among the
/// finitely many `taken`, collected in `found`, this or a later attempt
/// finds a free tag, and the attempts that fail are no more than the tags
/// that are taken.
proof fn lemma_free_attempt_from(
    taken: Set<Seq<char>>,
    block_index: u64,
    tried: nat,
    found: Set<Seq<char>>,
)
    requires
        taken.finite(),
        found.finite(),
        found.len() == tried,
        found.subset_of(taken),
        forall|earlier: nat|
            earlier < tried ==> found.contains(#[trigger] mint_tag_spec(block_index, earlier)),
        forall|tag: Seq<char>| #[trigger]
            found.contains(tag) ==> exists|earlier: nat|
                earlier < tried && tag == mint_tag_spec(block_index, earlier),
    ensures
        exists|attempt: nat|
            attempt <= taken.len() && first_free_attempt(taken, block_index, attempt),
    decreases taken.len() - tried,
{
    vstd::set_lib::lemma_len_subset(found, taken);
    let tag = mint_tag_spec(block_index, tried);
    if !taken.contains(tag) {
        assert(first_free_attempt(taken, block_index, tried));
    } else {
        if found.contains(tag) {
            let earlier = choose|earlier: nat|
                earlier < tried && tag == mint_tag_spec(block_index, earlier);
            lemma_mint_tags_differ(block_index, earlier, tried);
        }
        let more = found.insert(tag);
        vstd::set_lib::lemma_len_subset(more, taken);
        assert forall|earlier: nat| earlier < tried + 1 implies more.contains(
            #[trigger] mint_tag_spec(block_index, earlier),
        ) by {
            if earlier < tried {
                assert(found.contains(mint_tag_spec(block_index, earlier)));
            }
        }
        assert forall|other: Seq<char>| #[trigger] more.contains(other) implies exists|
            earlier: nat,
        |
            earlier < tried + 1 && other == mint_tag_spec(block_index, earlier) by {
            if other == tag {
                assert(tried < tried + 1 && other == mint_tag_spec(block_index, tried));
            } else {
                assert(found.contains(other));
                let earlier = choose|earlier: nat|
                    earlier < tried && other == mint_tag_spec(block_index, earlier);
                assert(earlier < tried + 1 && other == mint_tag_spec(block_index, earlier));
            }
        }
        lemma_free_attempt_from(taken, block_index, tried + 1, more);
    }
}

/// Among finitely many taken tags a block always has a free one: the fresh
/// tag is not taken, every tag that an earlier attempt tried is, and the
/// attempts that fail are no more than the tags that are taken.
pub proof fn lemma_fresh_tag_is_free(taken: Set<Seq<char>>, block_index: u64)
    requires
        taken.finite(),
    ensures
        first_free_attempt(taken, block_index, fresh_attempt_spec(taken, block_index)),
        fresh_attempt_spec(taken, block_index) <= taken.len(),
        !taken.contains(fresh_tag_spec(taken, block_index)),
{
    lemma_free_attempt_from(taken, block_index, 0, Set::empty());
    let bounded = choose|attempt: nat|
        attempt <= taken.len() && first_free_attempt(taken, block_index, attempt);
    let first = fresh_attempt_spec(taken, block_index);
    assert(first_free_attempt(taken, block_index, first));
    if first < bounded {
        assert(taken.contains(mint_tag_spec(block_index, first)));
    }
    if bounded < first {
        assert(taken.contains(mint_tag_spec(block_index, bounded)));
    }
}

/// A position that is accepted is registered under a tag that nothing was
/// pending under, and the table of pending actions is the one before with
/// that one entry more. A position is turned down only while minting is
/// paused, after settlement, or for an amount of zero.
pub proof fn lemma_position_gets_fresh_tag(
    market: MarketView,
    account: Seq<char>,
    amount: u128,
    block_index: u64,
    current_account: Seq<char>,
)
    requires
        market.inv(),
    ensures
        market.create_position(account, amount, block_index, current_account) is Err <==> (
        market.state.paused_mint || market.state.is_settled || amount == 0),
        market.create_position(account, amount, block_index, current_account) is Ok ==> ({
            let next = market.create_position(
                account,
                amount,
                block_index,
                current_account,
            ).unwrap().next;
            let tag = market.fresh_tag(block_index);
            &&& !market.pending_actions.contains_key(tag)
            &&& next.pending_actions == market.pending_actions.insert(
                tag,
                PendingActionView { account, amount, action_type: ActionType::Mint },
            )
            &&& next.pending_actions.dom().len() == market.pending_actions.dom().len() + 1
            &&& next.state == market.state
        }),
{
    lemma_fresh_tag_is_free(market.pending_actions.dom(), block_index);
}

/// Settlement happens once: after a finalization that went through, another
/// one is turned down, and a price reply changes nothing, so the settlement
/// price and factor stay what the first finalization made them.
pub proof fn lemma_settlement_happens_once(
    market: MarketView,
    first_price: u128,
    second_price: u128,
    reply: Option<PriceData>,
)
    requires
        market.finalize_settlement(first_price) is Ok,
    ensures
        ({
            let settled = market.finalize_settlement(first_price).unwrap().next;
            &&& settled.state.is_settled
            &&& settled.state.settlement_price == Some(first_price)
            &&& settled.finalize_settlement(second_price) == Err::<MarketStep, MarketError>(
                MarketError::AlreadySettled,
            )
            &&& settled.on_price_received(reply).0.next == settled
            &&& !settled.on_price_received(reply).1
        }),
{
}

/// No operation breaks the market invariant, changes the parameters, or
/// touches a settlement that was made.
pub proof fn lemma_operation_keeps_invariant(market: MarketView, op: MarketOp)
    requires
        market.inv(),
    ensures
        market.after(op).inv(),
        market.after(op).params == market.params,
        settlement_kept(market.state, market.after(op).state),
{
    let lower = market.params.lower_bound_l as int;
    let upper = market.params.upper_bound_u as int;
    match op {
        MarketOp::Transfer { token, sender, amount, msg } => {
            lemma_fee_within_amount(amount as int, market.params.mint_fee_bps as int);
        },
        MarketOp::Redeem { account, long_amount, short_amount } => {
            if market.state.is_settled {
                let factor = market.state.settlement_factor.unwrap() as int;
                lemma_settlement_factor_range(
                    lower,
                    upper,
                    market.state.settlement_price.unwrap() as int,
                );
                lemma_payout_within_amount(long_amount as int, factor);
                lemma_payout_within_amount(short_amount as int, SCALE - factor);
            }
        },
        MarketOp::FinalizeSettlement { price } => {
            lemma_settlement_factor_range(lower, upper, price as int);
            lemma_fee_within_amount(
                market.state.total_collateral as int,
                market.params.settle_fee_bps as int,
            );
        },
        MarketOp::PriceReply { reply } => {
            if let Some(data) = reply {
                lemma_settlement_factor_range(lower, upper, data.price as int);
                lemma_fee_within_amount(
                    market.state.total_collateral as int,
                    market.params.settle_fee_bps as int,
                );
            }
        },
        _ => {},
    }
}

/// Whatever operations a market goes through, in whatever order, it keeps
/// its invariant and its parameters, and a settlement, once made, stays as
/// it was made.
pub proof fn lemma_operations_keep_invariant(market: MarketView, ops: Seq<MarketOp>)
    requires
        market.inv(),
    ensures
        market.after_all(ops).inv(),
        market.after_all(ops).params == market.params,
        settlement_kept(market.state, market.after_all(ops).state),
    decreases ops.len(),
{
    if ops.len() > 0 {
        lemma_operations_keep_invariant(market, ops.drop_last());
        lemma_operation_keeps_invariant(market.after_all(ops.drop_last()), ops.last());
    }
}

} // verus!
