//! Bounded-forward derivative markets: the market engine that mints, settles
//! and redeems a long/short claim pair against pooled collateral, and the
//! deployment orchestrator that provisions and registers such markets.
//!
//! The engines hold their state in memory and never wait: whatever an
//! operation needs from outside (the caller, the time, attached funds, the
//! reply of another contract) is handed in, and whatever it wants done
//! outside is handed back as a request. Each engine has a view of plain
//! values, a model of its operations on that view, and the laws that the
//! model obeys.
//!
//! - [`fixed_point`]: the payoff arithmetic, exact for every product.
//! - [`market`]: the market engine.
//! - [`factory`]: the deployment orchestrator.
//! - [`fee_collector`], [`oracle`], [`claim_token`]: the collaborators of a
//!   market.
//! - [`calls`], [`params`], [`table`], [`text`]: what the engines share.

pub mod calls;
pub mod claim_token;
pub mod factory;
pub mod fee_collector;
pub mod fixed_point;
pub mod market;
pub mod oracle;
pub mod params;
pub mod table;
pub mod text;

pub use calls::Call;
pub use claim_token::{LedgerError, LedgerOp, LongToken};
pub use factory::{
    compute_market_key, DeployStep, FactoryError, FactoryRecord, ForwardFactory, KeyList,
    MarketInfo, CLAIM_DECIMALS, MARKET_STORAGE, TOKEN_STORAGE,
};
pub use fee_collector::{FeeCollector, FeeCollectorRecord, FeeError};
pub use fixed_point::{
    fee_amount, mul_div, settlement_factor, share_payout, BPS_DENOMINATOR, SCALE,
};
pub use market::{
    ActionType, ForwardMarket, MarketError, MarketRecord, MarketState, PendingAction,
    PriceReceipt, Reconciliation,
};
pub use oracle::{OracleConfig, OracleError, OracleRecord, OracleRouter, PriceQuery};
pub use params::{MarketParams, PriceData};
pub use table::Table;
