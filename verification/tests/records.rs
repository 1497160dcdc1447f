use forward_markets::{
    ActionType, FactoryError, FactoryRecord, FeeCollector, FeeCollectorRecord, FeeError,
    ForwardFactory, ForwardMarket, KeyList, MarketError, MarketInfo, MarketParams, MarketRecord,
    MarketState, OracleConfig, OracleError, OracleRecord, OracleRouter, PendingAction, PriceData,
    Table,
};

const ONE: u128 = 1_000_000_000_000_000_000_000_000;

fn s(text: &str) -> String {
    text.to_string()
}

fn params() -> MarketParams {
    MarketParams {
        underlying: s("wrap.near"),
        quote: s("usdc.near"),
        maturity: 1_700_000_000,
        strike_k: 50 * ONE,
        lower_bound_l: 30 * ONE,
        upper_bound_u: 70 * ONE,
        mint_fee_bps: 30,
        settle_fee_bps: 50,
        redeem_fee_bps: 20,
    }
}

fn market_record() -> MarketRecord {
    MarketRecord {
        params: params(),
        state: MarketState {
            is_settled: false,
            settlement_price: None,
            settlement_factor: None,
            total_collateral: 10,
            long_token_supply: 12,
            short_token_supply: 12,
            paused_mint: false,
            paused_settle: true,
        },
        long_token: s("long.near"),
        short_token: s("short.near"),
        oracle: s("oracle.near"),
        fee_collector: s("fees.near"),
        owner: s("owner.near"),
        guardian: s("guardian.near"),
        user_deposits: vec![(s("alice.near"), 7), (s("bob.near"), 5)],
        pending_actions: vec![(
            s("mint_9"),
            PendingAction { account: s("carol.near"), amount: 100, action_type: ActionType::Mint },
        )],
    }
}

fn info(number: u64, creator: &str) -> MarketInfo {
    MarketInfo {
        market_id: format!("market-{}.factory.near", number),
        long_token: format!("long-{}.factory.near", number),
        short_token: format!("short-{}.factory.near", number),
        params: params(),
        created_at: number,
        creator: s(creator),
    }
}

fn factory_record() -> FactoryRecord {
    FactoryRecord {
        owner: s("owner.near"),
        oracle: s("oracle.near"),
        fee_collector: s("fees.near"),
        guardian: s("guardian.near"),
        markets: vec![(s("k1"), info(1, "alice.near")), (s("k2"), info(2, "bob.near"))],
        markets_by_creator: vec![
            (s("alice.near"), KeyList { keys: vec![s("k1")] }),
            (s("bob.near"), KeyList { keys: vec![s("k2")] }),
        ],
        market_code: vec![1],
        long_token_code: vec![2],
        short_token_code: vec![3],
        paused: false,
        deploy_counter: 2,
    }
}

#[test]
fn table_goes_to_entries_and_back() {
    let entries = vec![(s("b"), 2u128), (s("a"), 1u128)];
    let table = Table::from_entries(entries.clone()).unwrap();
    assert_eq!(table.len(), 2);
    assert_eq!(table.key_at(0), "b");
    assert_eq!(table.get(&s("a")), Some(&1));
    assert_eq!(table.into_entries(), entries);
    let empty: Table<u128> = Table::from_entries(vec![]).unwrap();
    assert_eq!(empty.len(), 0);
}

#[test]
fn table_refuses_entries_with_a_key_twice() {
    assert!(Table::from_entries(vec![(s("a"), 1u128), (s("b"), 2), (s("a"), 3)]).is_none());
}

#[test]
fn market_goes_to_a_record_and_back() {
    let market = ForwardMarket::from_record(market_record()).unwrap();
    assert_eq!(market.get_user_deposit(&s("alice.near")), 7);
    assert_eq!(market.get_user_deposit(&s("bob.near")), 5);
    assert_eq!(market.get_market_state().total_collateral, 10);
    assert_eq!(market.into_record(), market_record());
}

#[test]
fn loaded_market_goes_on_where_it_stood() {
    let mut market = ForwardMarket::from_record(market_record()).unwrap();
    let outcome =
        market.ft_on_transfer(&s("usdc.near"), s("carol.near"), 100, s("mint_9")).unwrap();
    assert_eq!(outcome.unused, 0);
    let record = market.into_record();
    assert_eq!(record.state.total_collateral, 110);
    assert_eq!(record.state.long_token_supply, 112);
    assert_eq!(record.pending_actions, vec![]);
    assert_eq!(
        record.user_deposits,
        vec![(s("alice.near"), 7), (s("bob.near"), 5), (s("carol.near"), 100)]
    );
}

#[test]
fn market_record_with_unequal_supplies_is_refused() {
    let mut record = market_record();
    record.state.short_token_supply = 11;
    assert!(ForwardMarket::from_record(record).is_none());
}

#[test]
fn market_record_with_more_collateral_than_supply_is_refused() {
    let mut record = market_record();
    record.state.total_collateral = 13;
    assert!(ForwardMarket::from_record(record).is_none());
}

#[test]
fn market_record_with_half_a_settlement_is_refused() {
    let mut flagged = market_record();
    flagged.state.is_settled = true;
    assert!(ForwardMarket::from_record(flagged).is_none());
    let mut priced = market_record();
    priced.state.settlement_price = Some(50 * ONE);
    assert!(ForwardMarket::from_record(priced).is_none());
    let mut wrong_factor = market_record();
    wrong_factor.state.is_settled = true;
    wrong_factor.state.settlement_price = Some(50 * ONE);
    wrong_factor.state.settlement_factor = Some(1);
    assert!(ForwardMarket::from_record(wrong_factor).is_none());
    let mut settled = market_record();
    settled.state.is_settled = true;
    settled.state.settlement_price = Some(50 * ONE);
    settled.state.settlement_factor = Some(ONE / 2);
    assert!(ForwardMarket::from_record(settled).is_some());
}

#[test]
fn market_record_with_invalid_parameters_is_refused() {
    let mut band = market_record();
    band.params.lower_bound_l = band.params.upper_bound_u;
    assert!(ForwardMarket::from_record(band).is_none());
    let mut fee = market_record();
    fee.params.redeem_fee_bps = 10_001;
    assert!(ForwardMarket::from_record(fee).is_none());
}

#[test]
fn market_record_with_an_account_or_a_tag_twice_is_refused() {
    let mut deposits = market_record();
    deposits.user_deposits.push((s("alice.near"), 1));
    assert!(ForwardMarket::from_record(deposits).is_none());
    let mut pending = market_record();
    pending.pending_actions.push((
        s("mint_9"),
        PendingAction { account: s("dave.near"), amount: 1, action_type: ActionType::Mint },
    ));
    assert!(ForwardMarket::from_record(pending).is_none());
}

#[test]
fn factory_goes_to_a_record_and_back() {
    let factory = ForwardFactory::from_record(factory_record()).unwrap();
    assert_eq!(factory.get_market_count(), 2);
    assert_eq!(factory.get_market(&s("k2")), Some(info(2, "bob.near")));
    assert_eq!(factory.get_markets_by_creator(&s("alice.near")), vec![info(1, "alice.near")]);
    assert_eq!(factory.into_record(), factory_record());
}

#[test]
fn loaded_factory_goes_on_counting() {
    let mut factory = ForwardFactory::from_record(factory_record()).unwrap();
    let steps = factory
        .deploy_market(params(), 20 * ONE, s("carol.near"), &s("factory.near"), 9)
        .unwrap();
    assert_eq!(steps.len(), 4);
    assert_eq!(factory.into_record().deploy_counter, 3);
}

#[test]
fn factory_record_with_a_key_or_a_creator_twice_is_refused() {
    let mut markets = factory_record();
    markets.markets.push((s("k1"), info(3, "alice.near")));
    assert!(ForwardFactory::from_record(markets).is_none());
    let mut creators = factory_record();
    creators.markets_by_creator.push((s("alice.near"), KeyList { keys: vec![] }));
    assert!(ForwardFactory::from_record(creators).is_none());
}

#[test]
fn factory_record_that_lists_an_unregistered_key_is_refused() {
    let mut record = factory_record();
    record.markets_by_creator[1].1.keys.push(s("k3"));
    assert!(ForwardFactory::from_record(record).is_none());
    let mut listed_twice = factory_record();
    listed_twice.markets_by_creator[1].1.keys.push(s("k1"));
    assert!(ForwardFactory::from_record(listed_twice).is_some());
}

#[test]
fn fee_collector_goes_to_a_record_and_back() {
    let record = FeeCollectorRecord {
        owner: s("owner.near"),
        treasury: s("treasury.near"),
        authorized_markets: vec![(s("market.near"), true), (s("old.near"), false)],
        collected_fees: vec![(s("usdc.near"), 9)],
    };
    let collector = FeeCollector::from_record(FeeCollectorRecord {
        owner: s("owner.near"),
        treasury: s("treasury.near"),
        authorized_markets: vec![(s("market.near"), true), (s("old.near"), false)],
        collected_fees: vec![(s("usdc.near"), 9)],
    })
    .unwrap();
    assert!(collector.is_market_authorized(&s("market.near")));
    assert!(!collector.is_market_authorized(&s("old.near")));
    assert_eq!(collector.get_collected_fees(&s("usdc.near")), 9);
    assert_eq!(collector.into_record(), record);
    assert!(FeeCollector::from_record(FeeCollectorRecord {
        owner: s("owner.near"),
        treasury: s("treasury.near"),
        authorized_markets: vec![],
        collected_fees: vec![(s("usdc.near"), 9), (s("usdc.near"), 1)],
    })
    .is_none());
}

#[test]
fn oracle_goes_to_a_record_and_back() {
    let config = OracleConfig {
        rhea_pool_id: 1,
        twap_window: 2,
        max_staleness: 3,
        max_deviation_bps: 4,
        use_stable_pool: false,
    };
    let data = PriceData { price: 5, timestamp: 6, decimals: 24 };
    let record = OracleRecord {
        owner: s("owner.near"),
        oracle_configs: vec![(s("wrap.near:usdc.near"), config)],
        price_cache: vec![(s("wrap.near:usdc.near"), data)],
        paused: false,
    };
    let router = OracleRouter::from_record(OracleRecord {
        owner: s("owner.near"),
        oracle_configs: vec![(s("wrap.near:usdc.near"), config)],
        price_cache: vec![(s("wrap.near:usdc.near"), data)],
        paused: false,
    })
    .unwrap();
    assert_eq!(router.get_price(&s("wrap.near"), &s("usdc.near"), 6), Ok(Some(data)));
    assert_eq!(router.into_record(), record);
    assert!(OracleRouter::from_record(OracleRecord {
        owner: s("owner.near"),
        oracle_configs: vec![(s("a:b"), config), (s("a:b"), config)],
        price_cache: vec![],
        paused: false,
    })
    .is_none());
}

#[test]
fn every_rejection_says_why() {
    assert_eq!(MarketError::InvalidBounds.message(), "Invalid bounds");
    assert_eq!(MarketError::StrikeBelowLowerBound.message(), "Strike below lower bound");
    assert_eq!(MarketError::StrikeAboveUpperBound.message(), "Strike above upper bound");
    assert_eq!(MarketError::MaturityInPast.message(), "Maturity in past");
    assert_eq!(MarketError::FeeOutOfRange.message(), "Fee above 10000 basis points");
    assert_eq!(MarketError::MintingPaused.message(), "Minting is paused");
    assert_eq!(MarketError::MarketSettled.message(), "Market is settled");
    assert_eq!(MarketError::AmountNotPositive.message(), "Amount must be positive");
    assert_eq!(MarketError::NotSettled.message(), "Market not settled");
    assert_eq!(MarketError::NothingToRedeem.message(), "No tokens to redeem");
    assert_eq!(MarketError::InsufficientCollateral.message(), "Insufficient collateral");
    assert_eq!(MarketError::SettlementPaused.message(), "Settlement is paused");
    assert_eq!(MarketError::AlreadySettled.message(), "Already settled");
    assert_eq!(MarketError::NotMature.message(), "Not mature yet");
    assert_eq!(MarketError::NotAuthorized.message(), "Not authorized");
    assert_eq!(MarketError::WrongToken.message(), "Wrong token");
    assert_eq!(MarketError::ArithmeticOverflow.message(), "Arithmetic overflow");
    assert_eq!(FactoryError::Paused.message(), "Factory is paused");
    assert_eq!(FactoryError::MarketCodeNotSet.message(), "Market code not set");
    assert_eq!(FactoryError::TokenCodesNotSet.message(), "Token codes not set");
    assert_eq!(FactoryError::InsufficientDeposit.message(), "Insufficient deposit for deployment");
    assert_eq!(FactoryError::MarketExists.message(), "Market already exists");
    assert_eq!(FactoryError::NotOwner.message(), "Only owner can call this method");
    assert_eq!(FactoryError::NotAuthorized.message(), "Not authorized");
    assert_eq!(FactoryError::CounterOverflow.message(), "Deployment counter overflow");
    assert_eq!(FeeError::NotOwner.message(), "Only owner can call this method");
    assert_eq!(
        FeeError::NotAuthorizedMarket.message(),
        "Only authorized markets can call this method"
    );
    assert_eq!(FeeError::InsufficientFees.message(), "Insufficient collected fees");
    assert_eq!(FeeError::ArithmeticOverflow.message(), "Arithmetic overflow");
    assert_eq!(OracleError::NotOwner.message(), "Only owner can call this method");
    assert_eq!(OracleError::Paused.message(), "Oracle is paused");
    assert_eq!(OracleError::NotConfigured.message(), "Oracle not configured");
    assert_eq!(OracleError::ArithmeticOverflow.message(), "Arithmetic overflow");
}

#[test]
fn deployment_counter_stops_at_its_limit() {
    let mut record = factory_record();
    record.deploy_counter = u64::MAX;
    let mut factory = ForwardFactory::from_record(record).unwrap();
    let mut fresh = params();
    fresh.maturity += 1;
    assert_eq!(
        factory.deploy_market(fresh, 20 * ONE, s("carol.near"), &s("factory.near"), 9),
        Err(FactoryError::CounterOverflow)
    );
    assert_eq!(factory.into_record().deploy_counter, u64::MAX);
}
