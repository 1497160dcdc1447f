use forward_markets::{Call, FeeCollector, FeeError};

fn s(text: &str) -> String {
    text.to_string()
}

fn collector() -> FeeCollector {
    let mut collector = FeeCollector::new(s("owner.near"), s("treasury.near"));
    collector.authorize_market(&s("owner.near"), s("market.near")).unwrap();
    collector
}

#[test]
fn new_collector_has_collected_nothing() {
    let collector = FeeCollector::new(s("owner.near"), s("treasury.near"));
    assert_eq!(collector.get_collected_fees(&s("usdc.near")), 0);
    assert_eq!(collector.get_treasury(), "treasury.near");
    assert!(!collector.is_market_authorized(&s("market.near")));
}

#[test]
fn only_the_owner_authorizes_and_revokes() {
    let mut collector = FeeCollector::new(s("owner.near"), s("treasury.near"));
    assert_eq!(
        collector.authorize_market(&s("alice.near"), s("market.near")),
        Err(FeeError::NotOwner)
    );
    assert!(!collector.is_market_authorized(&s("market.near")));
    assert_eq!(collector.authorize_market(&s("owner.near"), s("market.near")), Ok(()));
    assert!(collector.is_market_authorized(&s("market.near")));
    assert_eq!(
        collector.revoke_market(&s("alice.near"), &s("market.near")),
        Err(FeeError::NotOwner)
    );
    assert!(collector.is_market_authorized(&s("market.near")));
    assert_eq!(collector.revoke_market(&s("owner.near"), &s("market.near")), Ok(()));
    assert!(!collector.is_market_authorized(&s("market.near")));
}

#[test]
fn only_the_owner_names_the_treasury() {
    let mut collector = collector();
    assert_eq!(collector.set_treasury(&s("alice.near"), s("alice.near")), Err(FeeError::NotOwner));
    assert_eq!(collector.get_treasury(), "treasury.near");
    assert_eq!(collector.set_treasury(&s("owner.near"), s("vault.near")), Ok(()));
    assert_eq!(collector.get_treasury(), "vault.near");
}

#[test]
fn recorded_fees_add_up_per_token() {
    let mut collector = collector();
    assert_eq!(collector.record_fee(&s("market.near"), s("usdc.near"), 5), Ok(()));
    assert_eq!(collector.record_fee(&s("market.near"), s("usdc.near"), 7), Ok(()));
    assert_eq!(collector.record_fee(&s("market.near"), s("dai.near"), 1), Ok(()));
    assert_eq!(collector.get_collected_fees(&s("usdc.near")), 12);
    assert_eq!(collector.get_collected_fees(&s("dai.near")), 1);
    assert_eq!(collector.get_collected_fees(&s("wrap.near")), 0);
}

#[test]
fn record_fee_is_for_authorized_markets() {
    let mut collector = collector();
    assert_eq!(
        collector.record_fee(&s("other.near"), s("usdc.near"), 5),
        Err(FeeError::NotAuthorizedMarket)
    );
    assert_eq!(
        collector.record_fee(&s("owner.near"), s("usdc.near"), 5),
        Err(FeeError::NotAuthorizedMarket)
    );
    collector.revoke_market(&s("owner.near"), &s("market.near")).unwrap();
    assert_eq!(
        collector.record_fee(&s("market.near"), s("usdc.near"), 5),
        Err(FeeError::NotAuthorizedMarket)
    );
    assert_eq!(collector.get_collected_fees(&s("usdc.near")), 0);
}

#[test]
fn record_fee_fails_where_the_balance_would_overflow() {
    let mut collector = collector();
    collector.record_fee(&s("market.near"), s("usdc.near"), u128::MAX).unwrap();
    assert_eq!(
        collector.record_fee(&s("market.near"), s("usdc.near"), 1),
        Err(FeeError::ArithmeticOverflow)
    );
    assert_eq!(collector.get_collected_fees(&s("usdc.near")), u128::MAX);
}

#[test]
fn withdrawal_goes_to_the_treasury() {
    let mut collector = collector();
    collector.record_fee(&s("market.near"), s("usdc.near"), 12).unwrap();
    assert_eq!(
        collector.withdraw_fees(&s("owner.near"), s("usdc.near"), Some(5)),
        Ok(Call::Transfer {
            token: s("usdc.near"),
            receiver: s("treasury.near"),
            amount: 5,
            memo: s("Fee withdrawal"),
        })
    );
    assert_eq!(collector.get_collected_fees(&s("usdc.near")), 7);
    assert_eq!(
        collector.withdraw_fees(&s("owner.near"), s("usdc.near"), None),
        Ok(Call::Transfer {
            token: s("usdc.near"),
            receiver: s("treasury.near"),
            amount: 7,
            memo: s("Fee withdrawal"),
        })
    );
    assert_eq!(collector.get_collected_fees(&s("usdc.near")), 0);
}

#[test]
fn withdrawal_of_nothing_transfers_nothing() {
    let mut collector = collector();
    assert_eq!(
        collector.withdraw_fees(&s("owner.near"), s("usdc.near"), None),
        Ok(Call::Transfer {
            token: s("usdc.near"),
            receiver: s("treasury.near"),
            amount: 0,
            memo: s("Fee withdrawal"),
        })
    );
}

#[test]
fn withdrawal_of_more_than_was_collected_is_rejected() {
    let mut collector = collector();
    collector.record_fee(&s("market.near"), s("usdc.near"), 12).unwrap();
    assert_eq!(
        collector.withdraw_fees(&s("owner.near"), s("usdc.near"), Some(13)),
        Err(FeeError::InsufficientFees)
    );
    assert_eq!(
        collector.withdraw_fees(&s("owner.near"), s("dai.near"), Some(1)),
        Err(FeeError::InsufficientFees)
    );
    assert_eq!(collector.get_collected_fees(&s("usdc.near")), 12);
}

#[test]
fn withdrawal_is_for_the_owner() {
    let mut collector = collector();
    collector.record_fee(&s("market.near"), s("usdc.near"), 12).unwrap();
    assert_eq!(
        collector.withdraw_fees(&s("market.near"), s("usdc.near"), Some(1)),
        Err(FeeError::NotOwner)
    );
    assert_eq!(collector.get_collected_fees(&s("usdc.near")), 12);
}

#[test]
fn transfer_marked_as_fee_is_collected_whole() {
    let mut collector = collector();
    assert_eq!(collector.ft_on_transfer(s("usdc.near"), 9, &s("fee")), Ok(0));
    assert_eq!(collector.get_collected_fees(&s("usdc.near")), 9);
    assert_eq!(collector.ft_on_transfer(s("usdc.near"), 9, &s("fees")), Ok(9));
    assert_eq!(collector.ft_on_transfer(s("usdc.near"), 9, &s("")), Ok(9));
    assert_eq!(collector.get_collected_fees(&s("usdc.near")), 9);
    assert_eq!(
        collector.ft_on_transfer(s("usdc.near"), u128::MAX, &s("fee")),
        Err(FeeError::ArithmeticOverflow)
    );
    assert_eq!(collector.get_collected_fees(&s("usdc.near")), 9);
}
