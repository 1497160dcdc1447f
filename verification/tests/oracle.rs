use forward_markets::oracle::make_key;
use forward_markets::{OracleConfig, OracleError, OracleRouter, PriceData, PriceQuery};

const SECOND: u64 = 1_000_000_000;

fn s(text: &str) -> String {
    text.to_string()
}

fn config(max_staleness: u64, use_stable_pool: bool) -> OracleConfig {
    OracleConfig {
        rhea_pool_id: 42,
        twap_window: 300,
        max_staleness,
        max_deviation_bps: 500,
        use_stable_pool,
    }
}

fn router(max_staleness: u64, use_stable_pool: bool) -> OracleRouter {
    let mut router = OracleRouter::new(s("owner.near"));
    router
        .configure_oracle(
            &s("owner.near"),
            &s("wrap.near"),
            &s("usdc.near"),
            config(max_staleness, use_stable_pool),
        )
        .unwrap();
    router
}

#[test]
fn pair_key_joins_the_two_assets() {
    assert_eq!(make_key(&s("wrap.near"), &s("usdc.near")), "wrap.near:usdc.near");
}

#[test]
fn only_the_owner_configures_a_pair() {
    let mut router = OracleRouter::new(s("owner.near"));
    assert_eq!(
        router.configure_oracle(
            &s("alice.near"),
            &s("wrap.near"),
            &s("usdc.near"),
            config(60, false)
        ),
        Err(OracleError::NotOwner)
    );
    assert_eq!(router.get_oracle_config(&s("wrap.near"), &s("usdc.near")), None);
    assert_eq!(
        router.configure_oracle(
            &s("owner.near"),
            &s("wrap.near"),
            &s("usdc.near"),
            config(60, false)
        ),
        Ok(())
    );
    assert_eq!(
        router.get_oracle_config(&s("wrap.near"), &s("usdc.near")),
        Some(config(60, false))
    );
    assert_eq!(router.get_oracle_config(&s("usdc.near"), &s("wrap.near")), None);
}

#[test]
fn cached_price_is_returned_until_it_is_stale() {
    let mut router = router(60, false);
    let data = router.update_price_from_rhea(&s("wrap.near"), &s("usdc.near"), 5, 1_000);
    assert_eq!(data, PriceData { price: 5, timestamp: 1_000, decimals: 24 });
    assert_eq!(router.get_price(&s("wrap.near"), &s("usdc.near"), 1_000), Ok(Some(data)));
    assert_eq!(
        router.get_price(&s("wrap.near"), &s("usdc.near"), 1_000 + 60 * SECOND),
        Ok(Some(data))
    );
    assert_eq!(router.get_price(&s("wrap.near"), &s("usdc.near"), 1_001 + 60 * SECOND), Ok(None));
}

#[test]
fn price_is_absent_without_configuration_or_cache() {
    let mut bare = OracleRouter::new(s("owner.near"));
    bare.update_price_from_rhea(&s("wrap.near"), &s("usdc.near"), 5, 1_000);
    assert_eq!(bare.get_price(&s("wrap.near"), &s("usdc.near"), 1_000), Ok(None));
    let configured = router(60, false);
    assert_eq!(configured.get_price(&s("wrap.near"), &s("usdc.near"), 1_000), Ok(None));
}

#[test]
fn a_later_price_replaces_the_cached_one() {
    let mut router = router(60, false);
    router.update_price_from_rhea(&s("wrap.near"), &s("usdc.near"), 5, 1_000);
    let later = router.update_price_from_rhea(&s("wrap.near"), &s("usdc.near"), 6, 2_000);
    assert_eq!(router.get_price(&s("wrap.near"), &s("usdc.near"), 2_000), Ok(Some(later)));
}

#[test]
fn get_price_is_rejected_while_paused() {
    let mut router = router(60, false);
    router.update_price_from_rhea(&s("wrap.near"), &s("usdc.near"), 5, 1_000);
    assert_eq!(router.set_paused(&s("alice.near"), true), Err(OracleError::NotOwner));
    assert_eq!(router.set_paused(&s("owner.near"), true), Ok(()));
    assert_eq!(router.get_price(&s("wrap.near"), &s("usdc.near"), 1_000), Err(OracleError::Paused));
    assert_eq!(
        router.fetch_price(&s("wrap.near"), &s("usdc.near"), false),
        Err(OracleError::Paused)
    );
    assert_eq!(
        router.fetch_and_cache_price(&s("wrap.near"), &s("usdc.near"), false),
        Err(OracleError::Paused)
    );
    assert_eq!(router.set_paused(&s("owner.near"), false), Ok(()));
    assert!(router.get_price(&s("wrap.near"), &s("usdc.near"), 1_000).is_ok());
}

#[test]
fn get_price_fails_where_the_age_or_the_bound_does_not_fit() {
    let mut from_the_future = router(60, false);
    from_the_future.update_price_from_rhea(&s("wrap.near"), &s("usdc.near"), 5, 1_000);
    assert_eq!(
        from_the_future.get_price(&s("wrap.near"), &s("usdc.near"), 999),
        Err(OracleError::ArithmeticOverflow)
    );
    let mut unbounded = router(u64::MAX, false);
    unbounded.update_price_from_rhea(&s("wrap.near"), &s("usdc.near"), 5, 1_000);
    assert_eq!(
        unbounded.get_price(&s("wrap.near"), &s("usdc.near"), 1_000),
        Err(OracleError::ArithmeticOverflow)
    );
    let mut largest = router(u64::MAX / SECOND, false);
    largest.update_price_from_rhea(&s("wrap.near"), &s("usdc.near"), 5, 1_000);
    assert!(largest.get_price(&s("wrap.near"), &s("usdc.near"), 1_000).unwrap().is_some());
}

#[test]
fn fetch_price_asks_for_the_time_weighted_average() {
    let router = router(60, true);
    assert_eq!(
        router.fetch_price(&s("wrap.near"), &s("usdc.near"), false),
        Ok(PriceQuery::Twap {
            exchange: s("rhea.near"),
            pool_id: 42,
            token_in: s("wrap.near"),
            token_out: s("usdc.near"),
            window_secs: 300,
        })
    );
    assert_eq!(
        router.fetch_price(&s("wrap.near"), &s("usdc.near"), true),
        Ok(PriceQuery::Twap {
            exchange: s("rhea.testnet"),
            pool_id: 42,
            token_in: s("wrap.near"),
            token_out: s("usdc.near"),
            window_secs: 300,
        })
    );
    assert_eq!(
        router.fetch_price(&s("wrap.near"), &s("dai.near"), false),
        Err(OracleError::NotConfigured)
    );
}

#[test]
fn fetch_and_cache_price_asks_the_stable_pool_where_configured() {
    let stable = router(60, true);
    assert_eq!(
        stable.fetch_and_cache_price(&s("wrap.near"), &s("usdc.near"), false),
        Ok(PriceQuery::StablePool {
            exchange: s("rhea.near"),
            pool_id: 42,
            token_in: s("wrap.near"),
            token_out: s("usdc.near"),
        })
    );
    let weighted = router(60, false);
    assert_eq!(
        weighted.fetch_and_cache_price(&s("wrap.near"), &s("usdc.near"), true),
        Ok(PriceQuery::Twap {
            exchange: s("rhea.testnet"),
            pool_id: 42,
            token_in: s("wrap.near"),
            token_out: s("usdc.near"),
            window_secs: 300,
        })
    );
    assert_eq!(
        weighted.fetch_and_cache_price(&s("dai.near"), &s("usdc.near"), false),
        Err(OracleError::NotConfigured)
    );
}
