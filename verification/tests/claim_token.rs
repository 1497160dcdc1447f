use forward_markets::{LedgerError, LedgerOp, LongToken};

fn s(text: &str) -> String {
    text.to_string()
}

fn token() -> LongToken {
    LongToken::new(s("market.near"), s("LONG-wrap.near"), s("LONG"), 24).0
}

#[test]
fn new_claim_token_opens_the_account_of_its_market() {
    let (token, registration) =
        LongToken::new(s("market.near"), s("LONG-wrap.near"), s("LONG"), 24);
    assert_eq!(
        token,
        LongToken {
            market: s("market.near"),
            name: s("LONG-wrap.near"),
            symbol: s("LONG"),
            decimals: 24,
        }
    );
    assert_eq!(registration, LedgerOp::Register { account: s("market.near") });
}

#[test]
fn the_market_mints_and_burns() {
    let token = token();
    assert_eq!(
        token.mint(&s("market.near"), s("alice.near"), 5),
        Ok(LedgerOp::Deposit { account: s("alice.near"), amount: 5 })
    );
    assert_eq!(
        token.burn(&s("market.near"), s("alice.near"), 3),
        Ok(LedgerOp::Withdraw { account: s("alice.near"), amount: 3 })
    );
}

#[test]
fn nobody_else_mints_or_burns() {
    let token = token();
    assert_eq!(token.mint(&s("alice.near"), s("alice.near"), 5), Err(LedgerError::NotMarket));
    assert_eq!(token.burn(&s("alice.near"), s("bob.near"), 5), Err(LedgerError::NotMarket));
    assert_eq!(token.mint(&s("market.nea"), s("alice.near"), 5), Err(LedgerError::NotMarket));
    assert_eq!(LedgerError::NotMarket.message(), "Only market can mint/burn");
}
