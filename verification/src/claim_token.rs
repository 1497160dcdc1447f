//! The guard of a claim ledger: claims of one side of a market, minted and
//! burned by that market alone. The balances themselves are kept by the
//! ledger that carries out what the guard lets through.

use vstd::prelude::*;

verus! {

/// Why the guard turned an operation down.
#[derive(Clone, Copy, Debug, PartialEq, Eq)]
pub enum LedgerError {
    /// The caller is not the market that owns the ledger.
    NotMarket,
}

impl LedgerError {
    /// The reason in words.
    pub open spec fn message_spec(self) -> Seq<char> {
        match self {
            LedgerError::NotMarket => "Only market can mint/burn"@,
        }
    }

    /// The reason in words, to show to the caller.
    pub fn message(&self) -> (text: &'static str)
        ensures
            text@ == self.message_spec(),
    {
        match self {
            LedgerError::NotMarket => "Only market can mint/burn",
        }
    }
}

/// What the ledger is to do to its balances.
#[derive(Debug, PartialEq, Eq)]
pub enum LedgerOp {
    /// Open an account with no balance.
    Register { account: String },
    /// Add `amount` to the balance of `account` and to the supply.
    Deposit { account: String, amount: u128 },
    /// Take `amount` from the balance of `account` and from the supply.
    Withdraw { account: String, amount: u128 },
}

/// A ledger operation as plain values.
pub enum LedgerOpView {
    Register { account: Seq<char> },
    Deposit { account: Seq<char>, amount: u128 },
    Withdraw { account: Seq<char>, amount: u128 },
}

impl View for LedgerOp {
    type V = LedgerOpView;

    open spec fn view(&self) -> LedgerOpView {
        match *self {
            LedgerOp::Register { account } => LedgerOpView::Register { account: account@ },
            LedgerOp::Deposit { account, amount } => LedgerOpView::Deposit {
                account: account@,
                amount,
            },
            LedgerOp::Withdraw { account, amount } => LedgerOpView::Withdraw {
                account: account@,
                amount,
            },
        }
    }
}

/// A claim token: the market that owns it, and how it presents itself.
#[derive(Debug, PartialEq, Eq)]
pub struct LongToken {
    pub market: String,
    pub name: String,
    pub symbol: String,
    pub decimals: u8,
}

impl LongToken {
    /// A claim token owned by `market`, with the operation that opens the
    /// market's own account on the ledger.
    pub fn new(market: String, name: String, symbol: String, decimals: u8) -> (r: (
        LongToken,
        LedgerOp,
    ))
        ensures
            r.0.market@ == market@,
            r.0.name@ == name@,
            r.0.symbol@ == symbol@,
            r.0.decimals == decimals,
            r.1@ == (LedgerOpView::Register { account: market@ }),
    {
        let registration = LedgerOp::Register { account: market.clone() };
        (LongToken { market, name, symbol, decimals }, registration)
    }

    /// Lets the owning market mint `amount` claims for `account_id`; turns
    /// every other caller down.
    pub fn mint(&self, caller: &String, account_id: String, amount: u128) -> (r: Result<
        LedgerOp,
        LedgerError,
    >)
        ensures
            caller@ == self.market@ ==> r is Ok && r.unwrap()@ == (LedgerOpView::Deposit {
                account: account_id@,
                amount,
            }),
            caller@ != self.market@ ==> r == Err::<LedgerOp, LedgerError>(LedgerError::NotMarket),
    {
        if *caller == self.market {
            Ok(LedgerOp::Deposit { account: account_id, amount })
        } else {
            Err(LedgerError::NotMarket)
        }
    }

    /// Lets the owning market burn `amount` claims of `account_id`; turns
    /// every other caller down.
    pub fn burn(&self, caller: &String, account_id: String, amount: u128) -> (r: Result<
        LedgerOp,
        LedgerError,
    >)
        ensures
            caller@ == self.market@ ==> r is Ok && r.unwrap()@ == (LedgerOpView::Withdraw {
                account: account_id@,
                amount,
            }),
            caller@ != self.market@ ==> r == Err::<LedgerOp, LedgerError>(LedgerError::NotMarket),
    {
        if *caller == self.market {
            Ok(LedgerOp::Withdraw { account: account_id, amount })
        } else {
            Err(LedgerError::NotMarket)
        }
    }
}

} // verus!
