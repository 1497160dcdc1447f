//! The fee ledger: what has been collected of each asset, which markets may
//! report fees, and the withdrawal of fees to the treasury.

use crate::calls::{Call, CallView};
use crate::table::{entries_map, entry_keys, Table};
use vstd::prelude::*;
use vstd::string::*;

verus! {

/// Why the fee ledger turned an operation down.
#[derive(Clone, Copy, Debug, PartialEq, Eq)]
pub enum FeeError {
    /// The caller is not the owner.
    NotOwner,
    /// The caller is not an authorized market.
    NotAuthorizedMarket,
    /// More was asked for than has been collected.
    InsufficientFees,
    /// A balance does not fit in 128 bits.
    ArithmeticOverflow,
}

impl FeeError {
    /// The reason in words.
    pub open spec fn message_spec(self) -> Seq<char> {
        match self {
            FeeError::NotOwner => "Only owner can call this method"@,
            FeeError::NotAuthorizedMarket => "Only authorized markets can call this method"@,
            FeeError::InsufficientFees => "Insufficient collected fees"@,
            FeeError::ArithmeticOverflow => "Arithmetic overflow"@,
        }
    }

    /// The reason in words, to show to the caller.
    pub fn message(&self) -> (text: &'static str)
        ensures
            text@ == self.message_spec(),
    {
        match self {
            FeeError::NotOwner => "Only owner can call this method",
            FeeError::NotAuthorizedMarket => "Only authorized markets can call this method",
            FeeError::InsufficientFees => "Insufficient collected fees",
            FeeError::ArithmeticOverflow => "Arithmetic overflow",
        }
    }
}

/// The fee ledger.
pub struct FeeCollector {
    owner: String,
    treasury: String,
    authorized_markets: Table<bool>,
    collected_fees: Table<u128>,
}

/// The fee ledger as plain values.
pub struct FeeCollectorView {
    pub owner: Seq<char>,
    pub treasury: Seq<char>,
    pub authorized_markets: Map<Seq<char>, bool>,
    pub collected_fees: Map<Seq<char>, u128>,
}

impl FeeCollectorView {
    /// What has been collected of `token` and not withdrawn.
    pub open spec fn fees_of(self, token: Seq<char>) -> u128 {
        if self.collected_fees.contains_key(token) {
            self.collected_fees[token]
        } else {
            0
        }
    }

    /// Whether `market` may report fees.
    pub open spec fn is_authorized(self, market: Seq<char>) -> bool {
        self.authorized_markets.contains_key(market) && self.authorized_markets[market]
    }

    /// The ledger after `amount` more of `token` was collected.
    pub open spec fn credited(self, token: Seq<char>, amount: u128) -> FeeCollectorView {
        FeeCollectorView {
            collected_fees: self.collected_fees.insert(
                token,
                (self.fees_of(token) + amount) as u128,
            ),
            ..self
        }
    }

    /// Reporting a fee of `amount` of `token` as `caller`.
    pub open spec fn record_fee(self, caller: Seq<char>, token: Seq<char>, amount: u128) -> Result<
        FeeCollectorView,
        FeeError,
    > {
        if !self.is_authorized(caller) {
            Err(FeeError::NotAuthorizedMarket)
        } else if self.fees_of(token) + amount > u128::MAX {
            Err(FeeError::ArithmeticOverflow)
        } else {
            Ok(self.credited(token, amount))
        }
    }

    /// Withdrawing `amount` of `token`, or all of it, to the treasury as
    /// `caller`. An asset of which nothing is left leaves the ledger.
    pub open spec fn withdraw_fees(
        self,
        caller: Seq<char>,
        token: Seq<char>,
        amount: Option<u128>,
    ) -> Result<(FeeCollectorView, CallView), FeeError> {
        let collected = self.fees_of(token);
        let withdrawn = match amount {
            Some(a) => a,
            None => collected,
        };
        if caller != self.owner {
            Err(FeeError::NotOwner)
        } else if withdrawn > collected {
            Err(FeeError::InsufficientFees)
        } else {
            Ok(
                (
                    FeeCollectorView {
                        collected_fees: if withdrawn == collected {
                            self.collected_fees.remove(token)
                        } else {
                            self.collected_fees.insert(token, (collected - withdrawn) as u128)
                        },
                        ..self
                    },
                    CallView::Transfer {
                        token,
                        receiver: self.treasury,
                        amount: withdrawn,
                        memo: "Fee withdrawal"@,
                    },
                ),
            )
        }
    }

    /// A transfer of `amount` of `token` with message `msg`: a fee deposit
    /// where the message is the marker `fee`, and not for this ledger
    /// otherwise. The result holds the ledger afterwards and what was left
    /// unconsumed.
    pub open spec fn ft_on_transfer(self, token: Seq<char>, amount: u128, msg: Seq<char>) -> Result<
        (FeeCollectorView, u128),
        FeeError,
    > {
        if msg != "fee"@ {
            Ok((self, amount))
        } else if self.fees_of(token) + amount > u128::MAX {
            Err(FeeError::ArithmeticOverflow)
        } else {
            Ok((self.credited(token, amount), 0))
        }
    }
}

/// Everything that a fee ledger holds, as plain data to store and to load.
#[derive(Debug, PartialEq, Eq)]
pub struct FeeCollectorRecord {
    pub owner: String,
    pub treasury: String,
    pub authorized_markets: Vec<(String, bool)>,
    pub collected_fees: Vec<(String, u128)>,
}

impl View for FeeCollectorRecord {
    type V = FeeCollectorView;

    open spec fn view(&self) -> FeeCollectorView {
        FeeCollectorView {
            owner: self.owner@,
            treasury: self.treasury@,
            authorized_markets: entries_map(self.authorized_markets@),
            collected_fees: entries_map(self.collected_fees@),
        }
    }
}

impl FeeCollectorRecord {
    /// Whether the record is that of a fee ledger: no market and no asset
    /// occurs twice.
    pub open spec fn valid(&self) -> bool {
        &&& entry_keys(self.authorized_markets@).no_duplicates()
        &&& entry_keys(self.collected_fees@).no_duplicates()
    }
}

impl View for FeeCollector {
    type V = FeeCollectorView;

    closed spec fn view(&self) -> FeeCollectorView {
        FeeCollectorView {
            owner: self.owner@,
            treasury: self.treasury@,
            authorized_markets: self.authorized_markets@,
            collected_fees: self.collected_fees@,
        }
    }
}

impl FeeCollector {
    /// The ledger's tables are well formed.
    pub closed spec fn wf(&self) -> bool {
        &&& self.authorized_markets.wf()
        &&& self.collected_fees.wf()
    }

    /// A ledger with nothing collected and no market authorized.
    pub fn new(owner: String, treasury: String) -> (collector: Self)
        ensures
            collector.wf(),
            collector@ == (FeeCollectorView {
                owner: owner@,
                treasury: treasury@,
                authorized_markets: Map::empty(),
                collected_fees: Map::empty(),
            }),
    {
        FeeCollector {
            owner,
            treasury,
            authorized_markets: Table::new(),
            collected_fees: Table::new(),
        }
    }

    /// Takes the ledger apart into a record of everything it holds.
    pub fn into_record(self) -> (record: FeeCollectorRecord)
        requires
            self.wf(),
        ensures
            record.valid(),
            record@ == self@,
    {
        let FeeCollector { owner, treasury, authorized_markets, collected_fees } = self;
        proof {
            authorized_markets.lemma_keys();
            collected_fees.lemma_keys();
        }
        FeeCollectorRecord {
            owner,
            treasury,
            authorized_markets: authorized_markets.into_entries(),
            collected_fees: collected_fees.into_entries(),
        }
    }

    /// Puts a ledger together from a record, if the record is that of a
    /// ledger.
    pub fn from_record(record: FeeCollectorRecord) -> (r: Option<FeeCollector>)
        ensures
            r is Some <==> record.valid(),
            match r {
                Some(collector) => collector.wf() && collector@ == record@,
                None => true,
            },
    {
        let FeeCollectorRecord { owner, treasury, authorized_markets, collected_fees } = record;
        let authorized_markets = match Table::from_entries(authorized_markets) {
            Some(table) => table,
            None => {
                return None;
            },
        };
        let collected_fees = match Table::from_entries(collected_fees) {
            Some(table) => table,
            None => {
                return None;
            },
        };
        Some(FeeCollector { owner, treasury, authorized_markets, collected_fees })
    }

    /// Lets `market` report fees. Only the owner may.
    pub fn authorize_market(&mut self, caller: &String, market: String) -> (r: Result<(), FeeError>)
        requires
            old(self).wf(),
        ensures
            final(self).wf(),
            r == (if caller@ == old(self)@.owner {
                Ok::<(), FeeError>(())
            } else {
                Err(FeeError::NotOwner)
            }),
            final(self)@ == (if r is Ok {
                FeeCollectorView {
                    authorized_markets: old(self)@.authorized_markets.insert(market@, true),
                    ..old(self)@
                }
            } else {
                old(self)@
            }),
    {
        if !(*caller == self.owner) {
            return Err(FeeError::NotOwner);
        }
        self.authorized_markets.insert(market, true);
        Ok(())
    }

    /// Stops `market` from reporting fees. Only the owner may.
    pub fn revoke_market(&mut self, caller: &String, market: &String) -> (r: Result<(), FeeError>)
        requires
            old(self).wf(),
        ensures
            final(self).wf(),
            r == (if caller@ == old(self)@.owner {
                Ok::<(), FeeError>(())
            } else {
                Err(FeeError::NotOwner)
            }),
            final(self)@ == (if r is Ok {
                FeeCollectorView {
                    authorized_markets: old(self)@.authorized_markets.remove(market@),
                    ..old(self)@
                }
            } else {
                old(self)@
            }),
    {
        if !(*caller == self.owner) {
            return Err(FeeError::NotOwner);
        }
        self.authorized_markets.remove(market);
        Ok(())
    }

    /// Names another treasury. Only the owner may.
    pub fn set_treasury(&mut self, caller: &String, treasury: String) -> (r: Result<(), FeeError>)
        requires
            old(self).wf(),
        ensures
            final(self).wf(),
            r == (if caller@ == old(self)@.owner {
                Ok::<(), FeeError>(())
            } else {
                Err(FeeError::NotOwner)
            }),
            final(self)@ == (if r is Ok {
                FeeCollectorView { treasury: treasury@, ..old(self)@ }
            } else {
                old(self)@
            }),
    {
        if !(*caller == self.owner) {
            return Err(FeeError::NotOwner);
        }
        self.treasury = treasury;
        Ok(())
    }

    /// Withdraws `amount` of the fees collected of `token`, or all of them
    /// where no amount is given, and hands back the transfer to the
    /// treasury. Only the owner may.
    pub fn withdraw_fees(&mut self, caller: &String, token: String, amount: Option<u128>) -> (r:
        Result<Call, FeeError>)
        requires
            old(self).wf(),
        ensures
            final(self).wf(),
            match old(self)@.withdraw_fees(caller@, token@, amount) {
                Ok((next, call)) => r is Ok && final(self)@ == next && r.unwrap()@ == call,
                Err(e) => r == Err::<Call, FeeError>(e) && final(self)@ == old(self)@,
            },
    {
        if !(*caller == self.owner) {
            return Err(FeeError::NotOwner);
        }
        let collected = self.get_collected_fees(&token);
        let withdrawn = match amount {
            Some(a) => a,
            None => collected,
        };
        if withdrawn > collected {
            return Err(FeeError::InsufficientFees);
        }
        let new_balance = collected - withdrawn;
        if new_balance == 0 {
            self.collected_fees.remove(&token);
        } else {
            self.collected_fees.insert(token.clone(), new_balance);
        }
        Ok(
            Call::Transfer {
                token,
                receiver: self.treasury.clone(),
                amount: withdrawn,
                memo: String::from_str("Fee withdrawal"),
            },
        )
    }

    /// Records that `caller`, an authorized market, took `amount` of `token`
    /// as a fee.
    pub fn record_fee(&mut self, caller: &String, token: String, amount: u128) -> (r: Result<
        (),
        FeeError,
    >)
        requires
            old(self).wf(),
        ensures
            final(self).wf(),
            match old(self)@.record_fee(caller@, token@, amount) {
                Ok(next) => r is Ok && final(self)@ == next,
                Err(e) => r == Err::<(), FeeError>(e) && final(self)@ == old(self)@,
            },
    {
        if !self.is_market_authorized(caller) {
            return Err(FeeError::NotAuthorizedMarket);
        }
        let current = self.get_collected_fees(&token);
        match current.checked_add(amount) {
            Some(sum) => {
                self.collected_fees.insert(token, sum);
                Ok(())
            },
            None => Err(FeeError::ArithmeticOverflow),
        }
    }

    /// What has been collected of `token` and not withdrawn.
    pub fn get_collected_fees(&self, token: &String) -> (fees: u128)
        requires
            self.wf(),
        ensures
            fees == self@.fees_of(token@),
    {
        match self.collected_fees.get(token) {
            Some(amount) => *amount,
            None => 0,
        }
    }

    /// The account that withdrawals go to.
    pub fn get_treasury(&self) -> (treasury: String)
        ensures
            treasury@ == self@.treasury,
    {
        self.treasury.clone()
    }

    /// Whether `market` may report fees.
    pub fn is_market_authorized(&self, market: &String) -> (authorized: bool)
        requires
            self.wf(),
        ensures
            authorized == self@.is_authorized(market@),
    {
        match self.authorized_markets.get(market) {
            Some(flag) => *flag,
            None => false,
        }
    }

    /// Takes a transfer of `amount` of `token` tagged `msg`, and answers how
    /// much of it was not consumed: nothing of a transfer tagged `fee`,
    /// which is collected whole, and all of any other.
    pub fn ft_on_transfer(&mut self, token: String, amount: u128, msg: &String) -> (r: Result<
        u128,
        FeeError,
    >)
        requires
            old(self).wf(),
        ensures
            final(self).wf(),
            match old(self)@.ft_on_transfer(token@, amount, msg@) {
                Ok((next, unused)) => r == Ok::<u128, FeeError>(unused) && final(self)@ == next,
                Err(e) => r == Err::<u128, FeeError>(e) && final(self)@ == old(self)@,
            },
    {
        let marker = String::from_str("fee");
        if !(*msg == marker) {
            return Ok(amount);
        }
        let current = self.get_collected_fees(&token);
        match current.checked_add(amount) {
            Some(sum) => {
                self.collected_fees.insert(token, sum);
                Ok(0)
            },
            None => Err(FeeError::ArithmeticOverflow),
        }
    }
}

} // verus!
