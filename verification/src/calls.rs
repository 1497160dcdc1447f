//! Requests that an engine hands to its caller to be sent to another
//! contract. The engine decides what is asked of whom; sending is left to
//! the caller, and nothing here waits for an answer.

use vstd::prelude::*;

verus! {

/// One outbound request.
#[derive(Debug, PartialEq, Eq)]
pub enum Call {
    /// Move `amount` of `token` to `receiver`, which is told `msg` and
    /// reports back what it did not consume.
    TransferCall { token: String, receiver: String, amount: u128, msg: String },
    /// Move `amount` of `token` to `receiver`.
    Transfer { token: String, receiver: String, amount: u128, memo: String },
    /// Mint `amount` claims on `ledger` for `account`.
    Mint { ledger: String, account: String, amount: u128 },
    /// Burn `amount` claims of `account` on `ledger`.
    Burn { ledger: String, account: String, amount: u128 },
    /// Tell `collector` that `amount` of `token` was taken as a fee.
    RecordFee { collector: String, token: String, amount: u128 },
    /// Ask `oracle` for the price of `underlying` in `quote`.
    GetPrice { oracle: String, underlying: String, quote: String },
}

/// A request as plain values.
pub enum CallView {
    TransferCall { token: Seq<char>, receiver: Seq<char>, amount: u128, msg: Seq<char> },
    Transfer { token: Seq<char>, receiver: Seq<char>, amount: u128, memo: Seq<char> },
    Mint { ledger: Seq<char>, account: Seq<char>, amount: u128 },
    Burn { ledger: Seq<char>, account: Seq<char>, amount: u128 },
    RecordFee { collector: Seq<char>, token: Seq<char>, amount: u128 },
    GetPrice { oracle: Seq<char>, underlying: Seq<char>, quote: Seq<char> },
}

impl View for Call {
    type V = CallView;

    open spec fn view(&self) -> CallView {
        match *self {
            Call::TransferCall { token, receiver, amount, msg } => CallView::TransferCall {
                token: token@,
                receiver: receiver@,
                amount,
                msg: msg@,
            },
            Call::Transfer { token, receiver, amount, memo } => CallView::Transfer {
                token: token@,
                receiver: receiver@,
                amount,
                memo: memo@,
            },
            Call::Mint { ledger, account, amount } => CallView::Mint {
                ledger: ledger@,
                account: account@,
                amount,
            },
            Call::Burn { ledger, account, amount } => CallView::Burn {
                ledger: ledger@,
                account: account@,
                amount,
            },
            Call::RecordFee { collector, token, amount } => CallView::RecordFee {
                collector: collector@,
                token: token@,
                amount,
            },
            Call::GetPrice { oracle, underlying, quote } => CallView::GetPrice {
                oracle: oracle@,
                underlying: underlying@,
                quote: quote@,
            },
        }
    }
}

impl DeepView for Call {
    type V = CallView;

    open spec fn deep_view(&self) -> CallView {
        self@
    }
}

} // verus!
