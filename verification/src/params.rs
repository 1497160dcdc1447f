//! The parameters that define one market, and a price observation.

use crate::fixed_point::BPS_DENOMINATOR;
use vstd::prelude::*;

verus! {

/// What defines a market: the pair of assets, the maturity, the strike and
/// the band, and the three fees in basis points.
#[derive(Debug, PartialEq, Eq)]
pub struct MarketParams {
    pub underlying: String,
    pub quote: String,
    pub maturity: u64,
    pub strike_k: u128,
    pub lower_bound_l: u128,
    pub upper_bound_u: u128,
    pub mint_fee_bps: u16,
    pub settle_fee_bps: u16,
    pub redeem_fee_bps: u16,
}

/// Market parameters as plain values.
pub struct MarketParamsView {
    pub underlying: Seq<char>,
    pub quote: Seq<char>,
    pub maturity: u64,
    pub strike_k: u128,
    pub lower_bound_l: u128,
    pub upper_bound_u: u128,
    pub mint_fee_bps: u16,
    pub settle_fee_bps: u16,
    pub redeem_fee_bps: u16,
}

impl View for MarketParams {
    type V = MarketParamsView;

    open spec fn view(&self) -> MarketParamsView {
        MarketParamsView {
            underlying: self.underlying@,
            quote: self.quote@,
            maturity: self.maturity,
            strike_k: self.strike_k,
            lower_bound_l: self.lower_bound_l,
            upper_bound_u: self.upper_bound_u,
            mint_fee_bps: self.mint_fee_bps,
            settle_fee_bps: self.settle_fee_bps,
            redeem_fee_bps: self.redeem_fee_bps,
        }
    }
}

impl MarketParamsView {
    /// The band is not empty and holds the strike.
    pub open spec fn band_valid(self) -> bool {
        &&& self.lower_bound_l < self.upper_bound_u
        &&& self.lower_bound_l <= self.strike_k <= self.upper_bound_u
    }

    /// No fee is more than the whole.
    pub open spec fn fees_valid(self) -> bool {
        &&& self.mint_fee_bps <= BPS_DENOMINATOR
        &&& self.settle_fee_bps <= BPS_DENOMINATOR
        &&& self.redeem_fee_bps <= BPS_DENOMINATOR
    }

    /// What holds of the parameters of every market that was constructed.
    pub open spec fn valid(self) -> bool {
        self.band_valid() && self.fees_valid()
    }
}

impl Clone for MarketParams {
    fn clone(&self) -> (copy: Self)
        ensures
            copy == *self,
    {
        MarketParams {
            underlying: self.underlying.clone(),
            quote: self.quote.clone(),
            maturity: self.maturity,
            strike_k: self.strike_k,
            lower_bound_l: self.lower_bound_l,
            upper_bound_u: self.upper_bound_u,
            mint_fee_bps: self.mint_fee_bps,
            settle_fee_bps: self.settle_fee_bps,
            redeem_fee_bps: self.redeem_fee_bps,
        }
    }
}

/// A price with the time at which it was observed.
#[derive(Clone, Copy, Debug, PartialEq, Eq)]
pub struct PriceData {
    pub price: u128,
    pub timestamp: u64,
    pub decimals: u8,
}

impl View for PriceData {
    type V = PriceData;

    open spec fn view(&self) -> PriceData {
        *self
    }
}

} // verus!
