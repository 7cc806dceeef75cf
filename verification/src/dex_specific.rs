//! Per-DEX deployments of the constant-product decode: PancakeSwap on BSC,
//! QuickSwap on Polygon, and Trader Joe on Avalanche, which prices an
//! AVAX pool and scales the result to the target pair.
use crate::reserves::first_window;
use crate::reserves::parse_reserves_price;
use crate::reserves::read_u256_be;
use crate::reserves::spec_be_val;
use crate::reserves::spec_first_window;
use crate::reserves::spec_reserves_price;
use crate::types::PriceError;
use crate::types::TokenPair;
use crate::uniswap_v2::reserves_call_data;
use crate::uniswap_v2::spec_reserves_selector;
use crate::wide::div_floor_bounded;
use crate::wide::p320;
use crate::wide::wval;
use vstd::arithmetic::mul::lemma_mul_strict_inequality;
use vstd::prelude::*;

verus! {


/// The pool address PancakeSwapProtocol reads for each pair; empty where none is
/// configured.
pub open spec fn spec_pancakeswap_pool_address(pair: TokenPair) -> Seq<char> {
    if pair == TokenPair::EthUsd {
        "0xea26b78255df2bbc31c1ebf60010d78670185bd0"@
    } else {
        ""@
    }
}

/// PancakeSwap protocol (BSC chain).
pub struct PancakeSwapProtocol;

impl PancakeSwapProtocol {
    /// The pool contract that serves a pair, or the empty string where no
    /// pool is configured.
    pub fn get_pool_address(pair: TokenPair) -> (r: &'static str)
        ensures
            r@ == spec_pancakeswap_pool_address(pair),
    {
        match pair {
            TokenPair::EthUsd => "0xea26b78255df2bbc31c1ebf60010d78670185bd0",
            TokenPair::BtcUsd => "",
            TokenPair::SolUsd => "",
            TokenPair::AvaxUsd => "",
        }
    }

    /// The call payload for a price query: the `getReserves()` selector.
    pub fn get_call_data(_pair: TokenPair) -> (r: Vec<u8>)
        ensures
            r@ == spec_reserves_selector(),
    {
        reserves_call_data()
    }

    /// Decodes a raw `getReserves()` response into a micro-unit price.
    pub fn parse_price(data: Vec<u8>) -> (r: Result<u64, PriceError>)
        ensures
            r == spec_reserves_price(data@),
    {
        parse_reserves_price(&data)
    }
}


/// The pool address QuickSwapProtocol reads for each pair; empty where none is
/// configured.
pub open spec fn spec_quickswap_pool_address(pair: TokenPair) -> Seq<char> {
    if pair == TokenPair::EthUsd {
        "0x853ee4b2a13f8a742d64c8f088be7ba2131f670d"@
    } else {
        ""@
    }
}

/// QuickSwap protocol (Polygon chain).
pub struct QuickSwapProtocol;

impl QuickSwapProtocol {
    /// The pool contract that serves a pair, or the empty string where no
    /// pool is configured.
    pub fn get_pool_address(pair: TokenPair) -> (r: &'static str)
        ensures
            r@ == spec_quickswap_pool_address(pair),
    {
        match pair {
            TokenPair::EthUsd => "0x853ee4b2a13f8a742d64c8f088be7ba2131f670d",
            TokenPair::BtcUsd => "",
            TokenPair::SolUsd => "",
            TokenPair::AvaxUsd => "",
        }
    }

    /// The call payload for a price query: the `getReserves()` selector.
    pub fn get_call_data(_pair: TokenPair) -> (r: Vec<u8>)
        ensures
            r@ == spec_reserves_selector(),
    {
        reserves_call_data()
    }

    /// Decodes a raw `getReserves()` response into a micro-unit price.
    pub fn parse_price(data: Vec<u8>) -> (r: Result<u64, PriceError>)
        ensures
            r == spec_reserves_price(data@),
    {
        parse_reserves_price(&data)
    }
}

/// The Trader Joe decode: the pool holds AVAX against the quote asset, so
/// the first candidate ratio inside the exclusive window `(20, 100)` is an
/// AVAX price; it is scaled by the fixed factor 120 to approximate the
/// target pair, checked against the window `(1000, 20000)`, and returned in
/// micro-units (`num * 120 * 10^6 / den`, rounded down).
pub open spec fn spec_trader_joe_price(data: Seq<u8>) -> Result<u64, PriceError> {
    if data.len() < 96 {
        Err(PriceError::MalformedData)
    } else {
        let r0 = spec_be_val(data.subrange(0, 32));
        let r1 = spec_be_val(data.subrange(32, 64));
        if r0 == 0 || r1 == 0 {
            Err(PriceError::MalformedData)
        } else {
            match spec_first_window(r0, r1, 20, 100) {
                Some(nd) => if 1000 * nd.1 < nd.0 * 120 && nd.0 * 120 < 20000 * nd.1 {
                    Ok(((nd.0 * 120000000) / nd.1) as u64)
                } else {
                    Err(PriceError::OutOfRange)
                },
                None => Err(PriceError::OutOfRange),
            }
        }
    }
}

/// The pool address TraderJoeProtocol reads for each pair; empty where
/// none is configured.
pub open spec fn spec_trader_joe_pool_address(pair: TokenPair) -> Seq<char> {
    if pair == TokenPair::EthUsd {
        "0xa389f9430876455c36478deea9769b7ca4e3ddb1"@
    } else {
        ""@
    }
}

/// Trader Joe protocol (Avalanche chain).
pub struct TraderJoeProtocol;

impl TraderJoeProtocol {
    /// The AVAX/quote pool read for the target pair, or the empty string
    /// where no pool is configured.
    pub fn get_pool_address(pair: TokenPair) -> (r: &'static str)
        ensures
            r@ == spec_trader_joe_pool_address(pair),
    {
        match pair {
            TokenPair::EthUsd => "0xa389f9430876455c36478deea9769b7ca4e3ddb1",
            TokenPair::BtcUsd => "",
            TokenPair::SolUsd => "",
            TokenPair::AvaxUsd => "",
        }
    }

    /// The call payload for a price query: the `getReserves()` selector.
    pub fn get_call_data(_pair: TokenPair) -> (r: Vec<u8>)
        ensures
            r@ == spec_reserves_selector(),
    {
        reserves_call_data()
    }

    /// Decodes a raw `getReserves()` response into a micro-unit price of
    /// the target pair, derived from the pool's AVAX price.
    pub fn parse_price(data: Vec<u8>) -> (r: Result<u64, PriceError>)
        ensures
            r == spec_trader_joe_price(data@),
    {
        if data.len() < 96 {
            return Err(PriceError::MalformedData);
        }
        let r0 = read_u256_be(&data, 0);
        let r1 = read_u256_be(&data, 32);
        if r0.is_zero() || r1.is_zero() {
            return Err(PriceError::MalformedData);
        }
        match first_window(&r0, &r1, 20, 100) {
            Some((num, den)) => {
                // Inside the AVAX window the scaled price always lies
                // inside the target window, so that check cannot fail.
                proof {
                    lemma_mul_strict_inequality(wval(num), p320(), 120000000);
                    crate::wide::lemma_scale_strict(wval(num), wval(den), 100, 120000000);
                }
                let nm = num.mul_u64(120_000_000).unwrap();
                let q = div_floor_bounded(&nm, &den, 12_000_000_000);
                Ok(q)
            },
            None => Err(PriceError::OutOfRange),
        }
    }
}

} // verus!
