//! Uniswap V2-style constant-product pools: a `getReserves()` read decoded
//! through the shared candidate-window logic.
use crate::reserves::parse_reserves_price;
use crate::reserves::spec_reserves_price;
use crate::types::PriceError;
use crate::types::TokenPair;
use vstd::prelude::*;

verus! {

/// The 4-byte `getReserves()` method selector.
pub open spec fn spec_reserves_selector() -> Seq<u8> {
    seq![0x09u8, 0x02u8, 0xf1u8, 0xacu8]
}

/// Builds a fresh `getReserves()` call payload.
pub fn reserves_call_data() -> (r: Vec<u8>)
    ensures
        r@ == spec_reserves_selector(),
{
    let mut v: Vec<u8> = Vec::new();
    v.push(0x09);
    v.push(0x02);
    v.push(0xf1);
    v.push(0xac);
    proof {
        assert(v@ =~= spec_reserves_selector());
    }
    v
}


/// The pool address UniswapV2Protocol reads for each pair; empty where none is
/// configured.
pub open spec fn spec_v2_pool_address(pair: TokenPair) -> Seq<char> {
    if pair == TokenPair::EthUsd {
        "0x397ff1542f962076d0bfe58ea045ffa2d347aca0"@
    } else {
        ""@
    }
}

/// Uniswap V2 protocol (works on any EVM chain; SushiSwap and other forks).
pub struct UniswapV2Protocol;

impl UniswapV2Protocol {
    /// The pool contract that serves a pair, or the empty string where no
    /// pool is configured.
    pub fn get_pool_address(pair: TokenPair) -> (r: &'static str)
        ensures
            r@ == spec_v2_pool_address(pair),
    {
        match pair {
            TokenPair::EthUsd => "0x397ff1542f962076d0bfe58ea045ffa2d347aca0",
            TokenPair::BtcUsd => "",
            TokenPair::SolUsd => "",
            TokenPair::AvaxUsd => "",
        }
    }

    /// The call payload for a price query: the `getReserves()` selector,
    /// the same for every pair.
    pub fn get_call_data(_pair: TokenPair) -> (r: Vec<u8>)
        ensures
            r@ == spec_reserves_selector(),
    {
        reserves_call_data()
    }

    /// Decodes a raw `getReserves()` response into a micro-unit price.
    pub fn parse_price(data: Vec<u8>) -> (r: Result<u64, PriceError>)
        ensures
            r == spec_reserves_price(data@),
    {
        parse_reserves_price(&data)
    }
}

} // verus!
