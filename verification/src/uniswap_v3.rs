//! Uniswap V3-style concentrated-liquidity pools: a `slot0()` read whose
//! leading 32 bytes carry the square-root price ratio scaled by 2^96.
use crate::reserves::read_u256_be;
use crate::reserves::spec_be_val;
use crate::types::PriceError;
use crate::types::TokenPair;
use crate::wide::Wide;
use crate::wide::div_floor_bounded;
use crate::wide::p128;
use crate::wide::p192;
use crate::wide::square_u128;
use crate::wide::wval;
use vstd::prelude::*;

verus! {

/// The 4-byte `slot0()` method selector.
pub open spec fn spec_slot0_selector() -> Seq<u8> {
    seq![0x38u8, 0x50u8, 0xc7u8, 0xbdu8]
}

/// Builds a fresh `slot0()` call payload.
pub fn slot0_call_data() -> (r: Vec<u8>)
    ensures
        r@ == spec_slot0_selector(),
{
    let mut v: Vec<u8> = Vec::new();
    v.push(0x38);
    v.push(0x50);
    v.push(0xc7);
    v.push(0xbd);
    proof {
        assert(v@ =~= spec_slot0_selector());
    }
    v
}

/// The concentrated-liquidity decode. With `s` the big-endian value of the
/// first 32 bytes (the square-root price ratio times 2^96), the pool's
/// quote-per-base price is `10^12 * 2^192 / s^2`; it is accepted only
/// strictly inside the window `(1000, 20000)`, so the comparisons below
/// are that window scaled by `s^2`: the price exceeds 1000 exactly when
/// `s^2 < 10^9 * 2^192`, and stays under 20000 exactly when
/// `5*10^7 * 2^192 < s^2`. The returned value is the price in micro-units,
/// `10^18 * 2^192 / s^2`, rounded down.
pub open spec fn spec_v3_price(data: Seq<u8>) -> Result<u64, PriceError> {
    if data.len() < 32 {
        Err(PriceError::MalformedData)
    } else {
        let s = spec_be_val(data.subrange(0, 32));
        if s == 0 {
            Err(PriceError::MalformedData)
        } else if 50000000 * p192() < s * s && s * s < 1000000000 * p192() {
            Ok(((1000000000000000000 * p192()) / (s * s)) as u64)
        } else {
            Err(PriceError::OutOfRange)
        }
    }
}


/// The pool address UniswapV3Protocol reads for each pair; empty where none is
/// configured.
pub open spec fn spec_v3_pool_address(pair: TokenPair) -> Seq<char> {
    if pair == TokenPair::EthUsd {
        "0x8ad599c3a0ff1de082011efddc58f1908eb6e6d8"@
    } else {
        ""@
    }
}

/// Uniswap V3 protocol (works on any EVM chain).
pub struct UniswapV3Protocol;

impl UniswapV3Protocol {
    /// The pool contract that serves a pair, or the empty string where no
    /// pool is configured.
    pub fn get_pool_address(pair: TokenPair) -> (r: &'static str)
        ensures
            r@ == spec_v3_pool_address(pair),
    {
        match pair {
            TokenPair::EthUsd => "0x8ad599c3a0ff1de082011efddc58f1908eb6e6d8",
            TokenPair::BtcUsd => "",
            TokenPair::SolUsd => "",
            TokenPair::AvaxUsd => "",
        }
    }

    /// The call payload for a price query: the `slot0()` selector, the
    /// same for every pair.
    pub fn get_call_data(_pair: TokenPair) -> (r: Vec<u8>)
        ensures
            r@ == spec_slot0_selector(),
    {
        slot0_call_data()
    }

    /// Decodes a raw `slot0()` response into a micro-unit price.
    pub fn parse_price(data: Vec<u8>) -> (r: Result<u64, PriceError>)
        ensures
            r == spec_v3_price(data@),
    {
        if data.len() < 32 {
            return Err(PriceError::MalformedData);
        }
        let s = read_u256_be(&data, 0);
        let ghost sv: int = spec_be_val(data@.subrange(0, 32));
        if s.is_zero() {
            return Err(PriceError::MalformedData);
        }
        // A square-root ratio of 2^128 or above already prices the pool
        // below the window, so only the low 128 bits ever reach the square.
        if s.l3 != 0 || s.l2 != 0 {
            proof {
                assert(sv >= p128());
                vstd::arithmetic::mul::lemma_mul_inequality(p128(), sv, sv);
                vstd::arithmetic::mul::lemma_mul_inequality(p128(), sv, p128());
                vstd::arithmetic::mul::lemma_mul_is_commutative(sv, p128());
                assert(sv * sv >= p128() * p128());
            }
            return Err(PriceError::OutOfRange);
        }
        let s128: u128 = (s.l0 as u128) + (s.l1 as u128) * 0x1_0000_0000_0000_0000;
        proof {
            assert(s128 == sv);
        }
        let s2 = square_u128(s128);
        let lo_gate = Wide::from_u64_at_192(50_000_000);
        let hi_gate = Wide::from_u64_at_192(1_000_000_000);
        if lo_gate.lt(&s2) && s2.lt(&hi_gate) {
            let num = Wide::from_u64_at_192(1_000_000_000_000_000_000);
            proof {
                // The quotient bound: with s^2 above 5*10^7 * 2^192, the
                // numerator is below 2*10^10 times the divisor.
                assert(20000000000int * wval(s2) > 20000000000int * (50000000 * p192()))
                    by (nonlinear_arith)
                    requires
                        wval(s2) > 50000000 * p192(),
                ;
            }
            let q = div_floor_bounded(&num, &s2, 20_000_000_000);
            Ok(q)
        } else {
            Err(PriceError::OutOfRange)
        }
    }
}

} // verus!
