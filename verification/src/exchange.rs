//! Exchanges: one fetchable source each, binding an RPC endpoint, a
//! protocol, a pool address and an identity; and the fixed registry of the
//! supported sources.
use crate::dex_specific::PancakeSwapProtocol;
use crate::dex_specific::QuickSwapProtocol;
use crate::dex_specific::TraderJoeProtocol;
use crate::dex_specific::spec_pancakeswap_pool_address;
use crate::dex_specific::spec_quickswap_pool_address;
use crate::dex_specific::spec_trader_joe_pool_address;
use crate::dex_specific::spec_trader_joe_price;
use crate::evm::EvmChain;
use crate::evm::spec_decode_response;
use crate::evm::spec_rpc_body;
use crate::reserves::spec_reserves_price;
use crate::types::PriceError;
use crate::types::PricePoint;
use crate::types::TokenPair;
use crate::uniswap_v2::UniswapV2Protocol;
use crate::uniswap_v2::spec_reserves_selector;
use crate::uniswap_v2::spec_v2_pool_address;
use crate::uniswap_v3::UniswapV3Protocol;
use crate::uniswap_v3::spec_slot0_selector;
use crate::uniswap_v3::spec_v3_pool_address;
use vstd::prelude::*;

verus! {

/// The decoding families an exchange can speak.
#[derive(Debug, Clone, Copy, PartialEq, Eq, Structural)]
pub enum ProtocolKind {
    UniswapV3,
    UniswapV2,
    PancakeSwap,
    QuickSwap,
    TraderJoe,
}

/// The pool address a protocol reads for a pair.
pub open spec fn spec_pool_address(kind: ProtocolKind, pair: TokenPair) -> Seq<char> {
    match kind {
        ProtocolKind::UniswapV3 => spec_v3_pool_address(pair),
        ProtocolKind::UniswapV2 => spec_v2_pool_address(pair),
        ProtocolKind::PancakeSwap => spec_pancakeswap_pool_address(pair),
        ProtocolKind::QuickSwap => spec_quickswap_pool_address(pair),
        ProtocolKind::TraderJoe => spec_trader_joe_pool_address(pair),
    }
}

/// The call payload a protocol sends for a price query.
pub open spec fn spec_call_data(kind: ProtocolKind) -> Seq<u8> {
    match kind {
        ProtocolKind::UniswapV3 => spec_slot0_selector(),
        _ => spec_reserves_selector(),
    }
}

/// What a protocol decodes raw response bytes into.
pub open spec fn spec_parse_price(kind: ProtocolKind, data: Seq<u8>) -> Result<u64, PriceError> {
    match kind {
        ProtocolKind::UniswapV3 => crate::uniswap_v3::spec_v3_price(data),
        ProtocolKind::TraderJoe => spec_trader_joe_price(data),
        _ => spec_reserves_price(data),
    }
}

/// The back half of a fetch, once raw bytes are in hand: decode a price
/// and hold it against the pair's bounds, stamping the caller's clock.
pub open spec fn spec_complete_fetch(
    kind: ProtocolKind,
    data: Seq<u8>,
    min_price: u64,
    max_price: u64,
    now_ms: u64,
) -> Result<PricePoint, PriceError> {
    match spec_parse_price(kind, data) {
        Err(e) => Err(e),
        Ok(p) => if p < min_price || p > max_price {
            Err(PriceError::BoundsViolation)
        } else {
            Ok(PricePoint { price_micro: p, timestamp_ms: now_ms })
        },
    }
}

/// A whole response-side fetch: decode the envelope, parse a price, and
/// hold it against the bounds.
pub open spec fn spec_process_response(
    kind: ProtocolKind,
    body: Seq<char>,
    min_price: u64,
    max_price: u64,
    now_ms: u64,
) -> Result<PricePoint, PriceError> {
    match spec_decode_response(body) {
        Err(e) => Err(e),
        Ok(bytes) => spec_complete_fetch(kind, bytes, min_price, max_price, now_ms),
    }
}

/// One fetchable price source: an RPC endpoint, an identity, and the
/// protocol its pools speak.
#[derive(Debug, Clone, Copy)]
pub struct Exchange {
    pub rpc_url: &'static str,
    pub exchange_name: &'static str,
    pub exchange_id: u8,
    pub protocol: ProtocolKind,
}

impl Exchange {
    /// A new source from its parts.
    pub fn new(
        rpc_url: &'static str,
        exchange_name: &'static str,
        exchange_id: u8,
        protocol: ProtocolKind,
    ) -> (r: Exchange)
        ensures
            r == (Exchange { rpc_url, exchange_name, exchange_id, protocol }),
    {
        Exchange { rpc_url, exchange_name, exchange_id, protocol }
    }

    /// The numeric id under which results are keyed.
    pub fn get_exchange_id(&self) -> (r: u8)
        ensures
            r == self.exchange_id,
    {
        self.exchange_id
    }

    /// The display name.
    pub fn get_name(&self) -> (r: &str)
        ensures
            r@ == self.exchange_name@,
    {
        self.exchange_name
    }

    /// The pool address this exchange reads for a pair.
    pub fn get_pool_address(&self, pair: TokenPair) -> (r: &'static str)
        ensures
            r@ == spec_pool_address(self.protocol, pair),
    {
        match self.protocol {
            ProtocolKind::UniswapV3 => UniswapV3Protocol::get_pool_address(pair),
            ProtocolKind::UniswapV2 => UniswapV2Protocol::get_pool_address(pair),
            ProtocolKind::PancakeSwap => PancakeSwapProtocol::get_pool_address(pair),
            ProtocolKind::QuickSwap => QuickSwapProtocol::get_pool_address(pair),
            ProtocolKind::TraderJoe => TraderJoeProtocol::get_pool_address(pair),
        }
    }

    /// The call payload this exchange sends for a price query.
    pub fn get_call_data(&self, pair: TokenPair) -> (r: Vec<u8>)
        ensures
            r@ == spec_call_data(self.protocol),
    {
        match self.protocol {
            ProtocolKind::UniswapV3 => UniswapV3Protocol::get_call_data(pair),
            ProtocolKind::UniswapV2 => UniswapV2Protocol::get_call_data(pair),
            ProtocolKind::PancakeSwap => PancakeSwapProtocol::get_call_data(pair),
            ProtocolKind::QuickSwap => QuickSwapProtocol::get_call_data(pair),
            ProtocolKind::TraderJoe => TraderJoeProtocol::get_call_data(pair),
        }
    }

    /// Decodes raw response bytes by this exchange's protocol.
    pub fn parse_price(&self, data: Vec<u8>) -> (r: Result<u64, PriceError>)
        ensures
            r == spec_parse_price(self.protocol, data@),
    {
        match self.protocol {
            ProtocolKind::UniswapV3 => UniswapV3Protocol::parse_price(data),
            ProtocolKind::UniswapV2 => UniswapV2Protocol::parse_price(data),
            ProtocolKind::PancakeSwap => PancakeSwapProtocol::parse_price(data),
            ProtocolKind::QuickSwap => QuickSwapProtocol::parse_price(data),
            ProtocolKind::TraderJoe => TraderJoeProtocol::parse_price(data),
        }
    }

    /// The request side of a fetch: resolves the pool for `pair` and
    /// builds the JSON-RPC body to send to this exchange's endpoint.
    /// A pair with no configured pool fails fast with `UnsupportedPair`,
    /// before any call is made.
    pub fn build_request(&self, pair: TokenPair) -> (r: Result<String, PriceError>)
        ensures
            match r {
                Ok(body) => spec_pool_address(self.protocol, pair).len() > 0 && body@
                    == spec_rpc_body(
                    spec_pool_address(self.protocol, pair),
                    spec_call_data(self.protocol),
                ),
                Err(e) => e == PriceError::UnsupportedPair && spec_pool_address(
                    self.protocol,
                    pair,
                ).len() == 0,
            },
    {
        let address = self.get_pool_address(pair);
        if address.unicode_len() == 0 {
            return Err(PriceError::UnsupportedPair);
        }
        let call_data = self.get_call_data(pair);
        Ok(EvmChain::build_request_body(address, call_data.as_slice()))
    }

    /// The response side of a fetch, from raw decoded bytes: parses a
    /// price by this exchange's protocol, holds it against the given
    /// bounds inclusively, and stamps the caller's clock on success.
    pub fn complete_fetch(
        &self,
        data: Vec<u8>,
        min_price: u64,
        max_price: u64,
        now_ms: u64,
    ) -> (r: Result<PricePoint, PriceError>)
        ensures
            r == spec_complete_fetch(self.protocol, data@, min_price, max_price, now_ms),
    {
        let price_micro = match self.parse_price(data) {
            Ok(p) => p,
            Err(e) => {
                return Err(e);
            },
        };
        if price_micro < min_price || price_micro > max_price {
            return Err(PriceError::BoundsViolation);
        }
        Ok(PricePoint { price_micro, timestamp_ms: now_ms })
    }

    /// The response side of a fetch, from the raw response body: decodes
    /// the envelope, then proceeds as `complete_fetch`.
    pub fn process_response(
        &self,
        body: &str,
        min_price: u64,
        max_price: u64,
        now_ms: u64,
    ) -> (r: Result<PricePoint, PriceError>)
        ensures
            r == spec_process_response(self.protocol, body@, min_price, max_price, now_ms),
    {
        let bytes = match EvmChain::decode_response_body(body) {
            Ok(b) => b,
            Err(e) => {
                return Err(e);
            },
        };
        self.complete_fetch(bytes, min_price, max_price, now_ms)
    }
}

/// All supported exchanges, in declaration order: exactly five entries
/// with distinct ids, the same on every call.
pub fn get_all_exchanges() -> (r: Vec<Exchange>)
    ensures
        r@.len() == 5,
        r@[0].exchange_id == 1 && r@[0].protocol == ProtocolKind::UniswapV3 && r@[0].rpc_url@
            == "https://eth.llamarpc.com"@ && r@[0].exchange_name@ == "Uniswap V3 (Ethereum)"@,
        r@[1].exchange_id == 2 && r@[1].protocol == ProtocolKind::UniswapV2 && r@[1].rpc_url@
            == "https://eth.llamarpc.com"@ && r@[1].exchange_name@ == "SushiSwap V2 (Ethereum)"@,
        r@[2].exchange_id == 3 && r@[2].protocol == ProtocolKind::PancakeSwap && r@[2].rpc_url@
            == "https://bsc-dataseed.binance.org"@ && r@[2].exchange_name@
            == "PancakeSwap V2 (BSC)"@,
        r@[3].exchange_id == 4 && r@[3].protocol == ProtocolKind::QuickSwap && r@[3].rpc_url@
            == "https://polygon-rpc.com"@ && r@[3].exchange_name@ == "QuickSwap V2 (Polygon)"@,
        r@[4].exchange_id == 5 && r@[4].protocol == ProtocolKind::TraderJoe && r@[4].rpc_url@
            == "https://api.avax.network/ext/bc/C/rpc"@ && r@[4].exchange_name@
            == "Trader Joe (Avalanche)"@,
        forall|i: int, j: int|
            0 <= i < r@.len() && 0 <= j < r@.len() && i != j ==> r@[i].exchange_id
                != r@[j].exchange_id,
{
    let mut v: Vec<Exchange> = Vec::new();
    v.push(
        Exchange::new(
            "https://eth.llamarpc.com",
            "Uniswap V3 (Ethereum)",
            1,
            ProtocolKind::UniswapV3,
        ),
    );
    v.push(
        Exchange::new(
            "https://eth.llamarpc.com",
            "SushiSwap V2 (Ethereum)",
            2,
            ProtocolKind::UniswapV2,
        ),
    );
    v.push(
        Exchange::new(
            "https://bsc-dataseed.binance.org",
            "PancakeSwap V2 (BSC)",
            3,
            ProtocolKind::PancakeSwap,
        ),
    );
    v.push(
        Exchange::new(
            "https://polygon-rpc.com",
            "QuickSwap V2 (Polygon)",
            4,
            ProtocolKind::QuickSwap,
        ),
    );
    v.push(
        Exchange::new(
            "https://api.avax.network/ext/bc/C/rpc",
            "Trader Joe (Avalanche)",
            5,
            ProtocolKind::TraderJoe,
        ),
    );
    v
}

} // verus!
