//! A price-oracle core: builds contract-read requests for decentralized
//! exchanges, decodes their chain-specific binary responses into a price in
//! micro-units of the quote currency, and validates the result against
//! per-pair sanity bounds. Issuing the network call itself, and persisting
//! accepted prices, belong to the host around this library.
use vstd::prelude::*;

pub mod dex_specific;
pub mod envelope;
pub mod evm;
pub mod exchange;
pub mod hexcode;
pub mod reserves;
pub mod types;
pub mod uniswap_v2;
pub mod uniswap_v3;
pub mod wide;

pub use dex_specific::PancakeSwapProtocol;
pub use dex_specific::QuickSwapProtocol;
pub use dex_specific::TraderJoeProtocol;
pub use envelope::extract_result_data;
pub use evm::EvmChain;
pub use exchange::Exchange;
pub use exchange::ProtocolKind;
pub use exchange::get_all_exchanges;
pub use types::PriceError;
pub use types::PricePoint;
pub use types::TokenPair;
pub use uniswap_v2::UniswapV2Protocol;
pub use uniswap_v3::UniswapV3Protocol;

verus! {

} // verus!
