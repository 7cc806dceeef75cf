//! Tests for the protocol decoders: parsing logic, function selectors,
//! and pool address validation.
use dex_price_oracle::PancakeSwapProtocol;
use dex_price_oracle::QuickSwapProtocol;
use dex_price_oracle::TokenPair;
use dex_price_oracle::TraderJoeProtocol;
use dex_price_oracle::UniswapV2Protocol;
use dex_price_oracle::UniswapV3Protocol;

#[test]
fn uniswap_v3_parsing_logic_works() {
    // Test the parsing logic works and basic validation
    let mut mock_data = vec![0u8; 32];

    // Set a simple test value that will definitely be in bounds
    // This represents a much smaller sqrtPriceX96 value
    let sqrt_price_bytes: [u8; 32] = [
        0x00, 0x00, 0x00, 0x00, 0x00, 0x00, 0x00, 0x00, 0x00, 0x00, 0x00, 0x00, 0x00, 0x00, 0x00,
        0x00, 0x00, 0x00, 0x00, 0x00, 0x00, 0x00, 0x00, 0x00, 0x00, 0x01, 0x00, 0x00, 0x00, 0x00,
        0x00, 0x00,
    ];
    mock_data[0..32].copy_from_slice(&sqrt_price_bytes);

    // The price might be outside bounds with this mock data, which is fine
    let result = UniswapV3Protocol::parse_price(mock_data);

    // The function should execute without panicking, regardless of bounds
    match result {
        Ok(price) => {
            assert!((price as f64).is_finite(), "Price should be finite");
        },
        Err(_) => {
            // Error is also acceptable - could be due to price bounds
        },
    }
}

#[test]
fn uniswap_v3_parsing_invalid_data() {
    // Test with insufficient data length
    let short_data = vec![0u8; 16];
    let result = UniswapV3Protocol::parse_price(short_data);
    assert!(result.is_err(), "Should reject data that's too short");

    // Test with zero sqrtPriceX96
    let zero_data = vec![0u8; 32];
    let result = UniswapV3Protocol::parse_price(zero_data);
    assert!(result.is_err(), "Should reject zero sqrtPriceX96");
}

#[test]
fn uniswap_v2_parsing_valid_data() {
    // Mock valid getReserves() response
    // reserve0: 1000 USDC (1000 * 1e6)
    // reserve1: 0.5 ETH (0.5 * 1e18)
    // This gives approximately $2000 per ETH
    let mut mock_data = vec![0u8; 96];

    // reserve0 (USDC): 1000 * 1e6 = 1,000,000,000
    let reserve0_bytes: [u8; 32] = [
        0x00, 0x00, 0x00, 0x00, 0x00, 0x00, 0x00, 0x00, 0x00, 0x00, 0x00, 0x00, 0x00, 0x00, 0x00,
        0x00, 0x00, 0x00, 0x00, 0x00, 0x00, 0x00, 0x00, 0x00, 0x00, 0x00, 0x00, 0x00, 0x3b, 0x9a,
        0xca, 0x00,
    ];

    // reserve1 (ETH): 0.5 * 1e18 = 500,000,000,000,000,000
    let reserve1_bytes: [u8; 32] = [
        0x00, 0x00, 0x00, 0x00, 0x00, 0x00, 0x00, 0x00, 0x00, 0x00, 0x00, 0x00, 0x00, 0x00, 0x00,
        0x00, 0x00, 0x00, 0x00, 0x00, 0x00, 0x00, 0x00, 0x00, 0x06, 0xf0, 0x5b, 0x59, 0xd3, 0xb2,
        0x00, 0x00,
    ];

    mock_data[0..32].copy_from_slice(&reserve0_bytes);
    mock_data[32..64].copy_from_slice(&reserve1_bytes);

    let result = UniswapV2Protocol::parse_price(mock_data);
    assert!(result.is_ok(), "Should parse valid Uniswap V2 data");

    let price = result.unwrap() as f64 / 1_000_000.0;
    assert!(price > 1000.0 && price < 20000.0, "Price should be in reasonable range");
}

#[test]
fn uniswap_v2_parsing_invalid_data() {
    // Test with insufficient data length
    let short_data = vec![0u8; 64];
    let result = UniswapV2Protocol::parse_price(short_data);
    assert!(result.is_err(), "Should reject data that's too short");

    // Test with zero reserves
    let zero_data = vec![0u8; 96];
    let result = UniswapV2Protocol::parse_price(zero_data);
    assert!(result.is_err(), "Should reject zero liquidity");
}

#[test]
fn protocol_function_selectors() {
    // Test that function selectors are correct
    let v3_selector = UniswapV3Protocol::get_call_data(TokenPair::EthUsd);
    assert_eq!(
        v3_selector,
        vec![0x38, 0x50, 0xc7, 0xbd],
        "Uniswap V3 slot0() selector should be correct"
    );

    let v2_selector = UniswapV2Protocol::get_call_data(TokenPair::EthUsd);
    assert_eq!(
        v2_selector,
        vec![0x09, 0x02, 0xf1, 0xac],
        "Uniswap V2 getReserves() selector should be correct"
    );

    // Test that selectors are consistent across pairs
    let v3_selector_btc = UniswapV3Protocol::get_call_data(TokenPair::BtcUsd);
    assert_eq!(v3_selector, v3_selector_btc, "V3 selector should be same for different pairs");
}

#[test]
fn dex_specific_protocols_consistency() {
    // Test that DEX-specific protocols use the same selectors as the base
    let pancake_selector = PancakeSwapProtocol::get_call_data(TokenPair::EthUsd);
    let quickswap_selector = QuickSwapProtocol::get_call_data(TokenPair::EthUsd);
    let traderjoe_selector = TraderJoeProtocol::get_call_data(TokenPair::EthUsd);
    let uniswap_v2_selector = UniswapV2Protocol::get_call_data(TokenPair::EthUsd);

    // All V2 forks should use the same getReserves() selector
    assert_eq!(pancake_selector, uniswap_v2_selector);
    assert_eq!(quickswap_selector, uniswap_v2_selector);
    assert_eq!(traderjoe_selector, uniswap_v2_selector);
}

#[test]
fn pool_addresses_are_valid() {
    // Test that pool addresses are valid hex strings
    let eth_pool = UniswapV3Protocol::get_pool_address(TokenPair::EthUsd);
    assert!(
        eth_pool.starts_with("0x") || eth_pool.is_empty(),
        "Pool address should start with 0x or be empty"
    );
    assert!(
        eth_pool.len() == 42 || eth_pool.is_empty(),
        "Pool address should be 42 chars or empty"
    );

    // Test DEX-specific addresses
    let pancake_pool = PancakeSwapProtocol::get_pool_address(TokenPair::EthUsd);
    if !pancake_pool.is_empty() {
        assert!(pancake_pool.starts_with("0x"), "PancakeSwap pool address should start with 0x");
        assert_eq!(pancake_pool.len(), 42, "PancakeSwap pool address should be 42 chars");
    }
}

#[test]
fn uniswap_v3_crafted_value_decodes_exactly() {
    // sqrtPriceX96 = 20000 * 2^96, so the pool price is
    // 10^12 / 20000^2 = 2500 quote units, i.e. 2_500_000_000 micro-units.
    let mut data = vec![0u8; 32];
    data[18] = 0x4e;
    data[19] = 0x20;
    let result = UniswapV3Protocol::parse_price(data);
    assert_eq!(result, Ok(2_500_000_000));
}

#[test]
fn uniswap_v3_large_ratio_is_out_of_range() {
    // A square-root ratio at 2^200 prices the pool far below the window.
    let mut data = vec![0u8; 40];
    data[6] = 0x01;
    let result = UniswapV3Protocol::parse_price(data);
    assert_eq!(result, Err(dex_price_oracle::PriceError::OutOfRange));
}

#[test]
fn uniswap_v2_exact_two_thousand() {
    // reserve0 = 1e9 (1000 of a 6-decimal asset), reserve1 = 5e17
    // (0.5 of an 18-decimal asset): the first candidate is
    // r0/r1 * 1e12 = 2000, inside (1000, 20000).
    let mut data = vec![0u8; 96];
    data[28..32].copy_from_slice(&[0x3b, 0x9a, 0xca, 0x00]);
    data[56..64].copy_from_slice(&[0x06, 0xf0, 0x5b, 0x59, 0xd3, 0xb2, 0x00, 0x00]);
    let result = UniswapV2Protocol::parse_price(data);
    assert_eq!(result, Ok(2_000_000_000));
}

#[test]
fn uniswap_v2_no_candidate_in_window() {
    // reserve0 = 5e10, reserve1 = 1e18: every candidate misses the
    // window (the scaled ratio is 50000), so the decode is OutOfRange.
    let mut data = vec![0u8; 96];
    let r0: u64 = 50_000_000_000;
    let r1: u64 = 1_000_000_000_000_000_000;
    data[24..32].copy_from_slice(&r0.to_be_bytes());
    data[56..64].copy_from_slice(&r1.to_be_bytes());
    let result = UniswapV2Protocol::parse_price(data);
    assert_eq!(result, Err(dex_price_oracle::PriceError::OutOfRange));
}

#[test]
fn uniswap_v2_one_zero_reserve_is_malformed() {
    // A zero reserve on either side is an empty pool.
    let mut data = vec![0u8; 96];
    let r0: u64 = 1_000_000_000;
    data[24..32].copy_from_slice(&r0.to_be_bytes());
    let result = UniswapV2Protocol::parse_price(data);
    assert_eq!(result, Err(dex_price_oracle::PriceError::MalformedData));
}

#[test]
fn trader_joe_scales_avax_price() {
    // reserve0 = 25e6 (25 USDC), reserve1 = 1e18 (1 AVAX): the first
    // candidate is 25, inside (20, 100); scaled by 120 the result is
    // 3000 quote units, i.e. 3_000_000_000 micro-units.
    let mut data = vec![0u8; 96];
    let r0: u64 = 25_000_000;
    let r1: u64 = 1_000_000_000_000_000_000;
    data[24..32].copy_from_slice(&r0.to_be_bytes());
    data[56..64].copy_from_slice(&r1.to_be_bytes());
    let result = TraderJoeProtocol::parse_price(data);
    assert_eq!(result, Ok(3_000_000_000));
}

#[test]
fn trader_joe_rejects_short_and_out_of_window() {
    let result = TraderJoeProtocol::parse_price(vec![0u8; 95]);
    assert_eq!(result, Err(dex_price_oracle::PriceError::MalformedData));

    // A 2000 ratio is far above the AVAX window (20, 100).
    let mut data = vec![0u8; 96];
    let r0: u64 = 2_000_000_000;
    let r1: u64 = 1_000_000_000_000_000_000;
    data[24..32].copy_from_slice(&r0.to_be_bytes());
    data[56..64].copy_from_slice(&r1.to_be_bytes());
    let result = TraderJoeProtocol::parse_price(data);
    assert_eq!(result, Err(dex_price_oracle::PriceError::OutOfRange));
}

#[test]
fn quickswap_matches_uniswap_v2_decode() {
    let mut data = vec![0u8; 96];
    data[28..32].copy_from_slice(&[0x3b, 0x9a, 0xca, 0x00]);
    data[56..64].copy_from_slice(&[0x06, 0xf0, 0x5b, 0x59, 0xd3, 0xb2, 0x00, 0x00]);
    assert_eq!(QuickSwapProtocol::parse_price(data.clone()), Ok(2_000_000_000));
    assert_eq!(PancakeSwapProtocol::parse_price(data), Ok(2_000_000_000));
}
