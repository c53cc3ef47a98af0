use meteora_fee_router::error::ErrorCode;
use meteora_fee_router::key::AccountKey;
use meteora_fee_router::validation::{
    preflight_validate_quote_only, validate_claimed_fees_quote_only, validate_pool_token_order,
    validate_quote_only_config, validate_tick_range_for_quote_only, PoolValidationData,
    PositionValidationData, TokenOrder,
};

fn key(n: u32) -> AccountKey {
    let mut bytes = [0u8; 32];
    bytes[..4].copy_from_slice(&n.to_le_bytes());
    bytes[31] = 1;
    AccountKey::new(bytes)
}

fn create_test_pool_data() -> PoolValidationData {
    PoolValidationData {
        token_mint_a: key(9101),
        token_mint_b: key(9102),
        current_price: 1_000_000_000_000,
        tick_current: 0,
        tick_spacing: 64,
    }
}

fn create_test_position_data(tick_lower: i32, tick_upper: i32) -> PositionValidationData {
    PositionValidationData {
        tick_lower,
        tick_upper,
        liquidity: 1_000_000,
    }
}

#[test]
fn test_validate_pool_token_order_quote_is_token_a() {
    let pool_data = create_test_pool_data();
    let quote_mint = pool_data.token_mint_a;
    
    let result = validate_pool_token_order(&pool_data, &quote_mint);
    assert!(result.is_ok());
    assert_eq!(result.unwrap(), TokenOrder::QuoteIsTokenA);
}

#[test]
fn test_validate_pool_token_order_quote_is_token_b() {
    let pool_data = create_test_pool_data();
    let quote_mint = pool_data.token_mint_b;
    
    let result = validate_pool_token_order(&pool_data, &quote_mint);
    assert!(result.is_ok());
    assert_eq!(result.unwrap(), TokenOrder::QuoteIsTokenB);
}

#[test]
fn test_validate_pool_token_order_invalid_quote_mint() {
    let pool_data = create_test_pool_data();
    let invalid_quote_mint = key(1); // Not in pool
    
    let result = validate_pool_token_order(&pool_data, &invalid_quote_mint);
    assert!(result.is_err());
}

#[test]
fn test_validate_tick_range_quote_is_token_a_valid() {
    let pool_data = create_test_pool_data();
    // Position above current price (tick_lower > current_tick)
    let position_data = create_test_position_data(128, 256); // Above current tick (0)
    
    let result = validate_tick_range_for_quote_only(
        &pool_data,
        &position_data,
        TokenOrder::QuoteIsTokenA
    );
    assert!(result.is_ok());
}

#[test]
fn test_validate_tick_range_quote_is_token_a_invalid() {
    let pool_data = create_test_pool_data();
    // Position at or below current price (invalid for quote-only when quote is token A)
    let position_data = create_test_position_data(-128, 0); // Below/at current tick (0)
    
    let result = validate_tick_range_for_quote_only(
        &pool_data,
        &position_data,
        TokenOrder::QuoteIsTokenA
    );
    assert!(result.is_err());
}

#[test]
fn test_validate_tick_range_quote_is_token_b_valid() {
    let pool_data = create_test_pool_data();
    // Position below current price (tick_upper < current_tick)
    let position_data = create_test_position_data(-256, -128); // Below current tick (0)
    
    let result = validate_tick_range_for_quote_only(
        &pool_data,
        &position_data,
        TokenOrder::QuoteIsTokenB
    );
    assert!(result.is_ok());
}

#[test]
fn test_validate_tick_range_quote_is_token_b_invalid() {
    let pool_data = create_test_pool_data();
    // Position at or above current price (invalid for quote-only when quote is token B)
    let position_data = create_test_position_data(0, 128); // At/above current tick (0)
    
    let result = validate_tick_range_for_quote_only(
        &pool_data,
        &position_data,
        TokenOrder::QuoteIsTokenB
    );
    assert!(result.is_err());
}

#[test]
fn test_validate_tick_range_invalid_order() {
    let pool_data = create_test_pool_data();
    // tick_lower >= tick_upper (invalid)
    let position_data = create_test_position_data(256, 128);
    
    let result = validate_tick_range_for_quote_only(
        &pool_data,
        &position_data,
        TokenOrder::QuoteIsTokenA
    );
    assert!(result.is_err());
}

#[test]
fn test_validate_tick_range_invalid_spacing() {
    let mut pool_data = create_test_pool_data();
    pool_data.tick_spacing = 64;
    
    // Ticks not aligned to spacing
    let position_data = create_test_position_data(100, 200); // Not multiples of 64
    
    let result = validate_tick_range_for_quote_only(
        &pool_data,
        &position_data,
        TokenOrder::QuoteIsTokenA
    );
    assert!(result.is_err());
}

#[test]
fn test_validate_tick_range_valid_spacing() {
    let mut pool_data = create_test_pool_data();
    pool_data.tick_spacing = 64;
    
    // Ticks properly aligned to spacing
    let position_data = create_test_position_data(128, 256); // Multiples of 64
    
    let result = validate_tick_range_for_quote_only(
        &pool_data,
        &position_data,
        TokenOrder::QuoteIsTokenA
    );
    assert!(result.is_ok());
}

#[test]
fn test_preflight_validate_quote_only_success_token_a() {
    let pool_data = create_test_pool_data();
    // Position well above current price with safety buffer
    let position_data = create_test_position_data(256, 384); // Well above current tick (0)
    
    let result = preflight_validate_quote_only(
        &pool_data,
        &position_data,
        TokenOrder::QuoteIsTokenA
    );
    assert!(result.is_ok());
}

#[test]
fn test_preflight_validate_quote_only_success_token_b() {
    let pool_data = create_test_pool_data();
    // Position well below current price with safety buffer
    let position_data = create_test_position_data(-384, -256); // Well below current tick (0)
    
    let result = preflight_validate_quote_only(
        &pool_data,
        &position_data,
        TokenOrder::QuoteIsTokenB
    );
    assert!(result.is_ok());
}

#[test]
fn test_preflight_validate_spans_current_price() {
    let pool_data = create_test_pool_data();
    // Position spans current price (would accrue both base and quote fees)
    let position_data = create_test_position_data(-128, 128); // Spans current tick (0)
    
    let result = preflight_validate_quote_only(
        &pool_data,
        &position_data,
        TokenOrder::QuoteIsTokenA
    );
    assert!(result.is_err());
    // Should be BaseFeeDetected error
}

#[test]
fn test_preflight_validate_too_close_to_current_price_token_a() {
    let mut pool_data = create_test_pool_data();
    pool_data.tick_spacing = 64;
    
    // Position too close to current price (within safety buffer)
    let position_data = create_test_position_data(64, 128); // Only 1 tick spacing above
    
    let result = preflight_validate_quote_only(
        &pool_data,
        &position_data,
        TokenOrder::QuoteIsTokenA
    );
    assert!(result.is_err());
}

#[test]
fn test_preflight_validate_too_close_to_current_price_token_b() {
    let mut pool_data = create_test_pool_data();
    pool_data.tick_spacing = 64;
    
    // Position too close to current price (within safety buffer)
    let position_data = create_test_position_data(-128, -64); // Only 1 tick spacing below
    
    let result = preflight_validate_quote_only(
        &pool_data,
        &position_data,
        TokenOrder::QuoteIsTokenB
    );
    assert!(result.is_err());
}

#[test]
fn test_preflight_validate_zero_liquidity() {
    let pool_data = create_test_pool_data();
    let mut position_data = create_test_position_data(256, 384);
    position_data.liquidity = 0; // Invalid liquidity
    
    let result = preflight_validate_quote_only(
        &pool_data,
        &position_data,
        TokenOrder::QuoteIsTokenA
    );
    assert!(result.is_err());
}

#[test]
fn test_validate_claimed_fees_quote_only_success() {
    let result = validate_claimed_fees_quote_only(1_000_000, 0);
    assert!(result.is_ok());
}

#[test]
fn test_validate_claimed_fees_base_detected() {
    let result = validate_claimed_fees_quote_only(1_000_000, 1); // Any base amount fails
    assert!(result.is_err());
}

#[test]
fn test_validate_claimed_fees_no_quote_claimed() {
    // A claim with no fees at all holds no base fees: the guard lets it through.
    let result = validate_claimed_fees_quote_only(0, 0);
    assert!(result.is_ok());
    assert_eq!(validate_claimed_fees_quote_only(0, 1), Err(ErrorCode::BaseFeeDetected));
}

#[test]
fn test_validate_quote_only_config_full_flow_success() {
    let pool_data = create_test_pool_data();
    let quote_mint = pool_data.token_mint_a;
    let position_data = create_test_position_data(256, 384); // Valid position above current
    
    let result = validate_quote_only_config(&pool_data, &position_data, &quote_mint);
    assert!(result.is_ok());
    assert_eq!(result.unwrap(), TokenOrder::QuoteIsTokenA);
}

#[test]
fn test_validate_quote_only_config_full_flow_invalid_mint() {
    let pool_data = create_test_pool_data();
    let invalid_quote_mint = key(2); // Not in pool
    let position_data = create_test_position_data(256, 384);
    
    let result = validate_quote_only_config(&pool_data, &position_data, &invalid_quote_mint);
    assert!(result.is_err());
}

#[test]
fn test_validate_quote_only_config_full_flow_invalid_position() {
    let pool_data = create_test_pool_data();
    let quote_mint = pool_data.token_mint_a;
    let position_data = create_test_position_data(-128, 128); // Spans current price
    
    let result = validate_quote_only_config(&pool_data, &position_data, &quote_mint);
    assert!(result.is_err());
}

#[test]
fn test_token_order_equality() {
    assert_eq!(TokenOrder::QuoteIsTokenA, TokenOrder::QuoteIsTokenA);
    assert_eq!(TokenOrder::QuoteIsTokenB, TokenOrder::QuoteIsTokenB);
    assert_ne!(TokenOrder::QuoteIsTokenA, TokenOrder::QuoteIsTokenB);
}

#[test]
fn test_edge_case_current_tick_boundaries() {
    let mut pool_data = create_test_pool_data();
    pool_data.tick_current = 1024; // Use a tick aligned to spacing (64)
    pool_data.tick_spacing = 64;
    
    // Test exact boundary conditions for quote is token A
    let position_data_at_boundary = create_test_position_data(1024, 1088); // tick_lower == current_tick
    let result = validate_tick_range_for_quote_only(
        &pool_data,
        &position_data_at_boundary,
        TokenOrder::QuoteIsTokenA
    );
    assert!(result.is_err()); // Should fail because tick_lower == current_tick
    
    let position_data_just_above = create_test_position_data(1088, 1152); // tick_lower > current_tick
    let result = validate_tick_range_for_quote_only(
        &pool_data,
        &position_data_just_above,
        TokenOrder::QuoteIsTokenA
    );
    assert!(result.is_ok()); // Should pass because tick_lower > current_tick
}

#[test]
fn test_edge_case_large_tick_values() {
    let mut pool_data = create_test_pool_data();
    pool_data.tick_current = i32::MAX - 1000;
    pool_data.tick_spacing = 1;
    
    // Test with large tick values near i32::MAX
    let position_data = create_test_position_data(i32::MAX - 500, i32::MAX - 100);
    let result = validate_tick_range_for_quote_only(
        &pool_data,
        &position_data,
        TokenOrder::QuoteIsTokenA
    );
    assert!(result.is_ok());
}

#[test]
fn test_edge_case_negative_tick_values() {
    let mut pool_data = create_test_pool_data();
    pool_data.tick_current = i32::MIN + 1000;
    pool_data.tick_spacing = 1;
    
    // Test with large negative tick values near i32::MIN
    let position_data = create_test_position_data(i32::MIN + 100, i32::MIN + 500);
    let result = validate_tick_range_for_quote_only(
        &pool_data,
        &position_data,
        TokenOrder::QuoteIsTokenB
    );
    assert!(result.is_ok());
}

#[test]
fn test_various_tick_spacings() {
    let spacings = vec![1, 8, 16, 32, 64, 128, 256];
    
    for spacing in spacings {
        let mut pool_data = create_test_pool_data();
        pool_data.tick_spacing = spacing;
        pool_data.tick_current = 0;
        
        // Create position aligned to this spacing
        let tick_lower = spacing as i32 * 4; // 4 spacings above current
        let tick_upper = spacing as i32 * 6; // 6 spacings above current
        let position_data = create_test_position_data(tick_lower, tick_upper);
        
        let result = validate_tick_range_for_quote_only(
            &pool_data,
            &position_data,
            TokenOrder::QuoteIsTokenA
        );
        assert!(result.is_ok(), "Failed for tick spacing: {}", spacing);
    }
}

#[test]
fn test_safety_buffer_calculation() {
    let mut pool_data = create_test_pool_data();
    pool_data.tick_spacing = 100;
    pool_data.tick_current = 1000;
    
    // Safety buffer should be 2 * tick_spacing = 200
    // So for QuoteIsTokenA, tick_lower must be > current_tick + 200 = 1200
    
    let position_just_inside_buffer = create_test_position_data(1200, 1300);
    let result = preflight_validate_quote_only(
        &pool_data,
        &position_just_inside_buffer,
        TokenOrder::QuoteIsTokenA
    );
    assert!(result.is_err()); // Should fail (not > 1200)
    
    let position_outside_buffer = create_test_position_data(1300, 1400);
    let result = preflight_validate_quote_only(
        &pool_data,
        &position_outside_buffer,
        TokenOrder::QuoteIsTokenA
    );
    assert!(result.is_ok()); // Should pass (> 1200)
}

#[test]
fn test_complete_validation_scenario_1() {
    // Scenario: USDC/SOL pool where USDC is quote (token A)
    let mut pool_data = create_test_pool_data();
    pool_data.tick_current = 0;
    pool_data.tick_spacing = 64;
    
    let quote_mint = pool_data.token_mint_a; // USDC as quote
    let position_data = create_test_position_data(256, 384); // Well above current price
    
    // This should succeed - position only accrues USDC fees
    let result = validate_quote_only_config(&pool_data, &position_data, &quote_mint);
    assert!(result.is_ok());
    assert_eq!(result.unwrap(), TokenOrder::QuoteIsTokenA);
}

#[test]
fn test_complete_validation_scenario_2() {
    // Scenario: SOL/USDC pool where USDC is quote (token B)
    let mut pool_data = create_test_pool_data();
    pool_data.tick_current = 0;
    pool_data.tick_spacing = 64;
    
    let quote_mint = pool_data.token_mint_b; // USDC as quote
    let position_data = create_test_position_data(-384, -256); // Well below current price
    
    // This should succeed - position only accrues USDC fees
    let result = validate_quote_only_config(&pool_data, &position_data, &quote_mint);
    assert!(result.is_ok());
    assert_eq!(result.unwrap(), TokenOrder::QuoteIsTokenB);
}

#[test]
fn test_complete_validation_scenario_failure() {
    // Scenario: Attempting to create position that would accrue both tokens
    let mut pool_data = create_test_pool_data();
    pool_data.tick_current = 1000;
    pool_data.tick_spacing = 64;
    
    let quote_mint = pool_data.token_mint_a;
    let position_data = create_test_position_data(896, 1152); // Spans current price
    
    // This should fail - position would accrue both base and quote fees
    let result = validate_quote_only_config(&pool_data, &position_data, &quote_mint);
    assert!(result.is_err());
}
