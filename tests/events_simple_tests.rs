use meteora_fee_router::constants::{MAX_PAGE_SIZE, TWENTY_FOUR_HOURS};
use meteora_fee_router::creator_distribution::CreatorDistribution;
use meteora_fee_router::distribute_fees::DistributeFeesParams;
use meteora_fee_router::error::ErrorCode;
use meteora_fee_router::events::{
    CreatorPayoutDayClosed, HonoraryPositionInitialized, InvestorPayoutPage, QuoteFeesClaimed,
};
use meteora_fee_router::fee_claiming::{validate_quote_only_fees, FeeClaimResult, PositionFeeData};
use meteora_fee_router::key::AccountKey;
use meteora_fee_router::math::calculate_distribution;
use meteora_fee_router::policy::PolicyConfig;
use meteora_fee_router::progress::{DistributionProgress, DistributionTimingState};

fn key(n: u32) -> AccountKey {
    let mut bytes = [0u8; 32];
    bytes[..4].copy_from_slice(&n.to_le_bytes());
    bytes[31] = 1;
    AccountKey::new(bytes)
}

#[test]
fn events_simple_tests_test_event_field_constraints() {
    let vault = key(14);
    let timestamp = 2000i64;

    // Test basis points validation (should be <= 10000)
    let valid_bps_values = [0, 1, 5000, 9999, 10000];
    for bps in valid_bps_values {
        let event = HonoraryPositionInitialized {
            vault,
            quote_mint: key(15),
            creator_wallet: key(16),
            investor_fee_share_bps: bps,
            daily_cap_lamports: Some(1_000_000),
            min_payout_lamports: 1000,
            y0_total_allocation: 10_000_000,
            position_owner_pda: key(17),
            policy_config: key(18),
            distribution_progress: key(19),
            timestamp,
        };
        assert!(event.investor_fee_share_bps <= 10000);
    }

    // Test quote-only enforcement (base_amount must be 0)
    let claim_event = QuoteFeesClaimed {
        vault,
        claimed_amount: 1_000_000,
        base_amount: 0, // Critical: must be 0
        quote_mint: key(20),
        honorary_position: key(21),
        treasury_ata: key(22),
        timestamp,
    };
    assert_eq!(claim_event.base_amount, 0);

    // Test page consistency
    let payout_event = InvestorPayoutPage {
        vault,
        page_start: 5,
        page_end: 15,
        total_distributed: 500_000,
        processed_count: 10,
        dust_carried_forward: 100,
        cumulative_day_distributed: 1_000_000,
        timestamp,
    };
    assert_eq!(payout_event.processed_count, payout_event.page_end - payout_event.page_start);
    assert!(payout_event.cumulative_day_distributed >= payout_event.total_distributed);
}

#[test]
fn events_simple_tests_test_event_monitoring_data() {
    let vault = key(23);
    let quote_mint = key(24);
    let creator_wallet = key(25);
    let timestamp = 3000i64;

    // Test comprehensive monitoring data in HonoraryPositionInitialized
    let init_event = HonoraryPositionInitialized {
        vault,
        quote_mint,
        creator_wallet,
        investor_fee_share_bps: 7500, // 75% to investors
        daily_cap_lamports: Some(5_000_000_000), // 5 SOL daily cap
        min_payout_lamports: 2000, // 2000 lamports minimum
        y0_total_allocation: 100_000_000_000, // 100 SOL total allocation
        position_owner_pda: key(26),
        policy_config: key(27),
        distribution_progress: key(28),
        timestamp,
    };

    // Verify monitoring-relevant data
    assert!(init_event.investor_fee_share_bps <= 10000);
    assert!(init_event.daily_cap_lamports.is_some());
    assert!(init_event.min_payout_lamports > 0);
    assert!(init_event.y0_total_allocation > 0);

    // Test fee claiming monitoring
    let claim_event = QuoteFeesClaimed {
        vault,
        claimed_amount: 2_500_000_000,
        base_amount: 0, // Critical for monitoring quote-only enforcement
        quote_mint,
        honorary_position: key(29),
        treasury_ata: key(30),
        timestamp,
    };

    // Verify quote-only monitoring
    assert_eq!(claim_event.base_amount, 0);
    assert!(claim_event.claimed_amount > 0);

    // Test payout monitoring
    let payout_event = InvestorPayoutPage {
        vault,
        page_start: 0,
        page_end: 20,
        total_distributed: 1_875_000_000, // 75% of claimed amount
        processed_count: 20,
        dust_carried_forward: 5000,
        cumulative_day_distributed: 1_875_000_000,
        timestamp,
    };

    // Verify payout monitoring data
    assert_eq!(payout_event.processed_count, 20);
    assert!(payout_event.dust_carried_forward < payout_event.total_distributed);

    // Test creator payout monitoring
    let creator_event = CreatorPayoutDayClosed {
        vault,
        creator_payout: 625_000_000, // 25% of claimed amount
        creator_wallet,
        total_day_distributed: 2_500_000_000, // Total claimed amount
        total_investors_processed: 20,
        final_dust_amount: 5000,
        timestamp,
    };

    // Verify creator monitoring data
    assert_eq!(
        creator_event.total_day_distributed,
        payout_event.total_distributed + creator_event.creator_payout
    );
    assert_eq!(creator_event.total_investors_processed, 20);
    assert!(creator_event.final_dust_amount < creator_event.creator_payout);
}

#[test]
fn events_simple_tests_test_event_timestamp_consistency() {
    let vault = key(31);
    let base_timestamp = 4000i64;

    // Events in a distribution cycle should have consistent or increasing timestamps
    let claim_event = QuoteFeesClaimed {
        vault,
        claimed_amount: 1_000_000,
        base_amount: 0,
        quote_mint: key(32),
        honorary_position: key(33),
        treasury_ata: key(34),
        timestamp: base_timestamp,
    };

    let payout_event = InvestorPayoutPage {
        vault,
        page_start: 0,
        page_end: 5,
        total_distributed: 600_000,
        processed_count: 5,
        dust_carried_forward: 0,
        cumulative_day_distributed: 600_000,
        timestamp: base_timestamp + 1,
    };

    let creator_event = CreatorPayoutDayClosed {
        vault,
        creator_payout: 400_000,
        creator_wallet: key(35),
        total_day_distributed: 1_000_000,
        total_investors_processed: 5,
        final_dust_amount: 0,
        timestamp: base_timestamp + 2,
    };

    // Verify timestamp ordering
    assert!(claim_event.timestamp <= payout_event.timestamp);
    assert!(payout_event.timestamp <= creator_event.timestamp);

    // Verify amount consistency
    assert_eq!(
        payout_event.total_distributed + creator_event.creator_payout,
        claim_event.claimed_amount
    );
}

#[test]
fn events_simple_tests_test_event_edge_cases() {
    let vault = key(36);
    let timestamp = 5000i64;

    // Test zero amounts
    let zero_claim = QuoteFeesClaimed {
        vault,
        claimed_amount: 0,
        base_amount: 0,
        quote_mint: key(37),
        honorary_position: key(38),
        treasury_ata: key(39),
        timestamp,
    };
    assert_eq!(zero_claim.claimed_amount, 0);
    assert_eq!(zero_claim.base_amount, 0);

    // Test maximum values
    let max_claim = QuoteFeesClaimed {
        vault,
        claimed_amount: u64::MAX,
        base_amount: 0, // Still must be 0
        quote_mint: key(40),
        honorary_position: key(41),
        treasury_ata: key(42),
        timestamp,
    };
    assert_eq!(max_claim.claimed_amount, u64::MAX);
    assert_eq!(max_claim.base_amount, 0);

    // Test single investor scenario
    let single_investor = InvestorPayoutPage {
        vault,
        page_start: 0,
        page_end: 1,
        total_distributed: 1_000_000,
        processed_count: 1,
        dust_carried_forward: 0,
        cumulative_day_distributed: 1_000_000,
        timestamp,
    };
    assert_eq!(single_investor.processed_count, 1);
    assert_eq!(single_investor.page_end - single_investor.page_start, 1);

    // Test no creator payout (100% to investors)
    let no_creator_payout = CreatorPayoutDayClosed {
        vault,
        creator_payout: 0,
        creator_wallet: key(43),
        total_day_distributed: 5_000_000,
        total_investors_processed: 10,
        final_dust_amount: 0,
        timestamp,
    };
    assert_eq!(no_creator_payout.creator_payout, 0);
    assert!(no_creator_payout.total_day_distributed > 0);
}

#[test]
fn events_simple_tests_test_event_field_types() {
    let vault = key(44);
    let timestamp = 6000i64;

    // Test that all AccountKey fields are valid
    let init_event = HonoraryPositionInitialized {
        vault,
        quote_mint: key(45),
        creator_wallet: key(46),
        investor_fee_share_bps: 5000,
        daily_cap_lamports: None, // Test None case
        min_payout_lamports: 1000,
        y0_total_allocation: 10_000_000_000,
        position_owner_pda: key(47),
        policy_config: key(48),
        distribution_progress: key(49),
        timestamp,
    };

    // Verify AccountKey fields are 32 bytes
    assert_eq!(init_event.vault.to_bytes().len(), 32);
    assert_eq!(init_event.quote_mint.to_bytes().len(), 32);
    assert_eq!(init_event.creator_wallet.to_bytes().len(), 32);

    // Test Option<u64> field
    assert_eq!(init_event.daily_cap_lamports, None);

    // Test u16 field (basis points)
    assert!(init_event.investor_fee_share_bps <= u16::MAX);

    // Test u64 fields
    assert!(init_event.min_payout_lamports <= u64::MAX);
    assert!(init_event.y0_total_allocation <= u64::MAX);

    // Test i64 field (timestamp)
    assert!(init_event.timestamp >= i64::MIN);
    assert!(init_event.timestamp <= i64::MAX);
}
