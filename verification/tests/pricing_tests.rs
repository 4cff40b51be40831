use pumpfun::accounts::{
    decode_bonding_curve, decode_global, encode_bonding_curve, encode_global,
    BondingCurveAccount, GlobalAccount, BONDING_CURVE_DISCRIMINATOR, GLOBAL_DISCRIMINATOR,
};
use pumpfun::error::{DecodeError, PricingError};
use pumpfun::utils::{calculate_with_slippage_buy, calculate_with_slippage_sell};

fn sample_curve() -> BondingCurveAccount {
    BondingCurveAccount {
        virtual_token_reserves: 1_000_000_000,
        virtual_sol_reserves: 30_000_000_000,
        real_token_reserves: 800_000_000,
        real_sol_reserves: 0,
        token_total_supply: 1_000_000_000,
        complete: false,
    }
}

fn sample_global() -> GlobalAccount {
    GlobalAccount {
        initialized: true,
        authority: vec![1u8; 32],
        fee_recipient: vec![2u8; 32],
        initial_virtual_token_reserves: 1_000_000_000,
        initial_virtual_sol_reserves: 30_000_000_000,
        initial_real_token_reserves: 800_000_000,
        token_total_supply: 1_000_000_000,
        fee_basis_points: 100,
    }
}

#[test]
fn buy_price_example_scenario() {
    // reserves 1e9 tokens / 30e9 lamports, paying in 1e6 lamports
    let curve = sample_curve();
    let tokens = curve.get_buy_price(1_000_000).unwrap();
    assert!(tokens > 0);
    assert!(tokens < curve.virtual_token_reserves);
    assert_eq!(tokens, 33_332);
    // default 500 bp tolerance widens the cost ceiling: cost * 10500 / 10000
    let max_cost = calculate_with_slippage_buy(1_000_000, 500).unwrap();
    assert_eq!(max_cost, 1_000_000 * 10_500 / 10_000);
    assert_eq!(max_cost, 1_050_000);
}

#[test]
fn buy_price_exact_small_case() {
    let curve = BondingCurveAccount {
        virtual_token_reserves: 100,
        virtual_sol_reserves: 100,
        real_token_reserves: 1_000,
        real_sol_reserves: 0,
        token_total_supply: 100,
        complete: false,
    };
    // (100*100)/(100+100) = 50; 100 - 50 - 1 = 49
    assert_eq!(curve.get_buy_price(100).unwrap(), 49);
    assert_eq!(curve.get_buy_price(0).unwrap(), 0);
}

#[test]
fn buy_price_clamps_to_real_reserves() {
    let mut curve = sample_curve();
    curve.real_token_reserves = 10_000;
    assert_eq!(curve.get_buy_price(1_000_000).unwrap(), 10_000);
}

#[test]
fn buy_price_monotonic_in_input() {
    let curve = sample_curve();
    let mut prev: u64 = 0;
    for amount in [0u64, 1, 1_000, 1_000_000, 2_000_000, 30_000_000_000] {
        let t = curve.get_buy_price(amount).unwrap();
        assert!(t >= prev);
        prev = t;
    }
    assert_eq!(curve.get_buy_price(2_000_000).unwrap(), 66_662);
}

#[test]
fn sell_price_exact_case() {
    let curve = BondingCurveAccount {
        virtual_token_reserves: 1_000,
        virtual_sol_reserves: 1_000_000,
        real_token_reserves: 1_000,
        real_sol_reserves: 0,
        token_total_supply: 1_000,
        complete: false,
    };
    // gross = 1000*1e6/(1000+1000) = 500_000; fee at 100 bp = 5_000
    assert_eq!(curve.get_sell_price(1_000, 100).unwrap(), 495_000);
    assert_eq!(curve.get_sell_price(1_000, 0).unwrap(), 500_000);
    assert_eq!(curve.get_sell_price(0, 100).unwrap(), 0);
}

#[test]
fn sell_price_monotonic_in_input() {
    let curve = sample_curve();
    let mut prev: u64 = 0;
    for amount in [0u64, 1, 10, 1_000, 1_000_000, 1_000_000_000] {
        let s = curve.get_sell_price(amount, 100).unwrap();
        assert!(s >= prev);
        prev = s;
    }
}

#[test]
fn completed_curve_rejects_trades() {
    let mut curve = sample_curve();
    curve.complete = true;
    assert_eq!(curve.get_buy_price(1), Err(PricingError::CurveComplete));
    assert_eq!(curve.get_buy_price(0), Err(PricingError::CurveComplete));
    assert_eq!(curve.get_sell_price(1, 100), Err(PricingError::CurveComplete));
    assert_eq!(curve.get_sell_price(0, 0), Err(PricingError::CurveComplete));
}

#[test]
fn sell_price_rejects_fee_above_cap() {
    let curve = sample_curve();
    assert_eq!(
        curve.get_sell_price(1_000, 10_001),
        Err(PricingError::InvalidTolerance)
    );
}

#[test]
fn buy_price_overflow_on_degenerate_reserves() {
    let curve = BondingCurveAccount {
        virtual_token_reserves: 0,
        virtual_sol_reserves: 0,
        real_token_reserves: 0,
        real_sol_reserves: 0,
        token_total_supply: 0,
        complete: false,
    };
    assert_eq!(curve.get_buy_price(5), Err(PricingError::Overflow));
}

#[test]
fn slippage_identity_at_zero_tolerance() {
    assert_eq!(calculate_with_slippage_buy(100, 0).unwrap(), 100);
    assert_eq!(calculate_with_slippage_sell(100, 0).unwrap(), 100);
}

#[test]
fn slippage_bounds_and_exact_values() {
    assert_eq!(calculate_with_slippage_buy(100, 500).unwrap(), 105);
    assert_eq!(calculate_with_slippage_sell(100, 500).unwrap(), 95);
    assert_eq!(calculate_with_slippage_sell(100, 10_000).unwrap(), 0);
    assert_eq!(calculate_with_slippage_buy(100, 10_000).unwrap(), 200);
    // floor division, never up
    assert_eq!(calculate_with_slippage_buy(99, 1).unwrap(), 99);
    assert_eq!(calculate_with_slippage_sell(99, 1).unwrap(), 98);
    for bps in [0u64, 1, 499, 500, 9_999, 10_000] {
        assert!(calculate_with_slippage_buy(12_345, bps).unwrap() >= 12_345);
        assert!(calculate_with_slippage_sell(12_345, bps).unwrap() <= 12_345);
    }
}

#[test]
fn slippage_never_overflows_wide_inputs() {
    // the multiplication is done in 128 bits; the buy ceiling reports
    // overflow only when the exact result no longer fits in 64 bits
    assert_eq!(
        calculate_with_slippage_buy(u64::MAX, 1),
        Err(PricingError::Overflow)
    );
    assert_eq!(calculate_with_slippage_buy(u64::MAX, 0).unwrap(), u64::MAX);
    assert_eq!(
        calculate_with_slippage_sell(u64::MAX, 0).unwrap(),
        u64::MAX
    );
    assert_eq!(
        calculate_with_slippage_sell(u64::MAX, 10_000).unwrap(),
        0
    );
}

#[test]
fn slippage_rejects_tolerance_above_cap() {
    assert_eq!(
        calculate_with_slippage_buy(100, 10_001),
        Err(PricingError::InvalidTolerance)
    );
    assert_eq!(
        calculate_with_slippage_sell(100, 10_001),
        Err(PricingError::InvalidTolerance)
    );
}

#[test]
fn global_account_round_trips_through_bytes() {
    let g = sample_global();
    let bytes = encode_global(&g);
    assert_eq!(bytes.len(), 113);
    assert_eq!(&bytes[0..8], &GLOBAL_DISCRIMINATOR);
    let decoded = decode_global(&bytes).unwrap();
    assert_eq!(decoded, g);
    let re_encoded = encode_global(&decoded);
    assert_eq!(re_encoded, bytes);
}

#[test]
fn global_account_decodes_exact_fields() {
    let mut bytes: Vec<u8> = Vec::new();
    bytes.extend_from_slice(&GLOBAL_DISCRIMINATOR);
    bytes.push(1);
    bytes.extend_from_slice(&[5u8; 32]);
    bytes.extend_from_slice(&[6u8; 32]);
    bytes.extend_from_slice(&42u64.to_le_bytes());
    bytes.extend_from_slice(&43u64.to_le_bytes());
    bytes.extend_from_slice(&44u64.to_le_bytes());
    bytes.extend_from_slice(&45u64.to_le_bytes());
    bytes.extend_from_slice(&100u64.to_le_bytes());
    let g = decode_global(&bytes).unwrap();
    assert!(g.initialized);
    assert_eq!(g.authority, vec![5u8; 32]);
    assert_eq!(g.fee_recipient, vec![6u8; 32]);
    assert_eq!(g.initial_virtual_token_reserves, 42);
    assert_eq!(g.initial_virtual_sol_reserves, 43);
    assert_eq!(g.initial_real_token_reserves, 44);
    assert_eq!(g.token_total_supply, 45);
    assert_eq!(g.fee_basis_points, 100);
}

#[test]
fn global_account_decode_errors() {
    let good = encode_global(&sample_global());
    assert_eq!(decode_global(&good[..100]), Err(DecodeError::WrongLength));
    let mut wrong_tag = good.clone();
    wrong_tag[0] ^= 0xff;
    assert_eq!(decode_global(&wrong_tag), Err(DecodeError::WrongDiscriminator));
    let mut bad_flag = good.clone();
    bad_flag[8] = 2;
    assert_eq!(decode_global(&bad_flag), Err(DecodeError::InvalidFlag));
}

#[test]
fn bonding_curve_round_trips_through_bytes() {
    let c = sample_curve();
    let bytes = encode_bonding_curve(&c);
    assert_eq!(bytes.len(), 49);
    assert_eq!(&bytes[0..8], &BONDING_CURVE_DISCRIMINATOR);
    let decoded = decode_bonding_curve(&bytes).unwrap();
    assert_eq!(decoded, c);
    assert_eq!(encode_bonding_curve(&decoded), bytes);
}

#[test]
fn bonding_curve_decodes_exact_fields() {
    let mut bytes: Vec<u8> = Vec::new();
    bytes.extend_from_slice(&BONDING_CURVE_DISCRIMINATOR);
    bytes.extend_from_slice(&11u64.to_le_bytes());
    bytes.extend_from_slice(&22u64.to_le_bytes());
    bytes.extend_from_slice(&33u64.to_le_bytes());
    bytes.extend_from_slice(&44u64.to_le_bytes());
    bytes.extend_from_slice(&55u64.to_le_bytes());
    bytes.push(0);
    let c = decode_bonding_curve(&bytes).unwrap();
    assert_eq!(c.virtual_token_reserves, 11);
    assert_eq!(c.virtual_sol_reserves, 22);
    assert_eq!(c.real_token_reserves, 33);
    assert_eq!(c.real_sol_reserves, 44);
    assert_eq!(c.token_total_supply, 55);
    assert!(!c.complete);
}

#[test]
fn bonding_curve_decode_errors() {
    let good = encode_bonding_curve(&sample_curve());
    assert_eq!(
        decode_bonding_curve(&good[..48]),
        Err(DecodeError::WrongLength)
    );
    let mut wrong_tag = good.clone();
    wrong_tag[7] ^= 0xff;
    assert_eq!(
        decode_bonding_curve(&wrong_tag),
        Err(DecodeError::WrongDiscriminator)
    );
    let mut bad_flag = good.clone();
    bad_flag[48] = 7;
    assert_eq!(decode_bonding_curve(&bad_flag), Err(DecodeError::InvalidFlag));
}
