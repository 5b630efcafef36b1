use otc_market::errors::OtcError;
use otc_market::otc::{AcceptOfferReceipt, OtcConfig};

#[test]
fn remove_dust_rounds_down_to_shared_units() {
    assert_eq!(OtcConfig::remove_dust(1_500_000_001, 1_000), (1_500_000, 1_500_000_000));
    assert_eq!(OtcConfig::remove_dust(999, 1_000), (0, 0));
    assert_eq!(OtcConfig::remove_dust(0, 1_000), (0, 0));
    assert_eq!(OtcConfig::remove_dust(u64::MAX, 1), (u64::MAX, u64::MAX));
}

#[test]
fn remove_dust_law_on_values() {
    for (x, rate) in [(1_500_000_001u64, 1_000u64), (12_345, 100), (7, 1), (u64::MAX, 1_000_000)] {
        let (sd, ld) = OtcConfig::remove_dust(x, rate);
        assert_eq!(OtcConfig::sd2ld(sd, rate), Ok(ld));
        assert!(ld <= x);
    }
}

#[test]
fn shared_local_round_trip() {
    for (s, rate) in [(0u64, 1_000u64), (1_500_000, 1_000), (42, 1), (18_446_744_073, 1_000_000_000)] {
        let ld = OtcConfig::sd2ld(s, rate).unwrap();
        assert_eq!(OtcConfig::ld2sd(ld, rate), s);
    }
}

#[test]
fn sd2ld_overflow_is_excessive() {
    assert_eq!(OtcConfig::sd2ld(u64::MAX, 10), Err(OtcError::ExcessiveAmount));
    assert_eq!(OtcConfig::sd2ld(u64::MAX / 10, 10), Ok(u64::MAX / 10 * 10));
}

#[test]
fn conversion_rate_by_decimals() {
    assert_eq!(OtcConfig::get_decimal_conversion_rate(None), Ok(1_000));
    assert_eq!(OtcConfig::get_decimal_conversion_rate(Some(6)), Ok(1));
    assert_eq!(OtcConfig::get_decimal_conversion_rate(Some(9)), Ok(1_000));
    assert_eq!(OtcConfig::get_decimal_conversion_rate(Some(18)), Ok(1_000_000_000_000));
    assert_eq!(OtcConfig::get_decimal_conversion_rate(Some(25)), Ok(10_000_000_000_000_000_000));
    assert_eq!(OtcConfig::get_decimal_conversion_rate(Some(26)), Err(OtcError::ExcessiveAmount));
    assert_eq!(OtcConfig::get_decimal_conversion_rate(Some(5)), Err(OtcError::InvalidLocalDecimals));
    assert_eq!(OtcConfig::get_decimal_conversion_rate(Some(0)), Err(OtcError::InvalidLocalDecimals));
}

#[test]
fn destination_amount_and_fee() {
    assert_eq!(
        OtcConfig::to_dst_amount(500_000, 2_000_000, None),
        Ok(AcceptOfferReceipt { dst_amount_ld: 1_000_000_000, fee_ld: 10_000_000 })
    );
    // 6-decimal token: 1.5 units at a rate of 0.333333 gives 0.4999995, truncated.
    assert_eq!(
        OtcConfig::to_dst_amount(1_500_000, 333_333, Some(6)),
        Ok(AcceptOfferReceipt { dst_amount_ld: 499_999, fee_ld: 4_999 })
    );
    assert_eq!(
        OtcConfig::to_dst_amount(99, 1_000_000, Some(6)),
        Ok(AcceptOfferReceipt { dst_amount_ld: 99, fee_ld: 0 })
    );
}

#[test]
fn destination_amount_widens_before_dividing() {
    // The product overflows 64 bits but the quotient fits.
    let r = OtcConfig::to_dst_amount(4_000_000_000_000, 4_000_000_000, Some(9)).unwrap();
    assert_eq!(r.dst_amount_ld, 16_000_000_000_000_000_000);
    assert_eq!(r.fee_ld, 160_000_000_000_000_000);
}

#[test]
fn destination_amount_overflow_is_excessive() {
    assert_eq!(OtcConfig::to_dst_amount(u64::MAX, u64::MAX, Some(25)), Err(OtcError::ExcessiveAmount));
    assert_eq!(OtcConfig::to_dst_amount(u64::MAX, 2_000_000, Some(9)), Err(OtcError::ExcessiveAmount));
    assert_eq!(OtcConfig::to_dst_amount(1, 1, Some(3)), Err(OtcError::InvalidLocalDecimals));
}

#[test]
fn native_token_address_is_zero() {
    assert_eq!(OtcConfig::get_token_address(None), [0u8; 32]);
    assert_eq!(OtcConfig::get_token_address(Some([7u8; 32])), [7u8; 32]);
}
