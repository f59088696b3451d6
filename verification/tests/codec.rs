//! Tests of the numeric and identifier codec against the real
//! arbitrary-precision backends.

use std::str::FromStr;

use bigdecimal::BigDecimal;
use chain_projection::domain::{Amount, AssetId};
use chain_projection::error::{CodecReason, Error};
use chain_projection::sql::{SQLAmount, SQLAssetId};

fn round_trip(v: u128) -> u128 {
    let encoded = SQLAmount::new(Amount::from_u128(v)).to_decimal();
    let decoded = SQLAmount::from_decimal(&encoded).expect("round trip must decode");
    decoded.amount().value()
}

#[test]
fn amount_round_trips_across_the_range() {
    for v in [
        0u128,
        1,
        5,
        255,
        256,
        65535,
        1u128 << 63,
        1u128 << 64,
        (1u128 << 64) + 1,
        u128::MAX - 1,
        u128::MAX,
    ] {
        assert_eq!(round_trip(v), v);
    }
}

#[test]
fn amount_encodes_as_plain_integer_decimal() {
    let encoded = SQLAmount::new(Amount::from_u128(4660)).to_decimal();
    assert_eq!(encoded, BigDecimal::from(4660u32));
    let huge = SQLAmount::new(Amount::from_u128(u128::MAX)).to_decimal();
    assert_eq!(
        huge,
        BigDecimal::from_str("340282366920938463463374607431768211455").unwrap()
    );
}

#[test]
fn fractional_decimal_is_rejected() {
    let fractional = BigDecimal::from_str("1.5").unwrap();
    let r = SQLAmount::from_decimal(&fractional);
    assert_eq!(
        r.unwrap_err(),
        Error::CodecError { reason: CodecReason::NonIntegralValue }
    );
}

#[test]
fn integral_decimal_with_positive_scale_decodes_exactly() {
    let five = BigDecimal::from_str("5.00").unwrap();
    let r = SQLAmount::from_decimal(&five).expect("5.00 is integral");
    assert_eq!(r.amount().value(), 5);
}

#[test]
fn oversized_magnitude_is_rejected() {
    // 2^128 does not fit in 16 bytes.
    let too_big = BigDecimal::from_str("340282366920938463463374607431768211456").unwrap();
    let r = SQLAmount::from_decimal(&too_big);
    assert_eq!(
        r.unwrap_err(),
        Error::CodecError { reason: CodecReason::MagnitudeOverflow }
    );
}

#[test]
fn negative_decimal_decodes_to_its_magnitude() {
    let negative = BigDecimal::from_str("-7").unwrap();
    let r = SQLAmount::from_decimal(&negative).expect("-7 is integral");
    assert_eq!(r.amount().value(), 7);
}

#[test]
fn amount_byte_encoding_is_little_endian() {
    let bytes = Amount::from_u128(0x0201).to_le_bytes();
    assert_eq!(bytes.len(), 16);
    assert_eq!(bytes[0], 0x01);
    assert_eq!(bytes[1], 0x02);
    assert_eq!(&bytes[2..], &[0u8; 14]);
    let back = Amount::from_le_bytes_checked(&bytes).unwrap();
    assert_eq!(back.value(), 0x0201);
}

#[test]
fn asset_id_round_trips_verbatim() {
    let mut bytes = Vec::new();
    for i in 0..32u8 {
        bytes.push(i.wrapping_mul(7).wrapping_add(3));
    }
    let id = AssetId::try_from_bytes(bytes.clone()).expect("32 bytes are accepted");
    let framed = SQLAssetId::new(id.clone());
    let encoded = framed.to_bytes();
    assert_eq!(encoded, bytes);
    let decoded = SQLAssetId::from_bytes(encoded).expect("32 bytes decode");
    assert_eq!(decoded.asset_id(), id);
}

#[test]
fn wrong_length_identifier_is_rejected() {
    for len in [0usize, 31, 33, 64] {
        let bytes = vec![0u8; len];
        let r = SQLAssetId::from_bytes(bytes);
        assert_eq!(
            r.unwrap_err(),
            Error::CodecError { reason: CodecReason::IdentifierLength }
        );
    }
    assert!(AssetId::try_from_bytes(vec![0u8; 31]).is_none());
}
