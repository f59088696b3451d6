//! Lossless conversion between domain scalars and their relational column
//! encodings: a 128-bit amount becomes an arbitrary-precision decimal with
//! scale zero, and a 32-byte asset identifier becomes fixed-length binary.
//!
//! The arbitrary-precision arithmetic itself is done by the `num_bigint`
//! and `bigdecimal` crates behind the trusted items below; everything said
//! about a decimal is said through its mathematical model: the value of its
//! little-endian digit-magnitude bytes, and its scale.

use vstd::prelude::*;
use crate::domain::{le_val, pow256, Amount, AssetId};
use crate::error::{CodecReason, Error};

verus! {

/// `10^n`, the weight a decimal scale removes or adds.
pub open spec fn pow10(n: nat) -> nat
    decreases n,
{
    if n == 0 {
        1
    } else {
        10 * pow10((n - 1) as nat)
    }
}

#[verifier::external_type_specification]
#[verifier::external_body]
pub struct ExBigInt(num_bigint::BigInt);

#[verifier::external_type_specification]
#[verifier::external_body]
pub struct ExBigDecimal(bigdecimal::BigDecimal);

/// The little-endian bytes of the magnitude of a big integer, as
/// `num_bigint::BigInt::to_bytes_le` returns them.
pub uninterp spec fn bigint_mag_le(v: num_bigint::BigInt) -> Seq<u8>;

/// The little-endian magnitude bytes of a decimal's unscaled digits.
pub uninterp spec fn decimal_units_le(d: bigdecimal::BigDecimal) -> Seq<u8>;

/// A decimal's scale: its value is `digits * 10^(-scale)`.
pub uninterp spec fn decimal_scale_of(d: bigdecimal::BigDecimal) -> int;

/// The mathematical content of a decimal: its digit magnitude and scale.
pub open spec fn decimal_model(d: bigdecimal::BigDecimal) -> (nat, int) {
    (le_val(decimal_units_le(d)), decimal_scale_of(d))
}

/// A decimal has zero fractional part when its scale is at most zero or its
/// digits are divisible by `10^scale`.
pub open spec fn spec_decimal_integral(m: (nat, int)) -> bool {
    m.1 <= 0 || m.0 % pow10(m.1 as nat) == 0
}

/// The magnitude of a decimal's integer part (truncated toward zero).
pub open spec fn spec_decimal_int_mag(m: (nat, int)) -> nat {
    if m.1 >= 0 {
        m.0 / pow10(m.1 as nat)
    } else {
        m.0 * pow10((-m.1) as nat)
    }
}

/// Relies on `num_bigint::BigInt::from_bytes_le`: builds the non-negative
/// integer denoted by the given little-endian magnitude bytes.
#[verifier::external_body]
fn bigint_from_le_bytes(bytes: &Vec<u8>) -> (r: num_bigint::BigInt)
    ensures
        le_val(bigint_mag_le(r)) == le_val(bytes@),
{
    num_bigint::BigInt::from_bytes_le(num_bigint::Sign::Plus, bytes)
}

/// Relies on `num_bigint::BigInt::to_bytes_le`: returns the little-endian
/// bytes of the integer's magnitude (the sign is returned beside them and
/// dropped here; the relational codec works on magnitudes).
#[verifier::external_body]
fn bigint_to_le_bytes(v: &num_bigint::BigInt) -> (r: Vec<u8>)
    ensures
        r@ == bigint_mag_le(*v),
{
    v.to_bytes_le().1
}

/// Relies on `From<BigInt> for BigDecimal`: the result carries the given
/// integer as its digits and has scale zero.
#[verifier::external_body]
fn decimal_from_bigint(v: num_bigint::BigInt) -> (d: bigdecimal::BigDecimal)
    ensures
        decimal_units_le(d) == bigint_mag_le(v),
        decimal_scale_of(d) == 0,
{
    bigdecimal::BigDecimal::from(v)
}

/// Relies on `bigdecimal::BigDecimal::is_integer`: true exactly when the
/// scale is at most zero or the digits are divisible by `10^scale`.
#[verifier::external_body]
fn decimal_is_integer(d: &bigdecimal::BigDecimal) -> (r: bool)
    ensures
        r == spec_decimal_integral(decimal_model(*d)),
{
    d.is_integer()
}

/// Relies on `bigdecimal::BigDecimal::with_scale`: rescaling to zero
/// divides (truncating toward zero) or multiplies the digits by the
/// matching power of ten.
#[verifier::external_body]
fn decimal_rescale_to_integer(d: &bigdecimal::BigDecimal) -> (r: bigdecimal::BigDecimal)
    ensures
        decimal_scale_of(r) == 0,
        le_val(decimal_units_le(r)) == spec_decimal_int_mag(decimal_model(*d)),
{
    d.with_scale(0)
}

/// Relies on `bigdecimal::BigDecimal::as_bigint_and_exponent`: returns the
/// decimal's digits and its scale.
#[verifier::external_body]
fn decimal_to_bigint_and_scale(d: &bigdecimal::BigDecimal) -> (r: (num_bigint::BigInt, i64))
    ensures
        bigint_mag_le(r.0) == decimal_units_le(*d),
        r.1 as int == decimal_scale_of(*d),
{
    d.as_bigint_and_exponent()
}

/// The decimal model an amount encodes to: its value as digits, scale zero.
pub open spec fn spec_amount_encode(v: nat) -> (nat, int) {
    (v, 0)
}

/// What decoding a stored decimal into an amount yields: the integer
/// magnitude when the value is integral and fits in 16 bytes, and the
/// exact reason it is rejected otherwise.
pub open spec fn spec_amount_decode(m: (nat, int)) -> Result<nat, CodecReason> {
    if !spec_decimal_integral(m) {
        Err(CodecReason::NonIntegralValue)
    } else if spec_decimal_int_mag(m) >= pow256(16) {
        Err(CodecReason::MagnitudeOverflow)
    } else {
        Ok(spec_decimal_int_mag(m))
    }
}

/// Round trip: every 128-bit amount survives encoding into the decimal
/// model and decoding back, with no precision loss.
pub proof fn lemma_amount_codec_round_trip(v: nat)
    requires
        v < pow256(16),
    ensures
        spec_amount_decode(spec_amount_encode(v)) == Ok::<nat, CodecReason>(v),
{
    let m = spec_amount_encode(v);
    assert(pow10(0) == 1);
    assert(spec_decimal_integral(m));
    assert(spec_decimal_int_mag(m) == v / 1);
    assert(v / 1 == v);
}

/// A stored decimal with a nonzero fractional part is always rejected,
/// whatever its digits.
pub proof fn lemma_fractional_value_rejected(m: (nat, int))
    requires
        !spec_decimal_integral(m),
    ensures
        spec_amount_decode(m) == Err::<nat, CodecReason>(CodecReason::NonIntegralValue),
{
}

/// An amount framed for the relational layer.
#[derive(Clone, Copy, Debug, PartialEq, Eq, Structural)]
pub struct SQLAmount {
    amount: Amount,
}

impl View for SQLAmount {
    type V = nat;

    closed spec fn view(&self) -> nat {
        self.amount@
    }
}

impl SQLAmount {
    /// Frame an amount for storage.
    pub fn new(amount: Amount) -> (r: Self)
        ensures
            r@ == amount@,
    {
        SQLAmount { amount }
    }

    /// The domain amount back out.
    pub fn amount(self) -> (r: Amount)
        ensures
            r@ == self@,
    {
        self.amount
    }

    /// The amount as a non-negative big integer.
    fn to_bigint(&self) -> (r: num_bigint::BigInt)
        ensures
            le_val(bigint_mag_le(r)) == self@,
    {
        let bytes = self.amount.to_le_bytes();
        bigint_from_le_bytes(&bytes)
    }

    /// An amount from a big integer's magnitude, when it fits in 16 bytes.
    fn from_bigint(value: &num_bigint::BigInt) -> (r: Option<Self>)
        ensures
            le_val(bigint_mag_le(*value)) < pow256(16) ==> (r matches Some(a) && a@ == le_val(
                bigint_mag_le(*value),
            )),
            le_val(bigint_mag_le(*value)) >= pow256(16) ==> r is None,
    {
        let bytes = bigint_to_le_bytes(value);
        match Amount::from_le_bytes_checked(&bytes) {
            Some(amount) => Some(SQLAmount { amount }),
            None => None,
        }
    }

    /// Encode the amount as an arbitrary-precision decimal with scale zero.
    pub fn to_decimal(&self) -> (d: bigdecimal::BigDecimal)
        ensures
            decimal_model(d) == spec_amount_encode(self@),
    {
        decimal_from_bigint(self.to_bigint())
    }

    /// Decode a stored decimal: rejects a nonzero fractional part, rejects
    /// a magnitude over 16 bytes, and otherwise returns the exact integer
    /// magnitude of the stored value.
    pub fn from_decimal(d: &bigdecimal::BigDecimal) -> (r: Result<Self, Error>)
        ensures
            match r {
                Ok(a) => spec_amount_decode(decimal_model(*d)) == Ok::<nat, CodecReason>(a@),
                Err(e) => (spec_amount_decode(decimal_model(*d)) matches Err(c) && e
                    == (Error::CodecError { reason: c })),
            },
    {
        if !decimal_is_integer(d) {
            return Err(Error::CodecError { reason: CodecReason::NonIntegralValue });
        }
        let rescaled = decimal_rescale_to_integer(d);
        let (digits, _scale) = decimal_to_bigint_and_scale(&rescaled);
        match SQLAmount::from_bigint(&digits) {
            Some(a) => Ok(a),
            None => Err(Error::CodecError { reason: CodecReason::MagnitudeOverflow }),
        }
    }
}

/// An asset identifier framed for the relational layer.
#[derive(Clone, Debug, PartialEq, Eq)]
pub struct SQLAssetId {
    asset_id: AssetId,
}

impl View for SQLAssetId {
    type V = Seq<u8>;

    closed spec fn view(&self) -> Seq<u8> {
        self.asset_id@
    }
}

/// What decoding a stored binary column into an identifier yields: the
/// bytes verbatim, exactly when there are 32 of them.
pub open spec fn spec_asset_id_decode(bytes: Seq<u8>) -> Result<Seq<u8>, CodecReason> {
    if bytes.len() == 32 {
        Ok(bytes)
    } else {
        Err(CodecReason::IdentifierLength)
    }
}

/// Round trip: every 32-byte identifier survives encoding to the binary
/// column and decoding back, verbatim.
pub proof fn lemma_asset_id_codec_round_trip(id: Seq<u8>)
    requires
        id.len() == 32,
    ensures
        spec_asset_id_decode(id) == Ok::<Seq<u8>, CodecReason>(id),
{
}

impl SQLAssetId {
    /// Frame an identifier for storage.
    pub fn new(asset_id: AssetId) -> (r: Self)
        ensures
            r@ == asset_id@,
    {
        SQLAssetId { asset_id }
    }

    /// The domain identifier back out.
    pub fn asset_id(self) -> (r: AssetId)
        ensures
            r@ == self@,
    {
        self.asset_id
    }

    /// Encode the identifier as its 32 bytes, verbatim.
    pub fn to_bytes(&self) -> (r: Vec<u8>)
        ensures
            r@ == self@,
            r@.len() == 32,
    {
        self.asset_id.to_bytes_owned()
    }

    /// Decode a stored binary column: the bytes verbatim, exactly when the
    /// length is 32.
    pub fn from_bytes(bytes: Vec<u8>) -> (r: Result<Self, Error>)
        ensures
            match r {
                Ok(a) => spec_asset_id_decode(bytes@) == Ok::<Seq<u8>, CodecReason>(a@),
                Err(e) => (spec_asset_id_decode(bytes@) matches Err(c) && e == (Error::CodecError {
                    reason: c,
                })),
            },
    {
        match AssetId::try_from_bytes(bytes) {
            Some(asset_id) => Ok(SQLAssetId { asset_id }),
            None => Err(Error::CodecError { reason: CodecReason::IdentifierLength }),
        }
    }
}

} // verus!
