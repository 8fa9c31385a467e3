//! The boundary to `rust_decimal`: text to number and number to text.
//!
//! A decimal crosses this boundary as its two parts, a signed mantissa and a
//! scale, standing for `mantissa / 10^scale`. Nothing in this module is
//! proved; each function states what is taken on trust from `rust_decimal`.

use rust_decimal::Decimal;
use rust_decimal::RoundingStrategy;
use vstd::prelude::*;

verus! {

/// Largest magnitude of a decimal's mantissa: 96 bits.
pub const MAX_MANTISSA: i128 = 0xFFFF_FFFF_FFFF_FFFF_FFFF_FFFF;

/// Largest scale of a decimal.
pub const MAX_SCALE: u32 = 28;

/// The mantissa and scale that `Decimal::from_str_exact` reads from a text,
/// or `None` where it rejects the text.
pub uninterp spec fn exact_decimal(text: Seq<char>) -> Option<(int, nat)>;

/// The text that `Decimal`'s `Display` writes for a decimal.
pub uninterp spec fn decimal_text(mantissa: int, scale: nat) -> Seq<char>;

/// Calls `Decimal::from_str_exact` and hands back the parts of the decimal
/// it read.
///
/// Trusted: the parts depend on the text alone.
#[verifier::external_body]
pub(crate) fn parse_exact(text: &str) -> (parts: Option<(i128, u32)>)
    ensures
        match parts {
            Some((mantissa, scale)) => exact_decimal(text@) == Some((mantissa as int, scale as nat)),
            None => exact_decimal(text@) is None,
        },
{
    match Decimal::from_str_exact(text) {
        Ok(decimal) => Some((decimal.mantissa(), decimal.scale())),
        Err(_) => None,
    }
}

/// Calls `Decimal::round_dp_with_strategy` with
/// `RoundingStrategy::MidpointAwayFromZero`, on a decimal that has no more
/// than `places` fractional digits.
///
/// Trusted: such a decimal comes back as it went in. That function tests
/// for it first and returns the decimal itself.
#[verifier::external_body]
pub(crate) fn round_half_away(mantissa: i128, scale: u32, places: u32) -> (parts: (i128, u32))
    requires
        -MAX_MANTISSA <= mantissa <= MAX_MANTISSA,
        scale <= MAX_SCALE,
        scale <= places,
    ensures
        parts == (mantissa, scale),
{
    let rounded = Decimal::from_i128_with_scale(mantissa, scale).round_dp_with_strategy(
        places,
        RoundingStrategy::MidpointAwayFromZero,
    );
    (rounded.mantissa(), rounded.scale())
}

/// Calls `to_string` on the decimal with the given parts, which goes through
/// `Decimal`'s `Display`.
///
/// Trusted: the text depends on the parts alone.
#[verifier::external_body]
pub(crate) fn to_text(mantissa: i128, scale: u32) -> (text: String)
    requires
        -MAX_MANTISSA <= mantissa <= MAX_MANTISSA,
        scale <= MAX_SCALE,
    ensures
        text@ == decimal_text(mantissa as int, scale as nat),
{
    Decimal::from_i128_with_scale(mantissa, scale).to_string()
}

} // verus!
