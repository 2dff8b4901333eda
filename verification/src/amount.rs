use vstd::prelude::*;

use crate::errors::TxError;

verus! {

/// Amounts are held as an integer count of ten-thousandths, i.e. fixed-point
/// values with four fractional decimal digits, the finest precision the
/// ledger accepts.
///
/// The largest count representable: a 96-bit mantissa carried down to four
/// fractional digits, `(2^96 - 1) * 10^4`.
pub const AMOUNT_LIMIT: u128 = 792281625142643375935439503350000;

/// The greatest number of fractional digits an amount may carry.
pub const MAX_SCALE: u32 = 4;

/// What the decimal parser returns for a string: `None` when the string is
/// not a decimal literal, otherwise the mantissa and the scale (the number
/// of fractional digits), so that the value read is `mantissa / 10^scale`.
pub uninterp spec fn spec_parse_decimal(s: Seq<char>) -> Option<(i128, u32)>;

/// Relies on rust_decimal: `Decimal::from_str_radix` (radix 10) parses a
/// decimal literal, and `Decimal::mantissa` and `Decimal::scale` decompose
/// the parsed value into `mantissa / 10^scale`. The mantissa is carried in
/// 96 bits, so its magnitude stays below `2^96`.
#[verifier::external_body]
fn parse_decimal_str(s: &str) -> (r: Option<(i128, u32)>)
    ensures
        r == spec_parse_decimal(s@),
        r matches Some(p) ==> -79228162514264337593543950336i128 < p.0
            < 79228162514264337593543950336i128,
{
    match rust_decimal::Decimal::from_str_radix(s, 10) {
        Ok(d) => Some((d.mantissa(), d.scale())),
        Err(_) => None,
    }
}

/// The factor that carries a mantissa with `scale` fractional digits down
/// to four fractional digits: `10^(4 - scale)` (meaningful for scales up
/// to four).
pub open spec fn spec_rescale_factor(scale: u32) -> int {
    if scale == 0 {
        10000
    } else if scale == 1 {
        1000
    } else if scale == 2 {
        100
    } else if scale == 3 {
        10
    } else {
        1
    }
}

/// What reading an amount literal yields: the count of ten-thousandths,
/// or `DecimalFormatError` when the string is not a decimal literal, has
/// more than four fractional digits, or lies beyond the representable
/// range.
pub open spec fn spec_to_decimal(s: Seq<char>) -> Result<i128, TxError> {
    match spec_parse_decimal(s) {
        Option::None => Err(TxError::DecimalFormatError),
        Option::Some(p) => {
            if p.1 > MAX_SCALE {
                Err(TxError::DecimalFormatError)
            } else {
                let units = p.0 * spec_rescale_factor(p.1);
                if units < -(AMOUNT_LIMIT as int) || units > AMOUNT_LIMIT as int {
                    Err(TxError::DecimalFormatError)
                } else {
                    Ok(units as i128)
                }
            }
        },
    }
}

/// Reads an amount literal into a count of ten-thousandths. Fails with
/// `DecimalFormatError` when the string is malformed, carries more than
/// four fractional digits, or lies beyond the representable range.
pub fn to_decimal(n: &str) -> (r: Result<i128, TxError>)
    ensures
        r == spec_to_decimal(n@),
        r matches Ok(u) ==> -(AMOUNT_LIMIT as i128) <= u <= AMOUNT_LIMIT as i128,
{
    match parse_decimal_str(n) {
        Option::None => Err(TxError::DecimalFormatError),
        Option::Some((m, scale)) => {
            if scale > MAX_SCALE {
                Err(TxError::DecimalFormatError)
            } else {
                let factor: i128 = if scale == 0 {
                    10000
                } else if scale == 1 {
                    1000
                } else if scale == 2 {
                    100
                } else if scale == 3 {
                    10
                } else {
                    1
                };
                let units: i128 = m * factor;
                if units < -(AMOUNT_LIMIT as i128) || units > AMOUNT_LIMIT as i128 {
                    Err(TxError::DecimalFormatError)
                } else {
                    Ok(units)
                }
            }
        },
    }
}

/// Whether an amount is acceptable for a balance operation: strictly
/// positive counts pass, zero and negative ones fail `AmountNotPositive`.
pub open spec fn spec_check_amount(units: i128) -> Result<(), TxError> {
    if units <= 0 {
        Err(TxError::AmountNotPositive)
    } else {
        Ok(())
    }
}

/// Rejects amounts that are zero or negative.
pub fn check_amount(units: i128) -> (r: Result<(), TxError>)
    ensures
        r == spec_check_amount(units),
{
    if units <= 0 {
        Err(TxError::AmountNotPositive)
    } else {
        Ok(())
    }
}

} // verus!
