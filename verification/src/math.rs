//! Decimal-rescaling arithmetic of the converter.
//!
//! An amount held with one number of fractional digits is re-expressed with
//! another: scaling up multiplies by a power of ten, scaling down divides by
//! one, truncating toward zero.  A truncating step whose quotient is zero is
//! rejected rather than returned, and an overflowing scaling step is rejected
//! rather than wrapped.

use vstd::arithmetic::div_mod::{lemma_div_multiples_vanish, lemma_fundamental_div_mod};
use vstd::prelude::*;

verus! {

/// The converter's error kinds.
#[derive(Clone, Copy, Debug, PartialEq, Eq, Structural)]
pub enum ConverterError {
    /// The caller fails an identity check.
    Unauthorized,
    /// The operation needs a registration field that is still unset.
    ConfigIncomplete,
    /// The attached funds have the wrong count, denomination or amount.
    InvalidFunds,
    /// A truncating division step would yield zero; amounts below `factor`
    /// cannot be represented in the target asset.
    AmountTooSmall { factor: u128 },
    /// A scaling multiplication would exceed the 128-bit range.
    ArithmeticOverflow,
    /// The ledger callback payload is not a recognized request.
    MalformedPayload,
}

/// `base` raised to `exp`, as a mathematical integer.
pub open spec fn spec_pow(base: nat, exp: nat) -> nat
    decreases exp,
{
    if exp == 0 {
        1
    } else {
        base * spec_pow(base, (exp - 1) as nat)
    }
}

/// `base` raised to `exp`, saturating at `u128::MAX`.
pub open spec fn spec_sat_pow(base: nat, exp: nat) -> u128 {
    if spec_pow(base, exp) > u128::MAX {
        u128::MAX
    } else {
        spec_pow(base, exp) as u128
    }
}

/// The saturating power of ten used as the scaling factor between two
/// precisions that differ by `exp` digits.
pub open spec fn pow10_sat(exp: nat) -> u128 {
    spec_sat_pow(10, exp)
}

/// Scaling an amount up by `exp` digits multiplies by the factor; an
/// overflowing product is a fatal arithmetic error.
pub open spec fn spec_scale_up(amount: u128, exp: nat) -> Result<u128, ConverterError> {
    let factor = pow10_sat(exp);
    if amount * factor > u128::MAX {
        Err(ConverterError::ArithmeticOverflow)
    } else {
        Ok((amount * factor) as u128)
    }
}

/// Scaling an amount down by `exp` digits divides by the factor, truncating
/// toward zero; a zero quotient is rejected as too small to represent one
/// unit of the target asset.
pub open spec fn spec_scale_down(amount: u128, exp: nat) -> Result<u128, ConverterError> {
    let factor = pow10_sat(exp);
    if amount / factor == 0 {
        Err(ConverterError::AmountTooSmall { factor })
    } else {
        Ok((amount / factor) as u128)
    }
}

/// What rescaling an amount from `from_decimals` to `to_decimals` yields.
pub open spec fn spec_rescale(amount: u128, from_decimals: u8, to_decimals: u8) -> Result<
    u128,
    ConverterError,
> {
    if from_decimals > to_decimals {
        spec_scale_down(amount, (from_decimals - to_decimals) as nat)
    } else {
        spec_scale_up(amount, (to_decimals - from_decimals) as nat)
    }
}

/// The native-to-basset convention: a basset precision strictly above the
/// native one scales up; otherwise the amount scales down, equal precisions
/// included.
pub open spec fn spec_to_basset(amount: u128, basset_decimals: u8, denom_decimals: u8) -> Result<
    u128,
    ConverterError,
> {
    if basset_decimals > denom_decimals {
        spec_scale_up(amount, (basset_decimals - denom_decimals) as nat)
    } else {
        spec_scale_down(amount, (denom_decimals - basset_decimals) as nat)
    }
}

proof fn lemma_pow_pos(base: nat, exp: nat)
    requires
        base > 0,
    ensures
        spec_pow(base, exp) > 0,
    decreases exp,
{
    if exp > 0 {
        lemma_pow_pos(base, (exp - 1) as nat);
        assert(base * spec_pow(base, (exp - 1) as nat) > 0) by (nonlinear_arith)
            requires
                base > 0,
                spec_pow(base, (exp - 1) as nat) > 0,
        ;
    }
}

/// The scaling factor is never zero, whatever the difference in precision.
pub proof fn lemma_pow10_sat_pos(exp: nat)
    ensures
        pow10_sat(exp) >= 1,
{
    lemma_pow_pos(10, exp);
}

/// Relies on `cosmwasm_std::Uint128::saturating_pow`: the power
/// `base^exp`, saturating at the 128-bit maximum instead of overflowing.
#[verifier::external_body]
fn uint128_saturating_pow(base: u128, exp: u32) -> (r: u128)
    ensures
        r == spec_sat_pow(base as nat, exp as nat),
{
    cosmwasm_std::Uint128::new(base).saturating_pow(exp).u128()
}

/// Relies on `cosmwasm_std::Uint128::checked_mul`: the product when it fits
/// in 128 bits, and an overflow error otherwise.
#[verifier::external_body]
fn uint128_checked_mul(a: u128, b: u128) -> (r: Option<u128>)
    ensures
        a * b <= u128::MAX ==> r == Some((a * b) as u128),
        a * b > u128::MAX ==> r is None,
{
    cosmwasm_std::Uint128::new(a).checked_mul(cosmwasm_std::Uint128::new(b)).ok().map(|v| v.u128())
}

/// Relies on `cosmwasm_std::Uint128::checked_div`: the quotient truncated
/// toward zero, and an error only for a zero divisor.
#[verifier::external_body]
fn uint128_checked_div(a: u128, b: u128) -> (r: Option<u128>)
    ensures
        b != 0 ==> r == Some((a as nat / b as nat) as u128),
        b == 0 ==> r is None,
{
    cosmwasm_std::Uint128::new(a).checked_div(cosmwasm_std::Uint128::new(b)).ok().map(|v| v.u128())
}

fn scale_up(amount: u128, exp: u32) -> (r: Result<u128, ConverterError>)
    ensures
        r == spec_scale_up(amount, exp as nat),
{
    let factor = uint128_saturating_pow(10, exp);
    match uint128_checked_mul(amount, factor) {
        Some(p) => Ok(p),
        None => Err(ConverterError::ArithmeticOverflow),
    }
}

fn scale_down(amount: u128, exp: u32) -> (r: Result<u128, ConverterError>)
    ensures
        r == spec_scale_down(amount, exp as nat),
{
    let factor = uint128_saturating_pow(10, exp);
    proof {
        lemma_pow10_sat_pos(exp as nat);
    }
    match uint128_checked_div(amount, factor) {
        Some(q) => {
            if q == 0 {
                Err(ConverterError::AmountTooSmall { factor })
            } else {
                Ok(q)
            }
        },
        None => {
            proof {
                assert(false);
            }
            Err(ConverterError::ArithmeticOverflow)
        },
    }
}

/// Rescales `amount` from `from_decimals` fractional digits to
/// `to_decimals` fractional digits, per `spec_rescale`.
pub fn rescale(amount: u128, from_decimals: u8, to_decimals: u8) -> (r: Result<
    u128,
    ConverterError,
>)
    ensures
        r == spec_rescale(amount, from_decimals, to_decimals),
{
    if from_decimals > to_decimals {
        scale_down(amount, (from_decimals - to_decimals) as u32)
    } else {
        scale_up(amount, (to_decimals - from_decimals) as u32)
    }
}

/// Converts a basset amount into native units: the basset-to-native
/// direction of `spec_rescale`.
pub fn convert_to_denom_decimals(amount: u128, basset_decimals: u8, denom_decimals: u8) -> (r:
    Result<u128, ConverterError>)
    ensures
        r == spec_rescale(amount, basset_decimals, denom_decimals),
{
    rescale(amount, basset_decimals, denom_decimals)
}

/// Converts a native amount into basset units, with the mirrored convention
/// of `spec_to_basset`.
pub fn convert_to_basset_decimals(amount: u128, basset_decimals: u8, denom_decimals: u8) -> (r:
    Result<u128, ConverterError>)
    ensures
        r == spec_to_basset(amount, basset_decimals, denom_decimals),
{
    if basset_decimals > denom_decimals {
        scale_up(amount, (basset_decimals - denom_decimals) as u32)
    } else {
        scale_down(amount, (denom_decimals - basset_decimals) as u32)
    }
}

/// Rescaling between equal precisions is the identity: the scaling factor is
/// one and the product is the amount itself.
pub proof fn lemma_rescale_identity(amount: u128, decimals: u8)
    ensures
        spec_rescale(amount, decimals, decimals) == Ok::<u128, ConverterError>(amount),
{
    assert(spec_pow(10, 0) == 1);
    vstd::arithmetic::mul::lemma_mul_basics(amount as int);
    assert(amount * pow10_sat(0) == amount);
}

/// A round trip through another precision never gains value: rescaling back
/// yields at most the original amount, and exactly the original amount
/// whenever the outward step truncated nothing (equal precisions, a scaling
/// step up, or a divisor that divides the amount evenly).
pub proof fn lemma_rescale_round_trip(a: u128, d1: u8, d2: u8, b: u128, c: u128)
    requires
        spec_rescale(a, d1, d2) == Ok::<u128, ConverterError>(b),
        spec_rescale(b, d2, d1) == Ok::<u128, ConverterError>(c),
    ensures
        c <= a,
        d1 <= d2 ==> c == a,
        d1 > d2 && a % pow10_sat((d1 - d2) as nat) == 0 ==> c == a,
{
    if d1 < d2 {
        let f = pow10_sat((d2 - d1) as nat);
        lemma_pow10_sat_pos((d2 - d1) as nat);
        assert(b == a * f);
        lemma_div_multiples_vanish(a as int, f as int);
        assert(a as int * f as int == f as int * a as int) by (nonlinear_arith);
        assert(b as int / f as int == a as int);
        assert(c == a);
    } else if d1 == d2 {
        assert(spec_pow(10, 0) == 1);
        vstd::arithmetic::mul::lemma_mul_basics(a as int);
        vstd::arithmetic::mul::lemma_mul_basics(b as int);
        assert(b == a);
        assert(c == b);
    } else {
        let f = pow10_sat((d1 - d2) as nat);
        lemma_pow10_sat_pos((d1 - d2) as nat);
        assert(b == a / f);
        assert(c == b * f);
        lemma_fundamental_div_mod(a as int, f as int);
        assert(a as int == f as int * (a as int / f as int) + a as int % f as int);
        assert(b * f == f * b) by (nonlinear_arith);
        assert(c <= a);
        if a % f == 0 {
            assert(c == a);
        }
    }
}

/// A truncating step whose quotient is zero is rejected as `AmountTooSmall`;
/// a nonzero amount is never rescaled to a successful zero.
pub proof fn lemma_rescale_rejects_dust(a: u128, d1: u8, d2: u8)
    ensures
        d1 > d2 && a / pow10_sat((d1 - d2) as nat) == 0 ==> spec_rescale(a, d1, d2) == Err::<
            u128,
            ConverterError,
        >(ConverterError::AmountTooSmall { factor: pow10_sat((d1 - d2) as nat) }),
        a != 0 && spec_rescale(a, d1, d2) is Ok ==> spec_rescale(a, d1, d2)->Ok_0 != 0,
{
    if d1 <= d2 && a != 0 {
        let f = pow10_sat((d2 - d1) as nat);
        lemma_pow10_sat_pos((d2 - d1) as nat);
        assert(a * f >= 1) by (nonlinear_arith)
            requires
                a >= 1,
                f >= 1,
        ;
    }
    if d1 > d2 && a != 0 && spec_rescale(a, d1, d2) is Ok {
        let f = pow10_sat((d1 - d2) as nat);
        lemma_pow10_sat_pos((d1 - d2) as nat);
        vstd::arithmetic::div_mod::lemma_div_nonincreasing(a as int, f as int);
        assert(a as int / f as int <= a as int);
        assert(spec_rescale(a, d1, d2)->Ok_0 != 0);
    }
}

} // verus!
