use vstd::prelude::*;
use rust_decimal::Decimal;
use crate::amount::{pow10, Amount};

verus! {

/// What `Decimal::checked_add` returns for two amounts: `None` where the sum cannot
/// be held, else the sum, rounded where its digits do not fit.
pub uninterp spec fn decimal_sum(a: Amount, b: Amount) -> Option<Amount>;

/// What `Decimal::checked_sub` returns for two amounts: `None` where the difference
/// cannot be held, else the difference, rounded where its digits do not fit.
pub uninterp spec fn decimal_difference(a: Amount, b: Amount) -> Option<Amount>;

/// What `Decimal` prints for an amount when asked for `precision` fractional
/// digits.
pub uninterp spec fn decimal_text(a: Amount, precision: usize) -> Seq<char>;

/// `n / 10^digits`, rounded to the nearest whole number, and to the even one of the
/// two where it lies halfway between them.
pub open spec fn round_half_even(n: nat, digits: nat) -> nat {
    let unit = pow10(digits);
    let below = n / unit;
    let rest = n % unit;
    if 2 * rest > unit || (2 * rest == unit && below % 2 == 1) {
        below + 1
    } else {
        below
    }
}

/// The amount with at most `places` fractional digits: itself where it has no more,
/// else rounded half to even, whatever its sign.
pub open spec fn rounded(a: Amount, places: u32) -> Amount {
    let mantissa = a.mantissa_of();
    let scale = a.scale_of();
    if scale <= places {
        a
    } else if mantissa >= 0 {
        Amount::of(round_half_even(mantissa as nat, (scale - places) as nat) as int, places as nat)
    } else {
        Amount::of(
            -(round_half_even((-mantissa) as nat, (scale - places) as nat) as int),
            places as nat,
        )
    }
}

/// Whether `Decimal` can print the amount with `precision` fractional digits: it
/// does so into 32 characters, the sign apart, of which the point and the
/// fractional digits take `precision + 1`.
pub open spec fn printable(a: Amount, precision: usize) -> bool {
    &&& precision <= 28
    &&& -pow10((31 - precision + a.scale_of()) as nat) < a.mantissa_of() < pow10(
        (31 - precision + a.scale_of()) as nat,
    )
}

/// `rust_decimal::Decimal::checked_add` on two amounts. Trusted: the result is the
/// one that `decimal_sum` names, and nothing else is claimed of it.
#[verifier::external_body]
pub(crate) fn checked_add(a: Amount, b: Amount) -> (r: Option<Amount>)
    ensures
        r == decimal_sum(a, b),
{
    let x = Decimal::from_i128_with_scale(a.mantissa, a.scale);
    let y = Decimal::from_i128_with_scale(b.mantissa, b.scale);
    match x.checked_add(y) {
        Some(d) => Some(Amount { mantissa: d.mantissa(), scale: d.scale() }),
        None => None,
    }
}

/// `rust_decimal::Decimal::checked_sub` on two amounts. Trusted: the result is the
/// one that `decimal_difference` names, and nothing else is claimed of it.
#[verifier::external_body]
pub(crate) fn checked_sub(a: Amount, b: Amount) -> (r: Option<Amount>)
    ensures
        r == decimal_difference(a, b),
{
    let x = Decimal::from_i128_with_scale(a.mantissa, a.scale);
    let y = Decimal::from_i128_with_scale(b.mantissa, b.scale);
    match x.checked_sub(y) {
        Some(d) => Some(Amount { mantissa: d.mantissa(), scale: d.scale() }),
        None => None,
    }
}

/// `<` of `rust_decimal::Decimal` on two amounts. Trusted: it orders the numbers
/// that the amounts stand for, whatever their scales.
#[verifier::external_body]
pub(crate) fn less_than(a: Amount, b: Amount) -> (r: bool)
    ensures
        r == (a.units() < b.units()),
{
    let x = Decimal::from_i128_with_scale(a.mantissa, a.scale);
    let y = Decimal::from_i128_with_scale(b.mantissa, b.scale);
    x < y
}

/// `==` of `rust_decimal::Decimal` on two amounts. Trusted: it holds exactly where
/// the amounts stand for the same number, whatever their scales.
#[verifier::external_body]
pub(crate) fn same_value(a: Amount, b: Amount) -> (r: bool)
    ensures
        r == (a.units() == b.units()),
{
    let x = Decimal::from_i128_with_scale(a.mantissa, a.scale);
    let y = Decimal::from_i128_with_scale(b.mantissa, b.scale);
    x == y
}

/// `rust_decimal::Decimal::round_dp` on an amount. Trusted: an amount with no more
/// than `places` fractional digits comes back as it is; any other comes back with
/// `places` digits, rounded half to even.
#[verifier::external_body]
pub(crate) fn round_dp(a: Amount, places: u32) -> (r: Amount)
    ensures
        r == rounded(a, places),
{
    let d = Decimal::from_i128_with_scale(a.mantissa, a.scale).round_dp(places);
    Amount { mantissa: d.mantissa(), scale: d.scale() }
}

/// `Display` of `rust_decimal::Decimal` on an amount, with a precision. Trusted:
/// the text is the one that `decimal_text` names, and nothing else is claimed of
/// it. An amount that is not `printable` is left out: printing it panics.
#[verifier::external_body]
pub(crate) fn to_text(a: Amount, precision: usize) -> (text: String)
    requires
        printable(a, precision),
    ensures
        text@ == decimal_text(a, precision),
{
    format!("{:.*}", precision, Decimal::from_i128_with_scale(a.mantissa, a.scale))
}

} // verus!
