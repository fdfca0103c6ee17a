//! The decimal arithmetic that `rust_decimal` carries out for this library.
//!
//! Nothing in this file is proved. Each function turns its arguments into
//! `rust_decimal::Decimal` values with `Decimal::from_i128_with_scale`, which
//! panics outside the limits that `Amount::wf` states, makes one call, and
//! reads the result back with `Decimal::mantissa` and `Decimal::scale`. What
//! each contract says of the call is what that crate's documentation and
//! source show.

use crate::amount::Amount;
use rust_decimal::Decimal;
use vstd::prelude::*;

verus! {

/// What `Decimal::checked_add` returns for `a + b`.
pub uninterp spec fn decimal_sum(a: Amount, b: Amount) -> Option<Amount>;

/// What `Decimal::checked_sub` returns for `a - b`.
pub uninterp spec fn decimal_difference(a: Amount, b: Amount) -> Option<Amount>;

/// `Decimal::checked_add`: "Computes `self + other`, returning `None` if
/// overflow occurred."
///
/// The result depends on the two operands alone. Whatever comes back is a
/// decimal, so within the limits of the type. Where the sum of the two
/// mantissas, taken at the larger of the two scales, fits in 96 bits, the
/// addition succeeds and its result stands for exactly `a + b`: the
/// addition in `ops::add` hands back an operand unchanged where the other
/// is zero, else brings both to the larger scale and adds; it lowers the
/// scale and rounds, or reports an overflow, only where that sum needs more
/// than 96 bits. Nothing is claimed of the scale of the result.
#[verifier::external_body]
pub(crate) fn decimal_checked_add(a: Amount, b: Amount) -> (r: Option<Amount>)
    requires
        a.wf(),
        b.wf(),
    ensures
        r == decimal_sum(a, b),
        r matches Some(s) ==> s.wf(),
        a.spec_can_add(b) ==> r is Some && r->0.value() == a.value() + b.value(),
{
    let x = Decimal::from_i128_with_scale(a.mantissa, a.scale);
    let y = Decimal::from_i128_with_scale(b.mantissa, b.scale);
    match x.checked_add(y) {
        Some(d) => Some(Amount { mantissa: d.mantissa(), scale: d.scale() }),
        None => None,
    }
}

/// `Decimal::checked_sub`: "Computes `self - other`, returning `None` if
/// overflow occurred."
///
/// The result depends on the two operands alone. Whatever comes back is a
/// decimal, so within the limits of the type. Where the difference of the
/// two mantissas, taken at the larger of the two scales, fits in 96 bits,
/// the subtraction succeeds and its result stands for exactly `a - b`: it
/// is the addition of `ops::add` with the sign of `other` turned. Nothing
/// is claimed of the scale of the result.
#[verifier::external_body]
pub(crate) fn decimal_checked_sub(a: Amount, b: Amount) -> (r: Option<Amount>)
    requires
        a.wf(),
        b.wf(),
    ensures
        r == decimal_difference(a, b),
        r matches Some(s) ==> s.wf(),
        a.spec_can_sub(b) ==> r is Some && r->0.value() == a.value() - b.value(),
{
    let x = Decimal::from_i128_with_scale(a.mantissa, a.scale);
    let y = Decimal::from_i128_with_scale(b.mantissa, b.scale);
    match x.checked_sub(y) {
        Some(d) => Some(Amount { mantissa: d.mantissa(), scale: d.scale() }),
        None => None,
    }
}

/// `<` on `Decimal`, which goes by `Ord::cmp`: the order of the numbers
/// that the two decimals stand for, whatever their scales.
#[verifier::external_body]
pub(crate) fn decimal_less(a: Amount, b: Amount) -> (r: bool)
    requires
        a.wf(),
        b.wf(),
    ensures
        r == (a.value() < b.value()),
{
    let x = Decimal::from_i128_with_scale(a.mantissa, a.scale);
    let y = Decimal::from_i128_with_scale(b.mantissa, b.scale);
    x < y
}

/// `==` on `Decimal`, which goes by `Ord::cmp` unless the two are written
/// alike: whether the two decimals stand for the same number, whatever
/// their scales.
#[verifier::external_body]
pub(crate) fn decimal_equal(a: Amount, b: Amount) -> (r: bool)
    requires
        a.wf(),
        b.wf(),
    ensures
        r == (a.value() == b.value()),
{
    let x = Decimal::from_i128_with_scale(a.mantissa, a.scale);
    let y = Decimal::from_i128_with_scale(b.mantissa, b.scale);
    x == y
}

} // verus!
