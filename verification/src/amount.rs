//! Fixed-precision decimal amounts.
//!
//! An [`Amount`] is a signed mantissa of at most 96 bits and a scale between
//! 0 and 28: it stands for `mantissa / 10^scale`. The arithmetic itself is
//! `rust_decimal`'s; this module decides when its result is exact and hands
//! back nothing else.

use crate::decimal::{
    decimal_checked_add, decimal_checked_sub, decimal_difference, decimal_equal, decimal_less,
    decimal_sum,
};
use vstd::prelude::*;

verus! {

/// The largest magnitude a mantissa may have: `2^96 - 1`.
pub const MAX_MANTISSA: i128 = 79_228_162_514_264_337_593_543_950_335;

/// The largest scale: an amount has at most 28 digits after the decimal point.
pub const MAX_SCALE: u32 = 28;

/// `10^n`.
pub open spec fn pow10(n: nat) -> int
    decreases n,
{
    if n == 0 {
        1
    } else {
        10 * pow10((n - 1) as nat)
    }
}

/// `10^28`, written out.
pub proof fn lemma_pow10_max()
    ensures
        pow10(MAX_SCALE as nat) == 10_000_000_000_000_000_000_000_000_000int,
{
    reveal_with_fuel(pow10, 29);
}

/// `pow10` is positive and grows with its argument.
pub proof fn lemma_pow10_monotonic(m: nat, n: nat)
    requires
        m <= n,
    ensures
        1 <= pow10(m) <= pow10(n),
    decreases n,
{
    if n == 0 {
    } else if m == n {
        lemma_pow10_monotonic((m - 1) as nat, (n - 1) as nat);
    } else {
        lemma_pow10_monotonic(m, (n - 1) as nat);
    }
}

/// Zero is within the limits and stands for zero.
pub proof fn lemma_zero()
    ensures
        Amount::zero().wf(),
        Amount::zero().spec_mantissa() == 0,
        Amount::zero().spec_scale() == 0,
        Amount::zero().value() == 0,
{
}

/// Any amount can be added to zero.
pub proof fn lemma_zero_can_add(a: Amount)
    requires
        a.wf(),
    ensures
        Amount::zero().can_add(a),
{
    let s = Amount::zero().common_scale(a);
    assert(s == a.spec_scale());
    assert(Amount::zero().aligned(s) == 0);
    assert(a.aligned(s) == a.spec_mantissa()) by {
        assert(pow10(0) == 1);
    }
}

/// A decimal amount `mantissa / 10^scale`.
///
/// Two amounts may be written differently and stand for the same number
/// (`1.0` and `1.00`); `==` compares the numbers.
#[derive(Clone, Copy, Debug)]
pub struct Amount {
    pub(crate) mantissa: i128,
    pub(crate) scale: u32,
}

impl Amount {
    /// The mantissa, as a mathematical integer.
    pub closed spec fn spec_mantissa(self) -> int {
        self.mantissa as int
    }

    /// The number of digits after the decimal point.
    pub closed spec fn spec_scale(self) -> nat {
        self.scale as nat
    }

    /// The limits of the representation. Every amount that executable code
    /// holds is within them.
    #[verifier::type_invariant]
    pub open spec fn wf(self) -> bool {
        &&& -MAX_MANTISSA <= self.spec_mantissa() <= MAX_MANTISSA
        &&& self.spec_scale() <= MAX_SCALE
    }

    /// The number this amount stands for, counted in units of `10^-28`.
    pub open spec fn value(self) -> int {
        self.spec_mantissa() * pow10((MAX_SCALE - self.spec_scale()) as nat)
    }

    /// The mantissa this amount has when written with `scale` decimals,
    /// for a `scale` that is not below its own.
    pub open spec fn aligned(self, scale: nat) -> int {
        self.spec_mantissa() * pow10((scale - self.spec_scale()) as nat)
    }

    /// The larger of the two scales.
    pub open spec fn common_scale(self, other: Amount) -> nat {
        if self.spec_scale() >= other.spec_scale() {
            self.spec_scale()
        } else {
            other.spec_scale()
        }
    }

    /// Whether `self + other`, written at the larger of the two scales, has a
    /// mantissa within 96 bits.
    pub open spec fn spec_can_add(self, other: Amount) -> bool {
        let s = self.common_scale(other);
        -MAX_MANTISSA <= self.aligned(s) + other.aligned(s) <= MAX_MANTISSA
    }

    /// Whether `self - other`, written at the larger of the two scales, has a
    /// mantissa within 96 bits.
    pub open spec fn spec_can_sub(self, other: Amount) -> bool {
        let s = self.common_scale(other);
        -MAX_MANTISSA <= self.aligned(s) - other.aligned(s) <= MAX_MANTISSA
    }

    /// The amount that `checked_add` computes where `spec_can_add` holds.
    pub open spec fn plus(self, other: Amount) -> Amount {
        decimal_sum(self, other)->0
    }

    /// The amount that `checked_sub` computes where `spec_can_sub` holds.
    pub open spec fn minus(self, other: Amount) -> Amount {
        decimal_difference(self, other)->0
    }

    /// Whether `plus` names an amount that stands for exactly
    /// `self + other`. `checked_add` shows this wherever it succeeds.
    pub open spec fn plus_is_exact(self, other: Amount) -> bool {
        &&& self.plus(other).wf()
        &&& self.plus(other).value() == self.value() + other.value()
    }

    /// Whether `minus` names an amount that stands for exactly
    /// `self - other`. `checked_sub` shows this wherever it succeeds.
    pub open spec fn minus_is_exact(self, other: Amount) -> bool {
        &&& self.minus(other).wf()
        &&& self.minus(other).value() == self.value() - other.value()
    }

    /// The amount `num / 10^scale`.
    pub fn new(num: i64, scale: u32) -> (r: Amount)
        requires
            scale <= MAX_SCALE,
        ensures
            r.spec_mantissa() == num,
            r.spec_scale() == scale,
    {
        Amount { mantissa: num as i128, scale }
    }

    /// The amount `mantissa / 10^scale`, if the two are within the limits of
    /// the representation.
    pub fn from_parts(mantissa: i128, scale: u32) -> (r: Option<Amount>)
        ensures
            r is Some <==> -MAX_MANTISSA <= mantissa <= MAX_MANTISSA && scale <= MAX_SCALE,
            r matches Some(a) ==> a.spec_mantissa() == mantissa && a.spec_scale() == scale,
    {
        if -MAX_MANTISSA <= mantissa && mantissa <= MAX_MANTISSA && scale <= MAX_SCALE {
            Some(Amount { mantissa, scale })
        } else {
            None
        }
    }

    /// Zero, written without decimals.
    pub closed spec fn spec_zero() -> Amount {
        Amount { mantissa: 0, scale: 0 }
    }

    /// Zero, written without decimals.
    #[verifier::when_used_as_spec(spec_zero)]
    pub fn zero() -> (r: Amount)
        ensures
            r == Amount::spec_zero(),
            r.spec_mantissa() == 0,
            r.spec_scale() == 0,
            r.value() == 0,
    {
        Amount { mantissa: 0, scale: 0 }
    }

    /// The mantissa: the amount without its decimal point.
    pub fn mantissa(&self) -> (r: i128)
        ensures
            r == self.spec_mantissa(),
    {
        self.mantissa
    }

    /// The number of digits after the decimal point.
    pub fn scale(&self) -> (r: u32)
        ensures
            r == self.spec_scale(),
    {
        self.scale
    }

    /// The mantissa at `scale`, unless it leaves the range of `i128`.
    fn align(self, scale: u32) -> (r: Option<i128>)
        requires
            self.spec_scale() <= scale <= MAX_SCALE,
        ensures
            match r {
                Some(m) => m == self.aligned(scale as nat),
                None => self.aligned(scale as nat) < i128::MIN || self.aligned(scale as nat)
                    > i128::MAX,
            },
    {
        let factor = power_of_ten(scale - self.scale);
        self.mantissa.checked_mul(factor)
    }

    /// Whether `self + other` is exact at the larger of the two scales.
    #[verifier::when_used_as_spec(spec_can_add)]
    pub fn can_add(self, other: Amount) -> (r: bool)
        ensures
            r == self.spec_can_add(other),
    {
        proof {
            use_type_invariant(&self);
            use_type_invariant(&other);
        }
        let scale = if self.scale >= other.scale {
            self.scale
        } else {
            other.scale
        };
        let x = self.align(scale);
        let y = other.align(scale);
        match (x, y) {
            (Some(x), Some(y)) => match x.checked_add(y) {
                Some(sum) => -MAX_MANTISSA <= sum && sum <= MAX_MANTISSA,
                None => false,
            },
            _ => false,
        }
    }

    /// Whether `self - other` is exact at the larger of the two scales.
    #[verifier::when_used_as_spec(spec_can_sub)]
    pub fn can_sub(self, other: Amount) -> (r: bool)
        ensures
            r == self.spec_can_sub(other),
    {
        proof {
            use_type_invariant(&self);
            use_type_invariant(&other);
        }
        let scale = if self.scale >= other.scale {
            self.scale
        } else {
            other.scale
        };
        let x = self.align(scale);
        let y = other.align(scale);
        match (x, y) {
            (Some(x), Some(y)) => match x.checked_sub(y) {
                Some(difference) => -MAX_MANTISSA <= difference && difference <= MAX_MANTISSA,
                None => false,
            },
            _ => false,
        }
    }

    /// `self + other`, where that is exact at the larger of the two scales.
    pub fn checked_add(self, other: Amount) -> (r: Option<Amount>)
        ensures
            r is Some <==> self.can_add(other),
            r matches Some(sum) ==> sum == self.plus(other) && sum.value() == self.value()
                + other.value(),
            self.can_add(other) ==> self.plus_is_exact(other),
    {
        proof {
            use_type_invariant(&self);
            use_type_invariant(&other);
        }
        if self.can_add(other) {
            decimal_checked_add(self, other)
        } else {
            None
        }
    }

    /// `self - other`, where that is exact at the larger of the two scales.
    pub fn checked_sub(self, other: Amount) -> (r: Option<Amount>)
        ensures
            r is Some <==> self.can_sub(other),
            r matches Some(difference) ==> difference == self.minus(other) && difference.value()
                == self.value() - other.value(),
            self.can_sub(other) ==> self.minus_is_exact(other),
    {
        proof {
            use_type_invariant(&self);
            use_type_invariant(&other);
        }
        if self.can_sub(other) {
            decimal_checked_sub(self, other)
        } else {
            None
        }
    }

    /// Whether `self` stands for a smaller number than `other`.
    pub fn less_than(self, other: Amount) -> (r: bool)
        ensures
            r == (self.value() < other.value()),
    {
        proof {
            use_type_invariant(&self);
            use_type_invariant(&other);
        }
        decimal_less(self, other)
    }
}

/// `10^n` for a scale `n`.
fn power_of_ten(n: u32) -> (r: i128)
    requires
        n <= MAX_SCALE,
    ensures
        r == pow10(n as nat),
{
    let mut r: i128 = 1;
    let mut i: u32 = 0;
    while i < n
        invariant
            i <= n <= MAX_SCALE,
            r == pow10(i as nat),
        decreases n - i,
    {
        proof {
            lemma_pow10_monotonic((i + 1) as nat, MAX_SCALE as nat);
            lemma_pow10_max();
        }
        r = r * 10;
        i = i + 1;
    }
    r
}

impl PartialEq for Amount {
    fn eq(&self, other: &Amount) -> (r: bool) {
        proof {
            use_type_invariant(self);
            use_type_invariant(other);
        }
        decimal_equal(*self, *other)
    }
}

impl vstd::std_specs::cmp::PartialEqSpecImpl for Amount {
    open spec fn obeys_eq_spec() -> bool {
        true
    }

    open spec fn eq_spec(&self, other: &Amount) -> bool {
        self.value() == other.value()
    }
}

} // verus!
