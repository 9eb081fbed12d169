use vstd::prelude::*;
use vstd::std_specs::cmp::PartialEqSpecImpl;
use crate::decimal::same_value;

verus! {

/// Largest magnitude of a mantissa: 2^96 - 1.
pub const MAX_MANTISSA: i128 = 79_228_162_514_264_337_593_543_950_335;

/// Largest number of fractional digits.
pub const MAX_SCALE: u32 = 28;

/// Ten to the power `n`.
pub open spec fn pow10(n: nat) -> nat
    decreases n,
{
    if n == 0 {
        1
    } else {
        10 * pow10((n - 1) as nat)
    }
}

/// An exact decimal number `mantissa / 10^scale`.
///
/// The mantissa fits in 96 bits and the scale is at most 28, so every amount is a
/// whole multiple of `10^-28`. Two amounts of different scale can stand for the
/// same number (`1.5` and `1.50`); `==` compares the numbers, not the digits.
#[derive(Clone, Copy, Debug)]
pub struct Amount {
    pub(crate) mantissa: i128,
    pub(crate) scale: u32,
}

impl Amount {
    /// Whether 96 bits hold the mantissa and the scale is at most 28. Every amount that
    /// a program holds is in range.
    #[verifier::type_invariant]
    pub closed spec fn in_range(self) -> bool {
        -MAX_MANTISSA <= self.mantissa <= MAX_MANTISSA && self.scale <= MAX_SCALE
    }

    /// The integer whose digits the amount holds.
    pub closed spec fn mantissa_of(self) -> int {
        self.mantissa as int
    }

    /// The number of those digits that stand behind the decimal point.
    pub closed spec fn scale_of(self) -> nat {
        self.scale as nat
    }

    /// The amount with the given mantissa and scale.
    pub closed spec fn of(mantissa: int, scale: nat) -> Amount {
        Amount { mantissa: mantissa as i128, scale: scale as u32 }
    }

    /// The number the amount stands for, counted in units of `10^-28`.
    pub open spec fn units(self) -> int {
        self.mantissa_of() * pow10((MAX_SCALE - self.scale_of()) as nat)
    }

    /// The amount zero, with no fractional digits.
    pub open spec fn zero_amount() -> Amount {
        Amount::of(0, 0)
    }

    /// The amount `mantissa / 10^scale`, if a mantissa of 96 bits and a scale of at
    /// most 28 can hold it.
    pub fn new(mantissa: i128, scale: u32) -> (r: Option<Amount>)
        ensures
            r is Some <==> -MAX_MANTISSA <= mantissa <= MAX_MANTISSA && scale <= MAX_SCALE,
            r is Some ==> r->0 == Amount::of(mantissa as int, scale as nat),
    {
        if -MAX_MANTISSA <= mantissa && mantissa <= MAX_MANTISSA && scale <= MAX_SCALE {
            Some(Amount { mantissa, scale })
        } else {
            None
        }
    }

    /// The amount zero.
    pub fn zero() -> (r: Amount)
        ensures
            r == Amount::zero_amount(),
    {
        Amount { mantissa: 0, scale: 0 }
    }

    /// The integer whose digits the amount holds.
    pub fn mantissa(&self) -> (r: i128)
        ensures
            r == self.mantissa_of(),
    {
        self.mantissa
    }

    /// The number of digits behind the decimal point.
    pub fn scale(&self) -> (r: u32)
        ensures
            r == self.scale_of(),
    {
        self.scale
    }
}

impl Default for Amount {
    fn default() -> (r: Amount)
        ensures
            r == Amount::zero_amount(),
    {
        Amount::zero()
    }
}

impl PartialEq for Amount {
    fn eq(&self, other: &Amount) -> (r: bool) {
        same_value(*self, *other)
    }
}

impl PartialEqSpecImpl for Amount {
    open spec fn obeys_eq_spec() -> bool {
        true
    }

    open spec fn eq_spec(&self, other: &Amount) -> bool {
        self.units() == other.units()
    }
}

/// The amount made of a mantissa and a scale in range has that mantissa and that
/// scale, and is in range.
pub proof fn amount_of_holds_its_parts(mantissa: int, scale: nat)
    requires
        -MAX_MANTISSA <= mantissa <= MAX_MANTISSA,
        scale <= MAX_SCALE,
    ensures
        Amount::of(mantissa, scale).mantissa_of() == mantissa,
        Amount::of(mantissa, scale).scale_of() == scale,
        Amount::of(mantissa, scale).in_range(),
{
}

/// An amount that is in range holds a mantissa of at most 96 bits and a scale of at
/// most 28.
pub proof fn amount_in_range(a: Amount)
    requires
        a.in_range(),
    ensures
        -MAX_MANTISSA <= a.mantissa_of() <= MAX_MANTISSA,
        a.scale_of() <= MAX_SCALE,
        a == Amount::of(a.mantissa_of(), a.scale_of()),
{
}

/// Powers of ten grow with the exponent.
pub proof fn pow10_grows(low: nat, high: nat)
    requires
        low <= high,
    ensures
        0 < pow10(low) <= pow10(high),
    decreases high,
{
    if low < high {
        pow10_grows(low, (high - 1) as nat);
    } else if low > 0 {
        pow10_grows((low - 1) as nat, (low - 1) as nat);
    }
}

} // verus!
