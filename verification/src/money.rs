//! Money amounts as exact decimals: an integer mantissa scaled by a power of ten.
use vstd::prelude::*;

verus! {

/// A decimal amount `mantissa / 10^scale`, in the range that rust_decimal's `Decimal` holds.
#[derive(Clone, Copy, Debug, PartialEq, Eq, Structural)]
pub struct Amount {
    pub mantissa: i128,
    pub scale: u32,
}

/// Largest mantissa magnitude of a `Decimal` (96 bits).
pub const MAX_MANTISSA: i128 = 0xFFFF_FFFF_FFFF_FFFF_FFFF_FFFFi128;

/// Largest scale of a `Decimal`.
pub const MAX_SCALE: u32 = 28;

impl Amount {
    /// The amount is one that a `Decimal` can hold.
    pub open spec fn wf(self) -> bool {
        -MAX_MANTISSA <= self.mantissa <= MAX_MANTISSA && self.scale <= MAX_SCALE
    }

    /// Zero, as `Decimal::default()` gives it.
    pub fn zero() -> (r: Amount)
        ensures
            r == (Amount { mantissa: 0, scale: 0 }),
            r.wf(),
    {
        Amount { mantissa: 0, scale: 0 }
    }

    /// The whole number `n`.
    pub fn whole(n: i64) -> (r: Amount)
        ensures
            r == (Amount { mantissa: n as i128, scale: 0 }),
            r.wf(),
    {
        Amount { mantissa: n as i128, scale: 0 }
    }
}

/// `10^n`.
pub open spec fn pow10(n: nat) -> int
    decreases n,
{
    if n == 0 { 1 } else { 10 * pow10((n - 1) as nat) }
}

/// The larger of the scales of `a` and `b`.
pub open spec fn common_scale(a: Amount, b: Amount) -> nat {
    if a.scale >= b.scale { a.scale as nat } else { b.scale as nat }
}

/// The mantissa of the exact difference `a - b` at their common (larger) scale.
pub open spec fn exact_difference(a: Amount, b: Amount) -> int {
    let s = common_scale(a, b);
    a.mantissa * pow10((s - a.scale) as nat) - b.mantissa * pow10((s - b.scale) as nat)
}

/// The exact difference of `a` and `b` fits in 96 bits at their common scale.
pub open spec fn fits_exactly(a: Amount, b: Amount) -> bool {
    -MAX_MANTISSA <= exact_difference(a, b) <= MAX_MANTISSA
}

/// `d` is the exact difference of `a` and `b`, at their common scale or a smaller one.
pub open spec fn exact_result(a: Amount, b: Amount, d: Amount) -> bool {
    &&& d.scale <= common_scale(a, b)
    &&& d.mantissa * pow10((common_scale(a, b) - d.scale) as nat) == exact_difference(a, b)
}

/// What rust_decimal's `Decimal::checked_sub` returns for `a - b`, each decimal given by its
/// mantissa and scale: `None` on overflow, else the mantissa and scale of the difference.
pub uninterp spec fn decimal_sub(a: Amount, b: Amount) -> Option<Amount>;

/// `a - b` (rust_decimal's `Decimal::checked_sub`). The result, named by `decimal_sub`, is a
/// well-formed amount when there is one. When the exact difference fits in 96 bits at the larger
/// of the two scales, the result is that difference: its value is exact, at that scale or (when
/// an operand is zero) at the other operand's smaller one. When it does not fit, the crate
/// rounds to a smaller scale or reports overflow; that rule is given by its source only as code,
/// and the contract leaves it to the name.
#[verifier::external_body]
pub(crate) fn checked_sub(a: Amount, b: Amount) -> (r: Option<Amount>)
    requires
        a.wf(),
        b.wf(),
    ensures
        r == decimal_sub(a, b),
        r matches Some(d) ==> d.wf(),
        fits_exactly(a, b) ==> r is Some && exact_result(a, b, r.unwrap()),
{
    let x = rust_decimal::Decimal::from_i128_with_scale(a.mantissa, a.scale);
    let y = rust_decimal::Decimal::from_i128_with_scale(b.mantissa, b.scale);
    x.checked_sub(y).map(|d| Amount { mantissa: d.mantissa(), scale: d.scale() })
}

} // verus!
