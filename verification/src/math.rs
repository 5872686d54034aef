//! Fixed-point percentages and the arithmetic on amounts.

use vstd::prelude::*;

verus! {

/// Number of atomic units in `1.0`: a [`Decimal`] has 18 fractional digits.
pub const DECIMAL_FRACTIONAL: u128 = 1_000_000_000_000_000_000;

/// A non-negative fixed-point number, held as its count of atomic units.
/// `Decimal(DECIMAL_FRACTIONAL)` is `1.0`.
#[derive(Clone, Copy, Debug, PartialEq, Eq, Structural)]
pub struct Decimal(pub u128);

impl Decimal {
    pub fn zero() -> (d: Decimal)
        ensures
            d.0 == 0,
    {
        Decimal(0)
    }

    pub fn one() -> (d: Decimal)
        ensures
            d.0 == DECIMAL_FRACTIONAL,
    {
        Decimal(DECIMAL_FRACTIONAL)
    }

    /// `percent(x)` is `x / 100`.
    pub fn percent(x: u64) -> (d: Decimal)
        ensures
            d.0 == x * (DECIMAL_FRACTIONAL / 100),
    {
        let x_wide: u128 = x as u128;
        Decimal(x_wide * 10_000_000_000_000_000)
    }

    pub open spec fn spec_is_zero(&self) -> bool {
        self.0 == 0
    }

    #[verifier::when_used_as_spec(spec_is_zero)]
    pub fn is_zero(&self) -> (b: bool)
        ensures
            b == (self.0 == 0),
    {
        self.0 == 0
    }

    pub fn atomics(&self) -> (a: u128)
        ensures
            a == self.0,
    {
        self.0
    }

    /// Whether the number lies in `[0, 1)`.
    pub open spec fn below_one(&self) -> bool {
        self.0 < DECIMAL_FRACTIONAL
    }
}

/// `floor(amount * ratio)` as a mathematical integer.
pub open spec fn mul_floor(amount: u128, ratio: Decimal) -> nat {
    (amount as nat * ratio.0 as nat) / (DECIMAL_FRACTIONAL as nat)
}

/// A ratio below one never yields more than the amount it is applied to.
pub proof fn lemma_mul_floor_bounded(amount: u128, ratio: Decimal)
    requires
        ratio.0 <= DECIMAL_FRACTIONAL,
    ensures
        mul_floor(amount, ratio) <= amount,
{
    let a = amount as nat;
    let r = ratio.0 as nat;
    let d = DECIMAL_FRACTIONAL as nat;
    assert(a * r <= a * d) by (nonlinear_arith)
        requires
            r <= d,
    ;
    assert((a * r) / d <= a) by (nonlinear_arith)
        requires
            a * r <= a * d,
            d > 0,
    ;
}

/// Multiplies an amount by a ratio and rounds down.
///
/// Calls `Uint128 * Decimal` of `cosmwasm_std`, which computes
/// `amount * atomics / 10^18` on 256-bit integers and panics when the result
/// does not fit 128 bits; the precondition keeps such inputs out.
#[verifier::external_body]
pub(crate) fn mul_floor_exec(amount: u128, ratio: Decimal) -> (r: u128)
    requires
        mul_floor(amount, ratio) <= u128::MAX,
    ensures
        r == mul_floor(amount, ratio),
{
    (cosmwasm_std::Uint128::new(amount) * cosmwasm_std::Decimal::raw(ratio.0)).u128()
}

/// The text that `cosmwasm_std` writes for the decimal with the given count
/// of atomic units.
pub uninterp spec fn decimal_text(atomics: u128) -> Seq<char>;

/// Writes a decimal as text.
///
/// Calls `Decimal::to_string` of `cosmwasm_std`; the text depends on the
/// number alone.
#[verifier::external_body]
pub(crate) fn decimal_to_string(value: Decimal) -> (text: String)
    ensures
        text@ == decimal_text(value.0),
{
    cosmwasm_std::Decimal::raw(value.0).to_string()
}

/// The signed 64-bit integer with the same bits as `tick`.
pub open spec fn tick_bits(tick: u64) -> int {
    if tick <= i64::MAX as u64 {
        tick as int
    } else {
        tick as int - 0x1_0000_0000_0000_0000
    }
}

/// Reinterprets an unsigned tick as the signed tick the venue expects.
pub fn tick_to_signed(tick: u64) -> (r: i64)
    ensures
        r as int == tick_bits(tick),
{
    if tick <= 0x7fff_ffff_ffff_ffff {
        tick as i64
    } else {
        let low: u64 = tick - 0x8000_0000_0000_0000;
        let low_signed: i64 = low as i64;
        low_signed + i64::MIN
    }
}

} // verus!
