//! Exact decimal amounts: a signed 96-bit mantissa and a count of fractional
//! digits, the same data that a `rust_decimal::Decimal` holds.

use rust_decimal::Decimal;
use vstd::arithmetic::power::{lemma_pow0, lemma_pow1, lemma_pow_adds, lemma_pow_positive, pow};
use vstd::prelude::*;

verus! {

/// The largest magnitude of a mantissa, `2^96 - 1`.
pub const MAX_MANTISSA: i128 = 79_228_162_514_264_337_593_543_950_335;

/// The largest number of fractional digits.
pub const MAX_SCALE: u32 = 28;

/// Ten to the power `n`.
pub open spec fn pow10(n: nat) -> int {
    pow(10, n)
}

/// Whether `m` is a mantissa that 96 bits and a sign can hold.
pub open spec fn is_mantissa(m: int) -> bool {
    -MAX_MANTISSA <= m <= MAX_MANTISSA
}

/// The decimal number `mantissa / 10^scale`.
#[derive(Clone, Copy, Debug, PartialEq, Eq)]
pub struct Amount {
    pub mantissa: i128,
    pub scale: u32,
}

impl Amount {
    /// The mantissa and the scale are within the limits of the decimal type.
    pub open spec fn wf(self) -> bool {
        self.scale <= MAX_SCALE && is_mantissa(self.mantissa as int)
    }

    /// The number that the amount stands for, counted in units of `10^-28`.
    pub open spec fn value(self) -> int {
        self.mantissa * pow10((MAX_SCALE - self.scale) as nat)
    }

    /// The mantissa that the same number has with `scale` fractional digits,
    /// for a `scale` that is no smaller than the amount's own.
    pub open spec fn mantissa_at(self, scale: u32) -> int {
        self.mantissa * pow10((scale - self.scale) as nat)
    }

    /// The larger of the two scales.
    pub open spec fn common_scale(self, other: Amount) -> u32 {
        if self.scale >= other.scale {
            self.scale
        } else {
            other.scale
        }
    }

    /// The same number with the opposite sign.
    pub open spec fn negated(self) -> Amount {
        Amount { mantissa: (-self.mantissa) as i128, scale: self.scale }
    }

    /// Whether the sum of the two amounts is exact: one of them is zero, or
    /// both operands and their sum have a mantissa at the common scale.
    pub open spec fn can_add(self, other: Amount) -> bool {
        self.mantissa == 0 || other.mantissa == 0 || {
            let s = self.common_scale(other);
            &&& is_mantissa(self.mantissa_at(s))
            &&& is_mantissa(other.mantissa_at(s))
            &&& is_mantissa(self.mantissa_at(s) + other.mantissa_at(s))
        }
    }

    /// The exact sum. A zero operand leaves the other as it is; otherwise the
    /// sum has the larger of the two scales.
    pub open spec fn plus(self, other: Amount) -> Amount {
        if self.mantissa == 0 {
            other
        } else if other.mantissa == 0 {
            self
        } else {
            let s = self.common_scale(other);
            Amount { mantissa: (self.mantissa_at(s) + other.mantissa_at(s)) as i128, scale: s }
        }
    }

    /// Whether the difference of the two amounts is exact.
    pub open spec fn can_sub(self, other: Amount) -> bool {
        self.can_add(other.negated())
    }

    /// The exact difference.
    pub open spec fn minus(self, other: Amount) -> Amount {
        self.plus(other.negated())
    }

    /// The amount in decimal notation, with all its fractional digits.
    pub open spec fn text(self) -> Seq<char> {
        decimal_text(self.mantissa as int, self.scale as nat)
    }

    /// The amount zero, without fractional digits.
    pub fn zero() -> (r: Amount)
        ensures
            r == (Amount { mantissa: 0, scale: 0 }),
            r.wf(),
            r.value() == 0,
    {
        Amount { mantissa: 0, scale: 0 }
    }

    /// An amount from its parts, where the decimal type can hold them.
    pub fn new(mantissa: i128, scale: u32) -> (r: Option<Amount>)
        ensures
            r == if (Amount { mantissa, scale }).wf() {
                Some(Amount { mantissa, scale })
            } else {
                None
            },
    {
        if scale <= MAX_SCALE && -MAX_MANTISSA <= mantissa && mantissa <= MAX_MANTISSA {
            Some(Amount { mantissa, scale })
        } else {
            None
        }
    }

    /// The same number with the opposite sign.
    pub fn negate(self) -> (r: Amount)
        requires
            self.wf(),
        ensures
            r == self.negated(),
            r.wf(),
    {
        Amount { mantissa: -self.mantissa, scale: self.scale }
    }

    /// Decides whether the sum of the two amounts is exact.
    pub fn sum_is_exact(self, other: Amount) -> (r: bool)
        requires
            self.wf(),
            other.wf(),
        ensures
            r == self.can_add(other),
    {
        if self.mantissa == 0 || other.mantissa == 0 {
            return true;
        }
        let s: u32 = if self.scale >= other.scale {
            self.scale
        } else {
            other.scale
        };
        match (scaled_up(self.mantissa, s - self.scale), scaled_up(other.mantissa, s - other.scale)) {
            (Some(x), Some(y)) => {
                let z: i128 = x + y;
                -MAX_MANTISSA <= z && z <= MAX_MANTISSA
            },
            _ => false,
        }
    }

    /// The sum of the two amounts where it is exact, and `None` where it is
    /// not.
    pub fn checked_add(self, other: Amount) -> (r: Option<Amount>)
        requires
            self.wf(),
            other.wf(),
        ensures
            r == if self.can_add(other) {
                Some(self.plus(other))
            } else {
                None
            },
            r is Some ==> r.unwrap().wf() && r.unwrap().value() == self.value() + other.value(),
    {
        if self.sum_is_exact(other) {
            Some(self.exact_add(other))
        } else {
            None
        }
    }

    /// The difference of the two amounts where it is exact, and `None` where
    /// it is not.
    pub fn checked_sub(self, other: Amount) -> (r: Option<Amount>)
        requires
            self.wf(),
            other.wf(),
        ensures
            r == if self.can_sub(other) {
                Some(self.minus(other))
            } else {
                None
            },
            r is Some ==> r.unwrap().wf() && r.unwrap().value() == self.value() - other.value(),
    {
        if self.sum_is_exact(other.negate()) {
            Some(self.exact_sub(other))
        } else {
            None
        }
    }

    /// The sum of two amounts whose sum is exact.
    pub fn exact_add(self, other: Amount) -> (r: Amount)
        requires
            self.wf(),
            other.wf(),
            self.can_add(other),
        ensures
            r == self.plus(other),
            r.wf(),
            r.value() == self.value() + other.value(),
    {
        proof {
            lemma_plus_is_exact(self, other);
        }
        decimal_add(self, other)
    }

    /// The difference of two amounts whose difference is exact.
    pub fn exact_sub(self, other: Amount) -> (r: Amount)
        requires
            self.wf(),
            other.wf(),
            self.can_sub(other),
        ensures
            r == self.minus(other),
            r.wf(),
            r.value() == self.value() - other.value(),
    {
        proof {
            lemma_minus_is_exact(self, other);
        }
        decimal_sub(self, other)
    }

    /// Whether this amount is the greater number.
    pub fn exceeds(self, other: Amount) -> (r: bool)
        requires
            self.wf(),
            other.wf(),
        ensures
            r == (self.value() > other.value()),
    {
        decimal_gt(self, other)
    }

    /// The amount in decimal notation.
    pub fn to_text(self) -> (r: String)
        requires
            self.wf(),
        ensures
            r@ == self.text(),
    {
        decimal_to_string(self)
    }
}

/// What `rust_decimal::Decimal`'s `Display` writes for the decimal with this
/// mantissa and this scale.
pub uninterp spec fn decimal_text(mantissa: int, scale: nat) -> Seq<char>;

/// `rust_decimal::Decimal`'s `+` on two decimals built with
/// `Decimal::from_i128_with_scale`. Believed of it: where the sum is exact in
/// the sense of `can_add`, the result is that sum; it has the other operand's
/// mantissa and scale where one operand is zero, and the larger scale
/// otherwise. Inputs on which `+` rounds or overflows are left out.
#[verifier::external_body]
fn decimal_add(a: Amount, b: Amount) -> (r: Amount)
    requires
        a.wf(),
        b.wf(),
        a.can_add(b),
    ensures
        r == a.plus(b),
{
    let x = Decimal::from_i128_with_scale(a.mantissa, a.scale);
    let y = Decimal::from_i128_with_scale(b.mantissa, b.scale);
    let z = x + y;
    Amount { mantissa: z.mantissa(), scale: z.scale() }
}

/// `rust_decimal::Decimal`'s `-` on two decimals built with
/// `Decimal::from_i128_with_scale`. Believed of it: where the difference is
/// exact in the sense of `can_sub`, the result is that difference; it is the
/// negated second operand where the first is zero, the first operand where the
/// second is zero, and has the larger scale otherwise. Inputs on which `-`
/// rounds or overflows are left out.
#[verifier::external_body]
fn decimal_sub(a: Amount, b: Amount) -> (r: Amount)
    requires
        a.wf(),
        b.wf(),
        a.can_sub(b),
    ensures
        r == a.minus(b),
{
    let x = Decimal::from_i128_with_scale(a.mantissa, a.scale);
    let y = Decimal::from_i128_with_scale(b.mantissa, b.scale);
    let z = x - y;
    Amount { mantissa: z.mantissa(), scale: z.scale() }
}

/// `rust_decimal::Decimal`'s `>` on two decimals built with
/// `Decimal::from_i128_with_scale`. Believed of it: it orders decimals as
/// numbers, whatever their scales.
#[verifier::external_body]
fn decimal_gt(a: Amount, b: Amount) -> (r: bool)
    requires
        a.wf(),
        b.wf(),
    ensures
        r == (a.value() > b.value()),
{
    let x = Decimal::from_i128_with_scale(a.mantissa, a.scale);
    let y = Decimal::from_i128_with_scale(b.mantissa, b.scale);
    x > y
}

/// `rust_decimal::Decimal`'s `Display`, through `to_string`, on a decimal
/// built with `Decimal::from_i128_with_scale`. Believed of it: the text is a
/// function of the mantissa and the scale alone.
#[verifier::external_body]
fn decimal_to_string(a: Amount) -> (r: String)
    requires
        a.wf(),
    ensures
        r@ == decimal_text(a.mantissa as int, a.scale as nat),
{
    Decimal::from_i128_with_scale(a.mantissa, a.scale).to_string()
}

/// Negation keeps an amount well formed and negates its value.
pub proof fn lemma_negated(a: Amount)
    requires
        a.wf(),
    ensures
        a.negated().wf(),
        a.negated().value() == -a.value(),
        a.negated().negated() == a,
{
    let p = pow10((MAX_SCALE - a.scale) as nat);
    assert((-a.mantissa) * p == -(a.mantissa * p)) by (nonlinear_arith);
}

/// The value of a mantissa brought to a larger scale is the value it had.
proof fn lemma_mantissa_at_value(a: Amount, s: u32)
    requires
        a.scale <= s <= MAX_SCALE,
    ensures
        a.mantissa_at(s) * pow10((MAX_SCALE - s) as nat) == a.value(),
{
    lemma_pow10_adds((s - a.scale) as nat, (MAX_SCALE - s) as nat);
    let p = pow10((s - a.scale) as nat);
    let q = pow10((MAX_SCALE - s) as nat);
    assert((a.mantissa * p) * q == a.mantissa * (p * q)) by (nonlinear_arith);
}

/// An exact sum is well formed, and its value is the sum of the values.
pub proof fn lemma_plus_is_exact(a: Amount, b: Amount)
    requires
        a.wf(),
        b.wf(),
        a.can_add(b),
    ensures
        a.plus(b).wf(),
        a.plus(b).value() == a.value() + b.value(),
{
    if a.mantissa == 0 {
        assert(a.value() == 0) by (nonlinear_arith)
            requires
                a.mantissa == 0,
                a.value() == a.mantissa * pow10((MAX_SCALE - a.scale) as nat),
        ;
    } else if b.mantissa == 0 {
        assert(b.value() == 0) by (nonlinear_arith)
            requires
                b.mantissa == 0,
                b.value() == b.mantissa * pow10((MAX_SCALE - b.scale) as nat),
        ;
    } else {
        let s = a.common_scale(b);
        let q = pow10((MAX_SCALE - s) as nat);
        let x = a.mantissa_at(s);
        let y = b.mantissa_at(s);
        lemma_mantissa_at_value(a, s);
        lemma_mantissa_at_value(b, s);
        assert((x + y) * q == x * q + y * q) by (nonlinear_arith);
    }
}

/// An exact difference is well formed, and its value is the difference of
/// the values.
pub proof fn lemma_minus_is_exact(a: Amount, b: Amount)
    requires
        a.wf(),
        b.wf(),
        a.can_sub(b),
    ensures
        a.minus(b).wf(),
        a.minus(b).value() == a.value() - b.value(),
{
    lemma_negated(b);
    lemma_plus_is_exact(a, b.negated());
}

/// `10^(a + b)` is `10^a * 10^b`, and every power of ten is at least one.
pub proof fn lemma_pow10_adds(a: nat, b: nat)
    ensures
        pow10(a + b) == pow10(a) * pow10(b),
        pow10(a) >= 1,
        pow10(b) >= 1,
{
    lemma_pow_adds(10, a, b);
    lemma_pow_positive(10, a);
    lemma_pow_positive(10, b);
}

/// Multiplying by a further power of ten never brings a mantissa back into
/// range: if `m * 10^i` is out of range, so is `m * 10^k` for `k >= i`.
proof fn lemma_scaling_leaves_range(m: int, i: nat, k: nat)
    requires
        i <= k,
        !is_mantissa(m * pow10(i)),
    ensures
        !is_mantissa(m * pow10(k)),
{
    lemma_pow10_adds(i, (k - i) as nat);
    let x = m * pow10(i);
    let p = pow10((k - i) as nat);
    assert(m * pow10(k) == x * p) by (nonlinear_arith)
        requires
            pow10(k) == pow10(i) * p,
            x == m * pow10(i),
    ;
    assert(x > MAX_MANTISSA ==> x * p > MAX_MANTISSA) by (nonlinear_arith)
        requires
            p >= 1,
    ;
    assert(x < -MAX_MANTISSA ==> x * p < -MAX_MANTISSA) by (nonlinear_arith)
        requires
            p >= 1,
    ;
}

/// `m * 10^k`, where that is still a mantissa.
fn scaled_up(m: i128, k: u32) -> (r: Option<i128>)
    requires
        is_mantissa(m as int),
        k <= MAX_SCALE,
    ensures
        r == if is_mantissa(m * pow10(k as nat)) {
            Some((m * pow10(k as nat)) as i128)
        } else {
            None
        },
{
    let mut x: i128 = m;
    let mut i: u32 = 0;
    proof {
        lemma_pow0(10);
    }
    while i < k
        invariant
            i <= k <= MAX_SCALE,
            x == m * pow10(i as nat),
            is_mantissa(x as int),
        decreases k - i,
    {
        proof {
            lemma_pow10_adds(i as nat, 1);
            lemma_pow1(10);
            assert(m * pow10((i + 1) as nat) == (m * pow10(i as nat)) * 10) by (nonlinear_arith)
                requires
                    pow10((i + 1) as nat) == pow10(i as nat) * 10,
            ;
        }
        x = x * 10;
        i = i + 1;
        if x > MAX_MANTISSA || x < -MAX_MANTISSA {
            proof {
                lemma_scaling_leaves_range(m as int, i as nat, k as nat);
            }
            return None;
        }
    }
    Some(x)
}

} // verus!
