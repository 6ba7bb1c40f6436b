use vstd::prelude::*;

verus! {

/// `10^n`.
pub open spec fn pow10(n: nat) -> nat
    decreases n,
{
    if n == 0 {
        1
    } else {
        10 * pow10((n - 1) as nat)
    }
}

pub proof fn lemma_pow10_positive(n: nat)
    ensures
        pow10(n) >= 1,
    decreases n,
{
    if n > 0 {
        lemma_pow10_positive((n - 1) as nat);
    }
}

pub proof fn lemma_pow10_monotone(a: nat, b: nat)
    requires
        a <= b,
    ensures
        pow10(a) <= pow10(b),
    decreases b,
{
    if a < b {
        lemma_pow10_monotone(a, (b - 1) as nat);
        lemma_pow10_positive((b - 1) as nat);
    }
}

pub proof fn lemma_pow10_add(a: nat, b: nat)
    ensures
        pow10(a + b) == pow10(a) * pow10(b),
    decreases b,
{
    if b > 0 {
        lemma_pow10_add(a, (b - 1) as nat);
        assert(pow10(a + b) == 10 * pow10((a + b - 1) as nat));
        assert((a + b - 1) as nat == a + (b - 1) as nat);
        let x = pow10(a);
        let y = pow10((b - 1) as nat);
        assert(pow10(b) == 10 * y);
        assert(pow10(a + (b - 1) as nat) == x * y);
        assert(10 * (x * y) == x * (10 * y)) by (nonlinear_arith);
        assert(pow10(a + b) == 10 * (x * y));
    } else {
        assert(pow10(0) == 1);
        assert(a + b == a);
        assert(pow10(a) * 1 == pow10(a));
    }
}

/// Every `u128` is below `10^39`.
pub proof fn lemma_u128_below_pow10_39()
    ensures
        u128::MAX < pow10(39),
{
    reveal_with_fuel(pow10, 40);
}

/// `10^38` is a `u128`.
pub proof fn lemma_pow10_38_fits()
    ensures
        pow10(38) <= u128::MAX,
{
    reveal_with_fuel(pow10, 39);
}

/// The largest mantissa magnitude of the venue's 96-bit decimal.
pub const MAX_DIGITS: u128 = 0xffff_ffff_ffff_ffff_ffff_ffffu128;

/// The largest scale of the venue's decimal type.
pub const MAX_SCALE: u32 = 28;

/// An exact decimal number `(-1)^negative * digits / 10^scale`, as carried on the wire.
///
/// The scale is part of the value's representation: `1.50` and `1.5` are equal in value but
/// print differently.
#[derive(Clone, Copy, Debug, PartialEq, Eq, Structural)]
pub struct ExactDecimal {
    pub negative: bool,
    pub digits: u128,
    pub scale: u32,
}

/// Three-way result of a value comparison.
#[derive(Clone, Copy, Debug, PartialEq, Eq, Structural)]
pub enum ValueOrder {
    Less,
    Equal,
    Greater,
}

pub open spec fn order_of(x: int, y: int) -> ValueOrder {
    if x < y {
        ValueOrder::Less
    } else if x == y {
        ValueOrder::Equal
    } else {
        ValueOrder::Greater
    }
}

/// The digits left after removing trailing zeros while the scale allows.
pub open spec fn spec_stripped_digits(digits: nat, scale: nat) -> nat
    decreases scale,
{
    if scale > 0 && digits % 10 == 0 {
        spec_stripped_digits(digits / 10, (scale - 1) as nat)
    } else {
        digits
    }
}

/// Scale left after removing trailing zeros of the digits (never below zero).
pub open spec fn spec_normalized_scale(digits: nat, scale: nat) -> nat
    decreases scale,
{
    if scale > 0 && digits % 10 == 0 {
        spec_normalized_scale(digits / 10, (scale - 1) as nat)
    } else if digits == 0 {
        0
    } else {
        scale
    }
}

impl ExactDecimal {
    /// Representable by the venue's 96-bit decimal type.
    pub open spec fn wf(self) -> bool {
        self.digits <= MAX_DIGITS && self.scale <= MAX_SCALE
    }

    /// The signed integer `value * 10^scale`.
    pub open spec fn signed(self) -> int {
        if self.negative {
            -(self.digits as int)
        } else {
            self.digits as int
        }
    }

    /// The value multiplied by `10^t`, for `t >= scale`.
    pub open spec fn scaled_to(self, t: nat) -> int {
        self.signed() * pow10((t - self.scale) as nat)
    }

    pub open spec fn common_scale(self, other: ExactDecimal) -> nat {
        if self.scale >= other.scale {
            self.scale as nat
        } else {
            other.scale as nat
        }
    }

    /// Order of the two values.
    pub open spec fn spec_compare(self, other: ExactDecimal) -> ValueOrder {
        let t = self.common_scale(other);
        order_of(self.scaled_to(t), other.scaled_to(t))
    }

    pub open spec fn spec_is_positive(self) -> bool {
        self.signed() > 0
    }

    pub open spec fn spec_is_negative(self) -> bool {
        self.signed() < 0
    }

    /// The value is at least one.
    pub open spec fn spec_at_least_one(self) -> bool {
        self.signed() >= pow10(self.scale as nat)
    }

    /// The value has no fractional part.
    pub open spec fn spec_is_integer(self) -> bool {
        (self.digits as nat) % pow10(self.scale as nat) == 0
    }

    /// Number of decimal places once trailing zeros are removed.
    pub open spec fn spec_normalized_scale(self) -> nat {
        spec_normalized_scale(self.digits as nat, self.scale as nat)
    }

    pub fn from_parts(negative: bool, digits: u128, scale: u32) -> (r: ExactDecimal)
        ensures
            r == (ExactDecimal { negative, digits, scale }),
    {
        ExactDecimal { negative, digits, scale }
    }

    /// A non-negative integer.
    pub fn from_u64(value: u64) -> (r: ExactDecimal)
        ensures
            r.signed() == value,
            r.scale == 0,
            !r.negative,
    {
        ExactDecimal { negative: false, digits: value as u128, scale: 0 }
    }

    pub fn is_positive(&self) -> (r: bool)
        ensures
            r == self.spec_is_positive(),
    {
        !self.negative && self.digits > 0
    }

    pub fn is_negative(&self) -> (r: bool)
        ensures
            r == self.spec_is_negative(),
    {
        self.negative && self.digits > 0
    }

    pub fn is_zero(&self) -> (r: bool)
        ensures
            r == (self.signed() == 0),
    {
        self.digits == 0
    }

    /// The absolute value, keeping the scale.
    pub fn abs(&self) -> (r: ExactDecimal)
        ensures
            r.digits == self.digits,
            r.scale == self.scale,
            !r.negative,
    {
        ExactDecimal { negative: false, digits: self.digits, scale: self.scale }
    }

    /// Whether the value is at least one.
    pub fn at_least_one(&self) -> (r: bool)
        ensures
            r == self.spec_at_least_one(),
    {
        if self.negative || self.scale > 38 {
            proof {
                if !self.negative {
                    lemma_u128_below_pow10_39();
                    lemma_pow10_monotone(39, self.scale as nat);
                } else {
                    lemma_pow10_positive(self.scale as nat);
                }
            }
            return false;
        }
        let p = pow10_u128(self.scale);
        self.digits >= p
    }

    /// Whether the value has no fractional part.
    pub fn is_integer(&self) -> (r: bool)
        ensures
            r == self.spec_is_integer(),
    {
        if self.scale > 38 {
            proof {
                lemma_u128_below_pow10_39();
                lemma_pow10_monotone(39, self.scale as nat);
                let p = pow10(self.scale as nat);
                let d = self.digits as nat;
                assert(d % p == d) by (nonlinear_arith)
                    requires
                        d < p,
                ;
            }
            return self.digits == 0;
        }
        let p = pow10_u128(self.scale);
        proof {
            lemma_pow10_positive(self.scale as nat);
        }
        self.digits % p == 0
    }

    /// Number of decimal places once trailing zeros are removed.
    pub fn normalized_scale(&self) -> (r: u32)
        ensures
            r == self.spec_normalized_scale(),
    {
        let mut digits = self.digits;
        let mut scale = self.scale;
        while scale > 0 && digits % 10 == 0
            invariant
                scale <= self.scale,
                spec_normalized_scale(digits as nat, scale as nat) == self.spec_normalized_scale(),
            decreases scale,
        {
            digits = digits / 10;
            scale = scale - 1;
        }
        if digits == 0 {
            0
        } else {
            scale
        }
    }

    /// The value without trailing zeros, and zero without a sign: what `Decimal::normalize`
    /// documents.
    pub open spec fn spec_normalize(self) -> ExactDecimal {
        let d = spec_stripped_digits(self.digits as nat, self.scale as nat);
        ExactDecimal {
            negative: self.negative && self.digits != 0,
            digits: d as u128,
            scale: self.spec_normalized_scale() as u32,
        }
    }

    /// Removes trailing zeros; zero becomes `0` with scale zero.
    pub fn normalize(&self) -> (r: ExactDecimal)
        ensures
            r == self.spec_normalize(),
            r.digits <= self.digits,
            r.scale <= self.scale,
    {
        let mut digits = self.digits;
        let mut scale = self.scale;
        while scale > 0 && digits % 10 == 0
            invariant
                scale <= self.scale,
                digits <= self.digits,
                spec_normalized_scale(digits as nat, scale as nat) == self.spec_normalized_scale(),
                spec_stripped_digits(digits as nat, scale as nat) == spec_stripped_digits(
                    self.digits as nat,
                    self.scale as nat,
                ),
            decreases scale,
        {
            digits = digits / 10;
            scale = scale - 1;
        }
        let out_scale = if digits == 0 {
            0
        } else {
            scale
        };
        ExactDecimal { negative: self.negative && self.digits != 0, digits, scale: out_scale }
    }

    /// Compares the two values.
    pub fn compare(&self, other: &ExactDecimal) -> (r: ValueOrder)
        ensures
            r == self.spec_compare(*other),
    {
        if self.scale <= other.scale {
            let (fits, m) = scale_up(self.digits, other.scale - self.scale);
            let r = signed_order(self.negative, m, fits, other.negative, other.digits, true);
            proof {
                let t = self.common_scale(*other);
                lemma_scaled_form(*self, t);
                lemma_scaled_form(*other, t);
                let xa = self.digits * pow10((t - self.scale) as nat);
                let xb = other.digits as int;
                assert(order_of(
                    if self.negative { -xa } else { xa },
                    if other.negative { -xb } else { xb },
                ) == r);
            }
            r
        } else {
            let (fits, m) = scale_up(other.digits, self.scale - other.scale);
            let r = signed_order(self.negative, self.digits, true, other.negative, m, fits);
            proof {
                let t = self.common_scale(*other);
                lemma_scaled_form(*self, t);
                lemma_scaled_form(*other, t);
                let xa = self.digits as int;
                let xb = other.digits * pow10((t - other.scale) as nat);
                assert(order_of(
                    if self.negative { -xa } else { xa },
                    if other.negative { -xb } else { xb },
                ) == r);
            }
            r
        }
    }

    /// Whether the two values are equal.
    pub fn same_value(&self, other: &ExactDecimal) -> (r: bool)
        ensures
            r == (self.spec_compare(*other) == ValueOrder::Equal),
    {
        matches!(self.compare(other), ValueOrder::Equal)
    }

    /// The value divided by one hundred, exactly (the scale grows by two).
    pub fn div_100(&self) -> (r: ExactDecimal)
        requires
            self.scale <= MAX_SCALE,
        ensures
            r.negative == self.negative,
            r.digits == self.digits,
            r.scale == self.scale + 2,
    {
        ExactDecimal { negative: self.negative, digits: self.digits, scale: self.scale + 2 }
    }

    /// The signed mantissa, as the venue's decimal type reports it.
    pub open spec fn spec_mantissa(self) -> i128 {
        self.signed() as i128
    }

    /// The decimal with the given signed mantissa and scale.
    pub open spec fn spec_from_mantissa(mantissa: i128, scale: u32) -> ExactDecimal {
        ExactDecimal {
            negative: mantissa < 0,
            digits: (if mantissa < 0 { -mantissa } else { mantissa as int }) as u128,
            scale,
        }
    }

    /// The signed mantissa.
    pub fn mantissa(&self) -> (r: i128)
        requires
            self.digits <= MAX_DIGITS,
        ensures
            r == self.signed(),
            r == self.spec_mantissa(),
    {
        if self.negative {
            -(self.digits as i128)
        } else {
            self.digits as i128
        }
    }

    /// The decimal with the given signed mantissa and scale.
    pub fn from_mantissa(mantissa: i128, scale: u32) -> (r: ExactDecimal)
        requires
            -(MAX_DIGITS as int) <= mantissa <= MAX_DIGITS,
        ensures
            r == ExactDecimal::spec_from_mantissa(mantissa, scale),
            r.signed() == mantissa,
            r.digits <= MAX_DIGITS,
    {
        if mantissa < 0 {
            ExactDecimal { negative: true, digits: (-mantissa) as u128, scale }
        } else {
            ExactDecimal { negative: false, digits: mantissa as u128, scale }
        }
    }

    /// What the venue's decimal type gives for this value divided by one hundred.
    pub open spec fn spec_hundredth(self) -> ExactDecimal {
        let q = decimal_div(self.spec_mantissa(), self.scale, 100, 0);
        ExactDecimal::spec_from_mantissa(q.0, q.1)
    }

    /// The value divided by one hundred, computed by the venue's decimal type.
    pub fn hundredth(&self) -> (r: ExactDecimal)
        requires
            self.wf(),
        ensures
            r == self.spec_hundredth(),
            r.wf(),
            self.scale + 2 <= MAX_SCALE ==> r.signed() * pow10((self.scale + 2) as nat) == self.signed()
                * pow10(r.scale as nat),
    {
        let m = self.mantissa();
        proof {
            assert(pow10(0) == 1);
            reveal_with_fuel(pow10, 3);
            assert(power_of_ten_divisor(100, 0, 2));
        }
        let q = rust_decimal_div(m, self.scale, 100, 0);
        ExactDecimal::from_mantissa(q.0, q.1)
    }

    /// `self - other` at their common scale, as a signed integer.
    pub open spec fn spec_difference_at_common_scale(self, other: ExactDecimal) -> int {
        let t = self.common_scale(other);
        self.scaled_to(t) - other.scaled_to(t)
    }

    /// The exact difference fits the venue's 96-bit mantissa at the common scale.
    pub open spec fn difference_fits(self, other: ExactDecimal) -> bool {
        -(MAX_DIGITS as int) <= self.spec_difference_at_common_scale(other) <= MAX_DIGITS
    }

    /// What the venue's decimal type gives for `self - other`.
    pub open spec fn spec_minus(self, other: ExactDecimal) -> ExactDecimal {
        let d = decimal_sub(self.spec_mantissa(), self.scale, other.spec_mantissa(), other.scale);
        ExactDecimal::spec_from_mantissa(d.0, d.1)
    }

    /// `self - other`, computed by the venue's decimal type; exact in value.
    pub fn minus(&self, other: &ExactDecimal) -> (r: ExactDecimal)
        requires
            self.wf(),
            other.wf(),
            self.difference_fits(*other),
        ensures
            r == self.spec_minus(*other),
            r.wf(),
            r.signed() * pow10(self.common_scale(*other)) == self.spec_difference_at_common_scale(
                *other,
            ) * pow10(r.scale as nat),
    {
        let a = self.mantissa();
        let b = other.mantissa();
        let d = rust_decimal_sub(a, self.scale, b, other.scale);
        ExactDecimal::from_mantissa(d.0, d.1)
    }

    /// The value multiplied by one hundred, exactly (the scale is kept).
    pub fn mul_100(&self) -> (r: ExactDecimal)
        requires
            self.digits <= MAX_DIGITS,
        ensures
            r.negative == self.negative,
            r.digits == self.digits * 100,
            r.scale == self.scale,
    {
        ExactDecimal { negative: self.negative, digits: self.digits * 100, scale: self.scale }
    }
}

/// The `(mantissa, scale)` that `rust_decimal` gives for `a / b`, each operand built with
/// `Decimal::from_i128_with_scale`.
pub uninterp spec fn decimal_div(a_mantissa: i128, a_scale: u32, b_mantissa: i128, b_scale: u32) -> (
    i128,
    u32,
);

/// The divisor is `10^j` at scale zero, for some `j` up to nine.
pub open spec fn power_of_ten_divisor(b_mantissa: i128, b_scale: u32, j: nat) -> bool {
    b_scale == 0 && j <= 9 && b_mantissa == pow10(j)
}

/// Divides with `rust_decimal`'s `Div` for `Decimal`.
///
/// The operation panics on a zero divisor and when the quotient overflows. The precondition
/// admits a nonzero divisor of magnitude at least one, at a scale no larger than the dividend's:
/// the quotient then never exceeds the dividend in magnitude and its scale never has to drop
/// below zero. The contract claims that the quotient is a 96-bit decimal of scale at most 28
/// (true of every `Decimal`), and that it is exact in value when the divisor is `10^j` and the
/// exact quotient has a scale of at most 28. The digits of other quotients, and how the library
/// chooses the quotient's scale, are left to the name.
#[verifier::external_body]
fn rust_decimal_div(a_mantissa: i128, a_scale: u32, b_mantissa: i128, b_scale: u32) -> (r: (
    i128,
    u32,
))
    requires
        a_scale <= MAX_SCALE,
        b_scale <= MAX_SCALE,
        -(MAX_DIGITS as int) <= a_mantissa <= MAX_DIGITS,
        -(MAX_DIGITS as int) <= b_mantissa <= MAX_DIGITS,
        b_scale <= a_scale,
        b_mantissa >= pow10(b_scale as nat) || -b_mantissa >= pow10(b_scale as nat),
    ensures
        r == decimal_div(a_mantissa, a_scale, b_mantissa, b_scale),
        -(MAX_DIGITS as int) <= r.0 <= MAX_DIGITS,
        r.1 <= MAX_SCALE,
        forall|j: nat|
            #[trigger] power_of_ten_divisor(b_mantissa, b_scale, j) && a_scale + j <= MAX_SCALE
                ==> r.0 * pow10((a_scale + j) as nat) == a_mantissa * pow10(r.1 as nat),
{
    let q = rust_decimal::Decimal::from_i128_with_scale(a_mantissa, a_scale)
        / rust_decimal::Decimal::from_i128_with_scale(b_mantissa, b_scale);
    (q.mantissa(), q.scale())
}

/// The `(mantissa, scale)` that `rust_decimal` gives for `a - b`, each operand built with
/// `Decimal::from_i128_with_scale`.
pub uninterp spec fn decimal_sub(a_mantissa: i128, a_scale: u32, b_mantissa: i128, b_scale: u32) -> (
    i128,
    u32,
);

/// Subtracts with `rust_decimal`'s `Sub` for `Decimal`.
///
/// The operation panics when the difference cannot be represented; the precondition admits only
/// operands whose exact difference fits the 96-bit mantissa at their common scale. The contract
/// claims that the result is then exact in value, and that a zero operand hands back the other
/// one (negated where it is the subtrahend) at its own scale. Otherwise the scale is left to
/// the name.
#[verifier::external_body]
fn rust_decimal_sub(a_mantissa: i128, a_scale: u32, b_mantissa: i128, b_scale: u32) -> (r: (
    i128,
    u32,
))
    requires
        a_scale <= MAX_SCALE,
        b_scale <= MAX_SCALE,
        -(MAX_DIGITS as int) <= a_mantissa <= MAX_DIGITS,
        -(MAX_DIGITS as int) <= b_mantissa <= MAX_DIGITS,
        ExactDecimal::spec_from_mantissa(a_mantissa, a_scale).difference_fits(
            ExactDecimal::spec_from_mantissa(b_mantissa, b_scale),
        ),
    ensures
        r == decimal_sub(a_mantissa, a_scale, b_mantissa, b_scale),
        -(MAX_DIGITS as int) <= r.0 <= MAX_DIGITS,
        r.1 <= MAX_SCALE,
        r.0 * pow10(
            ExactDecimal::spec_from_mantissa(a_mantissa, a_scale).common_scale(
                ExactDecimal::spec_from_mantissa(b_mantissa, b_scale),
            ),
        ) == ExactDecimal::spec_from_mantissa(a_mantissa, a_scale).spec_difference_at_common_scale(
            ExactDecimal::spec_from_mantissa(b_mantissa, b_scale),
        ) * pow10(r.1 as nat),
        a_mantissa == 0 ==> r.0 == -b_mantissa && r.1 == b_scale,
        b_mantissa == 0 && a_mantissa != 0 ==> r == (a_mantissa, a_scale),
{
    let d = rust_decimal::Decimal::from_i128_with_scale(a_mantissa, a_scale)
        - rust_decimal::Decimal::from_i128_with_scale(b_mantissa, b_scale);
    (d.mantissa(), d.scale())
}

proof fn lemma_scaled_form(d: ExactDecimal, t: nat)
    requires
        t >= d.scale,
    ensures
        d.scaled_to(t) == (if d.negative {
            -(d.digits * pow10((t - d.scale) as nat))
        } else {
            d.digits * pow10((t - d.scale) as nat)
        }),
        t == d.scale ==> d.digits * pow10((t - d.scale) as nat) == d.digits,
{
    let p = pow10((t - d.scale) as nat);
    let g = d.digits as int;
    assert((-g) * p == -(g * p)) by (nonlinear_arith);
    if t == d.scale {
        assert((t - d.scale) as nat == 0);
        assert(pow10(0) == 1);
        assert(g * 1 == g);
    }
}

/// `10^n` as a machine integer, for `n <= 38`.
pub fn pow10_u128(n: u32) -> (r: u128)
    requires
        n <= 38,
    ensures
        r == pow10(n as nat),
{
    let mut r: u128 = 1;
    let mut i: u32 = 0;
    while i < n
        invariant
            i <= n,
            n <= 38,
            r == pow10(i as nat),
        decreases n - i,
    {
        proof {
            lemma_pow10_monotone((i + 1) as nat, 38);
            lemma_pow10_38_fits();
            assert(pow10((i + 1) as nat) == 10 * pow10(i as nat));
        }
        r = r * 10;
        i = i + 1;
    }
    r
}

/// `digits * 10^k`, or `fits == false` when that exceeds `u128`.
fn scale_up(digits: u128, k: u32) -> (r: (bool, u128))
    ensures
        r.0 ==> r.1 == digits * pow10(k as nat),
        !r.0 ==> digits * pow10(k as nat) > u128::MAX,
{
    let mut m = digits;
    let mut i: u32 = 0;
    assert(pow10(0) == 1);
    while i < k
        invariant
            i <= k,
            m == digits * pow10(i as nat),
        decreases k - i,
    {
        if m > u128::MAX / 10 {
            proof {
                lemma_pow10_add((i + 1) as nat, (k - i - 1) as nat);
                lemma_pow10_positive((k - i - 1) as nat);
                let rest = pow10((k - i - 1) as nat);
                let mi = m as int;
                assert(pow10((i + 1) as nat) == 10 * pow10(i as nat));
                assert(digits * pow10(k as nat) == mi * 10 * rest) by (nonlinear_arith)
                    requires
                        mi == digits * pow10(i as nat),
                        pow10(k as nat) == pow10((i + 1) as nat) * rest,
                        pow10((i + 1) as nat) == 10 * pow10(i as nat),
                ;
                assert(mi * 10 * rest >= mi * 10) by (nonlinear_arith)
                    requires
                        rest >= 1,
                        mi >= 0,
                ;
            }
            return (false, 0);
        }
        proof {
            assert(pow10((i + 1) as nat) == 10 * pow10(i as nat));
            assert(digits * (10 * pow10(i as nat)) == (digits * pow10(i as nat)) * 10) by (nonlinear_arith);
        }
        m = m * 10;
        i = i + 1;
    }
    (true, m)
}

/// Order of `(-1)^na * ma` and `(-1)^nb * mb` where a magnitude that does not fit is larger than
/// every `u128`.
fn signed_order(na: bool, ma: u128, fa: bool, nb: bool, mb: u128, fb: bool) -> (r: ValueOrder)
    requires
        fa || fb,
    ensures
        forall|xa: int, xb: int|
            #![trigger order_of(xa, xb)]
            (fa ==> xa == ma) && (!fa ==> xa > u128::MAX) && (fb ==> xb == mb) && (!fb
                ==> xb > u128::MAX) ==> r == order_of(
                if na { -xa } else { xa },
                if nb { -xb } else { xb },
            ),
{
    let a_zero = fa && ma == 0;
    let b_zero = fb && mb == 0;
    let a_neg = na && !a_zero;
    let b_neg = nb && !b_zero;
    // magnitude order: Less, Equal or Greater of |a| versus |b|
    let mag = if !fa {
        ValueOrder::Greater
    } else if !fb {
        ValueOrder::Less
    } else if ma < mb {
        ValueOrder::Less
    } else if ma == mb {
        ValueOrder::Equal
    } else {
        ValueOrder::Greater
    };
    if a_zero && b_zero {
        ValueOrder::Equal
    } else if a_neg && !b_neg {
        ValueOrder::Less
    } else if !a_neg && b_neg {
        ValueOrder::Greater
    } else if !a_neg {
        mag
    } else {
        match mag {
            ValueOrder::Less => ValueOrder::Greater,
            ValueOrder::Equal => ValueOrder::Equal,
            ValueOrder::Greater => ValueOrder::Less,
        }
    }
}

/// Stripping trailing zeros divides the digits by the power of ten that the scale loses.
proof fn lemma_stripped_value(d: nat, s: nat)
    ensures
        spec_normalized_scale(d, s) <= s,
        spec_stripped_digits(d, s) * pow10((s - spec_normalized_scale(d, s)) as nat) == d,
        spec_stripped_digits(d, s) <= d,
    decreases s,
{
    if s > 0 && d % 10 == 0 {
        lemma_stripped_value(d / 10, (s - 1) as nat);
        let ns = spec_normalized_scale(d / 10, (s - 1) as nat);
        let k = spec_stripped_digits(d / 10, (s - 1) as nat);
        let p = pow10(((s - 1) - ns) as nat);
        assert(((s - ns) as nat) == (((s - 1) - ns) as nat) + 1);
        assert(pow10((s - ns) as nat) == 10 * p);
        assert(k * (10 * p) == 10 * (k * p)) by (nonlinear_arith);
        assert(d == 10 * (d / 10));
    } else {
        assert(pow10(0) == 1);
        assert(spec_stripped_digits(d, s) == d);
        if d == 0 {
            assert(s == 0);
            assert(spec_normalized_scale(d, s) == 0);
        } else {
            assert(spec_normalized_scale(d, s) == s);
        }
        assert(((s - spec_normalized_scale(d, s)) as nat) == 0);
        assert(d * pow10(0) == d);
    }
}

/// Normalizing keeps the value: the normalized decimal compares equal to the decimal it came from.
pub proof fn lemma_normalize_keeps_value(x: ExactDecimal)
    ensures
        x.spec_compare(x.spec_normalize()) == ValueOrder::Equal,
        x.spec_normalize().digits <= x.digits,
        x.spec_normalize().scale <= x.scale,
{
    let d = x.digits as nat;
    let s = x.scale as nat;
    lemma_stripped_value(d, s);
    let n = x.spec_normalize();
    let ns = spec_normalized_scale(d, s);
    let k = spec_stripped_digits(d, s);
    assert(n.digits == k && n.scale == ns);
    assert(x.common_scale(n) == s);
    assert(x.scaled_to(s) == x.signed()) by {
        assert(((s - x.scale) as nat) == 0);
        assert(pow10(0) == 1);
        let p = pow10(0);
        let v = x.signed();
        assert(v * p == v) by (nonlinear_arith)
            requires
                p == 1,
        ;
    }
    let p = pow10((s - ns) as nat);
    if x.negative && x.digits != 0 {
        assert(n.scaled_to(s) == -(k as int) * p);
        assert(-(k as int) * p == -((k * p) as int)) by (nonlinear_arith);
    } else {
        assert(n.scaled_to(s) == (k as int) * p);
        if x.negative {
            assert(k == 0);
        }
    }
}

/// Multiplying by one hundred undoes dividing by one hundred: `div_100` keeps the digits and
/// adds two decimal places, `mul_100` multiplies the digits by one hundred, and the result
/// has the value it started from.
pub proof fn lemma_mul_100_undoes_div_100(x: ExactDecimal)
    requires
        x.scale + 2 <= u32::MAX,
        x.digits * 100 <= u128::MAX,
    ensures
        ({
            let divided = ExactDecimal {
                negative: x.negative,
                digits: x.digits,
                scale: (x.scale + 2) as u32,
            };
            let restored = ExactDecimal {
                negative: divided.negative,
                digits: (divided.digits * 100) as u128,
                scale: divided.scale,
            };
            restored.spec_compare(x) == ValueOrder::Equal
        }),
{
    let restored = ExactDecimal {
        negative: x.negative,
        digits: (x.digits * 100) as u128,
        scale: (x.scale + 2) as u32,
    };
    let t = (x.scale + 2) as nat;
    assert(restored.common_scale(x) == t);
    assert(pow10(0) == 1);
    reveal_with_fuel(pow10, 3);
    assert(((t - x.scale) as nat) == 2);
    assert(pow10(2) == 100);
    assert(restored.scaled_to(t) == restored.signed());
    assert(x.scaled_to(t) == x.signed() * 100);
}

} // verus!
