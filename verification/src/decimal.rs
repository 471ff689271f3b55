//! Exact decimal numbers, the money and quantity type of the whole crate.
//!
//! A `Decimal` is a signed 96-bit mantissa with a decimal scale of at most 28, the representation
//! of `rust_decimal`, which does the arithmetic. Every value is an integer number of units of
//! 10^-28, which is how the contracts speak of values: `units()`.
use vstd::prelude::*;

verus! {

/// Largest mantissa magnitude: 2^96 - 1.
pub const MAX_MANTISSA: i128 = 0xFFFF_FFFF_FFFF_FFFF_FFFF_FFFF;

/// Largest scale (number of fractional digits).
pub const MAX_SCALE: u32 = 28;

pub open spec fn pow10(n: nat) -> int
    decreases n,
{
    if n == 0 {
        1
    } else {
        10 * pow10((n - 1) as nat)
    }
}

/// 10^28: the number of units in one.
pub open spec fn unit() -> int {
    10_000_000_000_000_000_000_000_000_000
}

/// Magnitudes (in units) below which no arithmetic result overflows the representation.
pub open spec fn limit() -> int {
    39_614_081_257_132_168_796_771_975_168 * unit()
}

/// One trillion: the largest magnitude of an amount or a quantity that the ledgers take.
pub open spec fn quantity_bound() -> int {
    1_000_000_000_000 * unit()
}

/// 10^18: magnitudes up to which sums of amounts stay exact.
pub open spec fn small_bound() -> int {
    1_000_000_000_000_000_000 * unit()
}

/// A number with at most ten fractional digits and a magnitude of at most 10^18. Sums and
/// differences of such numbers that stay within 10^18 are exact.
pub open spec fn is_small(d: Decimal) -> bool {
    d.exp() <= 10 && -small_bound() <= d.units() <= small_bound()
}

pub open spec fn in_range(u: int) -> bool {
    -limit() < u < limit()
}

/// Round `x / d` to an integer, halves away from zero.
pub open spec fn div_round_half_away(x: int, d: int) -> int
    recommends
        d > 0,
{
    if x >= 0 {
        (x + d / 2) / d
    } else {
        -((-x + d / 2) / d)
    }
}

/// A mantissa/scale pair that the representation can hold.
pub open spec fn representable(m: int, s: int) -> bool {
    0 <= s <= 28 && -(MAX_MANTISSA as int) <= m <= MAX_MANTISSA as int
}

/// The pair that `rust_decimal` returns for `a + b` (mantissa, scale of each operand).
pub uninterp spec fn decimal_sum(am: int, ascale: nat, bm: int, bscale: nat) -> (int, nat);

/// The pair that `rust_decimal` returns for `a - b`.
pub uninterp spec fn decimal_difference(am: int, ascale: nat, bm: int, bscale: nat) -> (int, nat);

/// The pair that `rust_decimal` returns for `a * b`.
pub uninterp spec fn decimal_product(am: int, ascale: nat, bm: int, bscale: nat) -> (int, nat);

/// The pair that `rust_decimal` returns for `a / b`.
pub uninterp spec fn decimal_quotient(am: int, ascale: nat, bm: int, bscale: nat) -> (int, nat);

/// The digits of a magnitude, none for zero, left-padded with zeros to at least `width`.
pub open spec fn magnitude_digits(a: nat, width: nat) -> Seq<char> {
    let ds = if a == 0 {
        Seq::<char>::empty()
    } else {
        crate::text::digits(a)
    };
    if ds.len() < width {
        crate::text::zeros((width - ds.len()) as nat) + ds
    } else {
        ds
    }
}

/// The text that `rust_decimal` prints for a mantissa and scale: a minus sign for a negative
/// number, the digits of the magnitude with a point before the last `s` of them (a `0` before the
/// point where no integer digit is left), and `0` for a zero without fractional digits.
#[verifier::opaque]
pub open spec fn decimal_text(m: int, s: nat) -> Seq<char> {
    let p = magnitude_digits(abs_int(m) as nat, s);
    let w = p.len() - s;
    let body = if s == 0 {
        if p.len() == 0 {
            seq!['0']
        } else {
            p
        }
    } else {
        (if w == 0 {
            seq!['0']
        } else {
            p.take(w)
        }) + seq!['.'] + p.skip(w)
    };
    if m < 0 {
        seq!['-'] + body
    } else {
        body
    }
}

/// What `rust_decimal::Decimal::from_str_exact` makes of a text.
pub uninterp spec fn decimal_parse(text: Seq<char>) -> Option<(int, nat)>;

/// The value in units of the number with mantissa `m` and scale `k`.
pub open spec fn at_scale(m: int, k: nat) -> int {
    m * pow10((28 - k) as nat)
}

/// The exact quotient of two values (in units) is a number the representation holds.
pub open spec fn representable_quotient(a: int, b: int) -> bool {
    exists|m: int, k: nat|
        k <= 28 && -(MAX_MANTISSA as int) <= m <= MAX_MANTISSA as int && #[trigger] at_scale(m, k) * b == a * unit()
}

/// `m * 10^k` aligned to a larger scale.
pub open spec fn aligned(m: int, from: nat, to: nat) -> int {
    m * pow10((to - from) as nat)
}

pub open spec fn abs_int(x: int) -> int {
    if x < 0 {
        -x
    } else {
        x
    }
}

pub open spec fn max_nat(a: nat, b: nat) -> nat {
    if a >= b {
        a
    } else {
        b
    }
}

pub proof fn lemma_pow10_add(a: nat, b: nat)
    ensures
        pow10(a + b) == pow10(a) * pow10(b),
    decreases a,
{
    if a > 0 {
        lemma_pow10_add((a - 1) as nat, b);
        assert(pow10(a + b) == 10 * pow10((a - 1 + b) as nat));
        vstd::arithmetic::mul::lemma_mul_is_associative(10, pow10((a - 1) as nat), pow10(b));
    }
}

proof fn lemma_pow10_at_least_one(n: nat)
    ensures
        pow10(n) >= 1,
    decreases n,
{
    if n > 0 {
        lemma_pow10_at_least_one((n - 1) as nat);
    }
}

/// A value in units rounded to whole cents, halves away from zero.
pub open spec fn cents(u: int) -> int {
    div_round_half_away(u, pow10(26)) * pow10(26)
}

proof fn lemma_round_exact_multiple(k: int, d: int)
    requires
        d > 0,
    ensures
        div_round_half_away(k * d, d) == k,
{
    let h = d / 2;
    assert(0 <= h < d);
    if k * d >= 0 {
        vstd::arithmetic::div_mod::lemma_fundamental_div_mod_converse(k * d + h, d, k, h);
    } else {
        assert(-(k * d) == (-k) * d) by (nonlinear_arith);
        vstd::arithmetic::div_mod::lemma_fundamental_div_mod_converse(-(k * d) + h, d, -k, h);
    }
}

proof fn lemma_div_cancel(a: int, d: int, q: int)
    requires
        a >= 0,
        d > 0,
        q > 0,
    ensures
        (a * q) / (d * q) == a / d,
{
    let t = a / d;
    let r = a % d;
    vstd::arithmetic::div_mod::lemma_fundamental_div_mod(a, d);
    assert(a * q == t * (d * q) + r * q) by (nonlinear_arith)
        requires
            a == d * t + r,
    ;
    assert(0 <= r * q < d * q) by (nonlinear_arith)
        requires
            0 <= r < d,
            q > 0,
    ;
    vstd::arithmetic::div_mod::lemma_fundamental_div_mod_converse(a * q, d * q, t, r * q);
}

proof fn lemma_round_scaled(m: int, d: int, q: int)
    requires
        d > 0,
        d % 2 == 0,
        q > 0,
    ensures
        div_round_half_away(m * q, d * q) == div_round_half_away(m, d),
{
    assert((d * q) / 2 == (d / 2) * q) by (nonlinear_arith)
        requires
            d % 2 == 0,
    ;
    let h = d / 2;
    assert(h >= 0);
    if m >= 0 {
        assert(m * q >= 0) by (nonlinear_arith)
            requires
                m >= 0,
                q > 0,
        ;
        assert(m * q + h * q == (m + h) * q) by (nonlinear_arith);
        lemma_div_cancel(m + h, d, q);
    } else {
        assert(m * q < 0) by (nonlinear_arith)
            requires
                m < 0,
                q > 0,
        ;
        assert(-(m * q) + h * q == (-m + h) * q) by (nonlinear_arith);
        lemma_div_cancel(-m + h, d, q);
    }
}

/// Rounding to two fractional digits, as `round_dp` does it, rounds the value to whole cents.
pub proof fn lemma_round_cents(x: Decimal, r: Decimal)
    requires
        x.exp() <= 28,
        x.exp() <= 2 ==> r == x,
        x.exp() > 2 ==> r.exp() == 2 && r.mant() == div_round_half_away(x.mant(), pow10((x.exp() - 2) as nat)),
    ensures
        r.units() == cents(x.units()),
{
    let e = x.exp();
    let c = pow10(26);
    lemma_pow10_at_least_one(26);
    if e <= 2 {
        lemma_pow10_add((2 - e) as nat, 26);
        assert(((2 - e) as nat + 26) as nat == (28 - e) as nat);
        let k = x.mant() * pow10((2 - e) as nat);
        assert(x.units() == k * c) by {
            vstd::arithmetic::mul::lemma_mul_is_associative(x.mant(), pow10((2 - e) as nat), c);
        }
        lemma_round_exact_multiple(k, c);
    } else {
        let d = pow10((e - 2) as nat);
        let q = pow10((28 - e) as nat);
        lemma_pow10_add((e - 2) as nat, (28 - e) as nat);
        assert(((e - 2) as nat + (28 - e) as nat) as nat == 26);
        lemma_pow10_at_least_one((28 - e) as nat);
        lemma_pow10_at_least_one((e - 3) as nat);
        assert(d == 10 * pow10((e - 3) as nat));
        assert(d % 2 == 0) by (nonlinear_arith)
            requires
                d == 10 * pow10((e - 3) as nat),
        ;
        lemma_round_scaled(x.mant(), d, q);
        assert(d * q == c);
    }
}

/// A number of at most 10^18 with at most ten fractional digits has a mantissa of at most 10^28.
pub proof fn lemma_small_mantissa(x: Decimal)
    requires
        is_small(x),
    ensures
        -10_000_000_000_000_000_000_000_000_000 <= x.mant() <= 10_000_000_000_000_000_000_000_000_000,
{
    let e = (10 - x.exp()) as nat;
    lemma_pow10_add(18, e);
    lemma_pow10_at_least_one(e);
    reveal_with_fuel(pow10, 19);
    assert(pow10(18) == 1_000_000_000_000_000_000);
    assert((28 - x.exp()) as nat == 18 + e);
    let q = pow10((28 - x.exp()) as nat);
    let m = x.mant();
    let big = 10_000_000_000_000_000_000_000_000_000int;
    let f = 1_000_000_000_000_000_000int;
    if m > big {
        assert(m * q > big * f) by (nonlinear_arith)
            requires
                m > big,
                q >= f,
                f > 0,
                big > 0,
        ;
    }
    if m < -big {
        assert(m * q < -big * f) by (nonlinear_arith)
            requires
                m < -big,
                q >= f,
                f > 0,
                big > 0,
        ;
    }
}

/// The difference of two numbers with at most ten fractional digits, when it is at most
/// 5 * 10^18 in magnitude, fits at the larger scale, so `rust_decimal` subtracts them exactly.
pub proof fn lemma_difference_representable(a: Decimal, b: Decimal)
    requires
        a.exp() <= 10,
        b.exp() <= 10,
        -5 * small_bound() <= a.units() - b.units() <= 5 * small_bound(),
    ensures
        representable(
            aligned(a.mant(), a.exp(), max_nat(a.exp(), b.exp())) - aligned(b.mant(), b.exp(), max_nat(a.exp(), b.exp())),
            max_nat(a.exp(), b.exp()) as int,
        ),
{
    let m = max_nat(a.exp(), b.exp());
    let q = pow10((28 - m) as nat);
    lemma_pow10_add((m - a.exp()) as nat, (28 - m) as nat);
    lemma_pow10_add((m - b.exp()) as nat, (28 - m) as nat);
    lemma_pow10_add(18, (10 - m) as nat);
    lemma_pow10_at_least_one((10 - m) as nat);
    reveal_with_fuel(pow10, 19);
    assert(pow10(18) == 1_000_000_000_000_000_000);
    let pa = pow10((m - a.exp()) as nat);
    let pb = pow10((m - b.exp()) as nat);
    assert(a.units() == a.mant() * pa * q) by {
        vstd::arithmetic::mul::lemma_mul_is_associative(a.mant(), pa, q);
    }
    assert(b.units() == b.mant() * pb * q) by {
        vstd::arithmetic::mul::lemma_mul_is_associative(b.mant(), pb, q);
    }
    let d = a.mant() * pa - b.mant() * pb;
    assert(d * q == a.units() - b.units()) by (nonlinear_arith)
        requires
            a.units() == a.mant() * pa * q,
            b.units() == b.mant() * pb * q,
            d == a.mant() * pa - b.mant() * pb,
    ;
    let e = 1_000_000_000_000_000_000int;
    if d > 5_000_000_000_000_000_000_000_000_000 {
        assert(d * q >= d * e) by (nonlinear_arith)
            requires
                q >= e,
                d > 0,
        ;
    }
    if d < -5_000_000_000_000_000_000_000_000_000 {
        assert(d * q <= d * e) by (nonlinear_arith)
            requires
                q >= e,
                d < 0,
        ;
    }
}

pub proof fn lemma_pow10_28()
    ensures
        pow10(28) == unit(),
{
    reveal_with_fuel(pow10, 29);
}

#[derive(Clone, Copy, Debug)]
pub struct Decimal {
    mantissa: i128,
    scale: u32,
}

impl Decimal {
    #[verifier::type_invariant]
    pub closed spec fn valid(self) -> bool {
        representable(self.mantissa as int, self.scale as int)
    }

    /// A value that the representation holds lies within `(2^96 - 1) * 10^28` units of zero.
    pub proof fn lemma_valid_units(self)
        requires
            self.valid(),
        ensures
            -(MAX_MANTISSA as int) * unit() <= self.units() <= (MAX_MANTISSA as int) * unit(),
    {
        let e = (28 - self.scale) as nat;
        lemma_pow10_add(e, self.scale as nat);
        Self::lemma_pow10_positive(self.scale as nat);
        Self::lemma_pow10_positive(e);
        lemma_pow10_28();
        let m = self.mantissa as int;
        let p = pow10(e);
        let q = pow10(self.scale as nat);
        assert(-(MAX_MANTISSA as int) * (p * q) <= m * p <= (MAX_MANTISSA as int) * (p * q)) by (nonlinear_arith)
            requires
                -(MAX_MANTISSA as int) <= m <= MAX_MANTISSA as int,
                p >= 1,
                q >= 1,
        ;
    }

    /// The mantissa.
    pub closed spec fn mant(self) -> int {
        self.mantissa as int
    }

    /// The scale (number of fractional digits).
    pub closed spec fn exp(self) -> nat {
        self.scale as nat
    }

    /// The value in units of 10^-28.
    pub open spec fn units(self) -> int {
        self.mant() * pow10((28 - self.exp()) as nat)
    }

    /// The decimal with the given mantissa and scale.
    pub closed spec fn from_pair(p: (int, nat)) -> Decimal {
        Decimal { mantissa: p.0 as i128, scale: p.1 as u32 }
    }

    /// The decimal `m * 10^-s`.
    pub closed spec fn spec_new(m: int, s: nat) -> Decimal {
        Decimal { mantissa: m as i128, scale: s as u32 }
    }

    /// Zero with scale zero (`dec!(0)`).
    pub closed spec fn spec_zero() -> Decimal {
        Decimal { mantissa: 0, scale: 0 }
    }

    /// A number of at most 10^18 in magnitude, rounded to cents, has at most two fractional digits
    /// and can be written with exactly two.
    pub proof fn lemma_cents_rescalable(self)
        requires
            self.exp() <= 28,
            -small_bound() <= self.units() <= small_bound(),
        ensures
            self.spec_round_dp(2).exp() <= 2,
            representable(
                aligned(self.spec_round_dp(2).mant(), self.spec_round_dp(2).exp(), 2),
                2,
            ),
    {
        let m = self.mantissa as int;
        let e = self.scale as nat;
        let u = self.units();
        assert(pow10(26) == 100_000_000_000_000_000_000_000_000) by {
            reveal_with_fuel(pow10, 27);
        }
        if e <= 2 {
            let p = pow10((2 - e) as nat);
            lemma_pow10_add((2 - e) as nat, 26);
            assert(((2 - e) as nat + 26) as nat == (28 - e) as nat);
            vstd::arithmetic::mul::lemma_mul_is_associative(m, p, pow10(26));
            let a = m * p;
            assert(-100_000_000_000_000_000_000 <= a <= 100_000_000_000_000_000_000) by (nonlinear_arith)
                requires
                    a * 100_000_000_000_000_000_000_000_000 == u,
                    -1_000_000_000_000_000_000 * 10_000_000_000_000_000_000_000_000_000 <= u
                        <= 1_000_000_000_000_000_000 * 10_000_000_000_000_000_000_000_000_000,
            ;
            assert(aligned(m, e, 2) == a);
        } else {
            let d = pow10((e - 2) as nat);
            let p = pow10((28 - e) as nat);
            Self::lemma_pow10_positive((e - 2) as nat);
            Self::lemma_pow10_positive((28 - e) as nat);
            lemma_pow10_add((28 - e) as nat, (e - 2) as nat);
            assert(((28 - e) as nat + (e - 2) as nat) as nat == 26);
            let q = div_round_half_away(m, d);
            assert(-100_000_000_000_000_000_001 <= q <= 100_000_000_000_000_000_001) by (nonlinear_arith)
                requires
                    d >= 1,
                    p >= 1,
                    p * d == 100_000_000_000_000_000_000_000_000,
                    m * p == u,
                    -1_000_000_000_000_000_000 * 10_000_000_000_000_000_000_000_000_000 <= u
                        <= 1_000_000_000_000_000_000 * 10_000_000_000_000_000_000_000_000_000,
                    q == (if m >= 0 {
                        (m + d / 2) / d
                    } else {
                        -((-m + d / 2) / d)
                    }),
            {
                assert(-100_000_000_000_000_000_000 * d <= m <= 100_000_000_000_000_000_000 * d);
                assert(0 <= d / 2 <= d);
                if m >= 0 {
                    assert((m + d / 2) <= 100_000_000_000_000_000_001 * d);
                    assert((m + d / 2) / d <= 100_000_000_000_000_000_001);
                } else {
                    assert((-m + d / 2) <= 100_000_000_000_000_000_001 * d);
                    assert((-m + d / 2) / d <= 100_000_000_000_000_000_001);
                }
            }
            assert(pow10(0) == 1);
            assert(aligned(q, 2, 2) == q);
        }
    }

    /// A number of at most 10^18 in magnitude, rounded to four places, can be written with
    /// exactly four.
    pub proof fn lemma_four_places_rescalable(self)
        requires
            self.exp() <= 28,
            -small_bound() <= self.units() <= small_bound(),
        ensures
            self.spec_round_dp(4).exp() <= 4,
            representable(
                aligned(self.spec_round_dp(4).mant(), self.spec_round_dp(4).exp(), 4),
                4,
            ),
    {
        let m = self.mantissa as int;
        let e = self.scale as nat;
        let u = self.units();
        assert(pow10(24) == 1_000_000_000_000_000_000_000_000) by {
            reveal_with_fuel(pow10, 25);
        }
        if e <= 4 {
            let p = pow10((4 - e) as nat);
            lemma_pow10_add((4 - e) as nat, 24);
            assert(((4 - e) as nat + 24) as nat == (28 - e) as nat);
            vstd::arithmetic::mul::lemma_mul_is_associative(m, p, pow10(24));
            let a = m * p;
            assert(-10_000_000_000_000_000_000_000 <= a <= 10_000_000_000_000_000_000_000) by (nonlinear_arith)
                requires
                    a * 1_000_000_000_000_000_000_000_000 == u,
                    -1_000_000_000_000_000_000 * 10_000_000_000_000_000_000_000_000_000 <= u
                        <= 1_000_000_000_000_000_000 * 10_000_000_000_000_000_000_000_000_000,
            ;
            assert(aligned(m, e, 4) == a);
        } else {
            let d = pow10((e - 4) as nat);
            let p = pow10((28 - e) as nat);
            Self::lemma_pow10_positive((e - 4) as nat);
            Self::lemma_pow10_positive((28 - e) as nat);
            lemma_pow10_add((28 - e) as nat, (e - 4) as nat);
            assert(((28 - e) as nat + (e - 4) as nat) as nat == 24);
            let q = div_round_half_away(m, d);
            assert(-10_000_000_000_000_000_000_001 <= q <= 10_000_000_000_000_000_000_001) by (nonlinear_arith)
                requires
                    d >= 1,
                    p >= 1,
                    p * d == 1_000_000_000_000_000_000_000_000,
                    m * p == u,
                    -1_000_000_000_000_000_000 * 10_000_000_000_000_000_000_000_000_000 <= u
                        <= 1_000_000_000_000_000_000 * 10_000_000_000_000_000_000_000_000_000,
                    q == (if m >= 0 {
                        (m + d / 2) / d
                    } else {
                        -((-m + d / 2) / d)
                    }),
            {
                assert(-10_000_000_000_000_000_000_000 * d <= m <= 10_000_000_000_000_000_000_000 * d);
                assert(0 <= d / 2 <= d);
                if m >= 0 {
                    assert((m + d / 2) <= 10_000_000_000_000_000_000_001 * d);
                    assert((m + d / 2) / d <= 10_000_000_000_000_000_000_001);
                } else {
                    assert((-m + d / 2) <= 10_000_000_000_000_000_000_001 * d);
                    assert((-m + d / 2) / d <= 10_000_000_000_000_000_000_001);
                }
            }
            assert(pow10(0) == 1);
            assert(aligned(q, 4, 4) == q);
        }
    }

    /// Rounding a non-negative `x / d` half up, scaled back by `p * d`, adds at most `p * d`.
    proof fn lemma_half_up_bound(x: int, d: int, p: int)
        requires
            x >= 0,
            d >= 1,
            p >= 1,
        ensures
            0 <= (x + d / 2) / d <= x,
            0 <= ((x + d / 2) / d) * (p * d) <= x * p + p * d,
    {
        let y = x + d / 2;
        let q = y / d;
        vstd::arithmetic::div_mod::lemma_fundamental_div_mod(y, d);
        vstd::arithmetic::div_mod::lemma_mod_bound(y, d);
        vstd::arithmetic::div_mod::lemma_div_pos_is_pos(y, d);
        assert(d * q <= y);
        vstd::arithmetic::mul::lemma_mul_inequality(1, d, x);
        vstd::arithmetic::mul::lemma_mul_is_distributive_add(d, x, 1);
        assert(y < d * (x + 1));
        if q > x {
            vstd::arithmetic::mul::lemma_mul_inequality(x + 1, q, d);
            vstd::arithmetic::mul::lemma_mul_is_commutative(d, q);
            vstd::arithmetic::mul::lemma_mul_is_commutative(d, x + 1);
        }
        vstd::arithmetic::mul::lemma_mul_inequality(d * q, y, p);
        vstd::arithmetic::mul::lemma_mul_is_associative(q, p, d);
        vstd::arithmetic::mul::lemma_mul_is_commutative(q, p);
        vstd::arithmetic::mul::lemma_mul_is_associative(p, q, d);
        vstd::arithmetic::mul::lemma_mul_is_commutative(p, d * q);
        assert(q * (p * d) == (d * q) * p);
        vstd::arithmetic::mul::lemma_mul_is_distributive_add_other_way(p, x, d / 2);
        assert(y * p == x * p + (d / 2) * p);
        vstd::arithmetic::mul::lemma_mul_inequality(d / 2, d, p);
        vstd::arithmetic::mul::lemma_mul_is_commutative(d, p);
        vstd::arithmetic::mul::lemma_mul_nonnegative(q, p * d);
    }

    /// Rounding to cents moves a number by less than one cent.
    #[verifier::spinoff_prover]
    #[verifier::rlimit(30)]
    pub proof fn lemma_round_two_places_bound(self)
        requires
            self.exp() <= 28,
        ensures
            abs_int(self.spec_round_dp(2).units()) <= abs_int(self.units()) + unit() / 100,
    {
        let m = self.mantissa as int;
        let e = self.scale as nat;
        if e > 2 {
            let d = pow10((e - 2) as nat);
            let p = pow10((28 - e) as nat);
            Self::lemma_pow10_positive((e - 2) as nat);
            Self::lemma_pow10_positive((28 - e) as nat);
            lemma_pow10_add((28 - e) as nat, (e - 2) as nat);
            assert(((28 - e) as nat + (e - 2) as nat) as nat == 26);
            assert(pow10(26) == 100_000_000_000_000_000_000_000_000) by {
                reveal_with_fuel(pow10, 27);
            }
            assert(pow10((28 - 2) as nat) == pow10(26));
            let q = div_round_half_away(m, d);
            if m >= 0 {
                Self::lemma_half_up_bound(m, d, p);
            } else {
                Self::lemma_half_up_bound(-m, d, p);
                vstd::arithmetic::mul::lemma_mul_unary_negation(-q, p * d);
                vstd::arithmetic::mul::lemma_mul_unary_negation(-m, p);
            }
            let r = self.spec_round_dp(2);
            assert(r.mant() == q);
            assert(r.exp() == 2);
            assert(r.units() == q * pow10(26));
            assert(self.units() == m * p);
            assert(unit() / 100 == pow10(26));
        }
    }

    /// Zero is zero units.
    pub proof fn lemma_spec_zero()
        ensures
            Decimal::spec_zero().units() == 0,
            Decimal::spec_zero().mant() == 0,
            Decimal::spec_zero().exp() == 0,
    {
    }

    pub open spec fn is_zero_spec(self) -> bool {
        self.units() == 0
    }

    pub open spec fn spec_add(self, other: Decimal) -> Decimal {
        Decimal::from_pair(decimal_sum(self.mant(), self.exp(), other.mant(), other.exp()))
    }

    pub open spec fn spec_sub(self, other: Decimal) -> Decimal {
        Decimal::from_pair(decimal_difference(self.mant(), self.exp(), other.mant(), other.exp()))
    }

    pub open spec fn spec_mul(self, other: Decimal) -> Decimal {
        Decimal::from_pair(decimal_product(self.mant(), self.exp(), other.mant(), other.exp()))
    }

    pub open spec fn spec_div(self, other: Decimal) -> Decimal {
        Decimal::from_pair(decimal_quotient(self.mant(), self.exp(), other.mant(), other.exp()))
    }

    pub closed spec fn spec_neg(self) -> Decimal {
        Decimal { mantissa: (-self.mantissa) as i128, scale: self.scale }
    }

    pub open spec fn spec_abs(self) -> Decimal {
        if self.units() < 0 {
            self.spec_neg()
        } else {
            self
        }
    }

    /// `std`'s `min`: the first operand unless the second is strictly smaller.
    pub open spec fn spec_min(self, other: Decimal) -> Decimal {
        if other.units() < self.units() {
            other
        } else {
            self
        }
    }

    /// `std`'s `max`: the second operand unless the first is strictly larger.
    pub open spec fn spec_max(self, other: Decimal) -> Decimal {
        if other.units() < self.units() {
            self
        } else {
            other
        }
    }

    /// Sign of a number as `1` / `-1` (zero counts as positive).
    pub closed spec fn spec_signum(self) -> Decimal {
        if self.units() >= 0 {
            Decimal { mantissa: 1, scale: 0 }
        } else {
            Decimal { mantissa: -1i128, scale: 0 }
        }
    }

    /// The text of the number as `rust_decimal` prints it.
    pub open spec fn text(self) -> Seq<char> {
        decimal_text(self.mant(), self.exp())
    }

    /// The number rounded to `dp` fractional digits, halves away from zero.
    pub closed spec fn spec_round_dp(self, dp: nat) -> Decimal {
        if self.scale <= dp {
            self
        } else {
            Decimal {
                mantissa: div_round_half_away(
                    self.mantissa as int,
                    pow10((self.scale - dp) as nat),
                ) as i128,
                scale: dp as u32,
            }
        }
    }

    /// The same value written with `s` fractional digits (`s` not below the current scale).
    pub closed spec fn spec_rescaled_up(self, s: nat) -> Decimal {
        Decimal { mantissa: aligned(self.mantissa as int, self.scale as nat, s) as i128, scale: s as u32 }
    }

    proof fn lemma_pow10_positive(n: nat)
        ensures
            pow10(n) >= 1,
        decreases n,
    {
        if n > 0 {
            Self::lemma_pow10_positive((n - 1) as nat);
        }
    }

    /// The decimal `m * 10^-s` (`rust_decimal::Decimal::new`).
    pub fn new(m: i64, s: u32) -> (r: Decimal)
        requires
            s <= 28,
        ensures
            r == Decimal::spec_new(m as int, s as nat),
            r.mant() == m,
            r.exp() == s,
    {
        Decimal { mantissa: m as i128, scale: s }
    }

    /// Zero with scale zero.
    pub fn zero() -> (r: Decimal)
        ensures
            r == Decimal::spec_zero(),
            r.mant() == 0,
            r.exp() == 0,
            r.units() == 0,
    {
        Decimal { mantissa: 0, scale: 0 }
    }

    pub fn mantissa(&self) -> (r: i128)
        ensures
            r == self.mant(),
            -(MAX_MANTISSA as int) <= r <= MAX_MANTISSA,
    {
        proof {
            use_type_invariant(self);
        }
        self.mantissa
    }

    pub fn scale(&self) -> (r: u32)
        ensures
            r == self.exp(),
            r <= 28,
    {
        proof {
            use_type_invariant(self);
        }
        self.scale
    }

    pub fn is_zero(&self) -> (r: bool)
        ensures
            r == (self.units() == 0),
            r == (self.mant() == 0),
    {
        proof {
            use_type_invariant(self);
            Self::lemma_pow10_positive((28 - self.scale) as nat);
            vstd::arithmetic::mul::lemma_mul_nonzero(
                self.mantissa as int,
                pow10((28 - self.scale) as nat),
            );
        }
        self.mantissa == 0
    }

    /// Whether the number is not negative (the representation has no negative zero).
    pub fn is_sign_positive(&self) -> (r: bool)
        ensures
            r == (self.units() >= 0),
    {
        proof {
            use_type_invariant(self);
            Self::lemma_pow10_positive((28 - self.scale) as nat);
            if self.mantissa > 0 {
                vstd::arithmetic::mul::lemma_mul_strict_inequality(
                    0,
                    self.mantissa as int,
                    pow10((28 - self.scale) as nat),
                );
            } else if self.mantissa < 0 {
                vstd::arithmetic::mul::lemma_mul_strict_inequality(
                    self.mantissa as int,
                    0,
                    pow10((28 - self.scale) as nat),
                );
            }
        }
        self.mantissa >= 0
    }

    /// Whether the number is greater than zero.
    pub fn is_positive(&self) -> (r: bool)
        ensures
            r == (self.units() > 0),
            r == (self.mant() > 0),
    {
        proof {
            use_type_invariant(self);
            Self::lemma_pow10_positive((28 - self.scale) as nat);
            if self.mantissa > 0 {
                vstd::arithmetic::mul::lemma_mul_strict_inequality(
                    0,
                    self.mantissa as int,
                    pow10((28 - self.scale) as nat),
                );
            } else if self.mantissa < 0 {
                vstd::arithmetic::mul::lemma_mul_strict_inequality(
                    self.mantissa as int,
                    0,
                    pow10((28 - self.scale) as nat),
                );
            }
        }
        self.mantissa > 0
    }

    pub fn neg(&self) -> (r: Decimal)
        ensures
            r == self.spec_neg(),
            r.units() == -self.units(),
            r.exp() == self.exp(),
    {
        proof {
            use_type_invariant(self);
            vstd::arithmetic::mul::lemma_mul_unary_negation(
                self.mantissa as int,
                pow10((28 - self.scale) as nat),
            );
        }
        Decimal { mantissa: -self.mantissa, scale: self.scale }
    }

    pub fn abs(&self) -> (r: Decimal)
        ensures
            r == self.spec_abs(),
            r.units() >= 0,
            r.exp() == self.exp(),
            r.units() == if self.units() < 0 { -self.units() } else { self.units() },
    {
        if self.is_sign_positive() {
            *self
        } else {
            self.neg()
        }
    }

    /// `1` for a number that is not negative, `-1` otherwise.
    pub fn signum(&self) -> (r: Decimal)
        ensures
            r == self.spec_signum(),
            r.mant() == if self.units() >= 0 { 1int } else { -1int },
            r.exp() == 0,
            r.units() == if self.units() >= 0 { unit() } else { -unit() },
    {
        proof {
            lemma_pow10_28();
        }
        if self.is_sign_positive() {
            Decimal { mantissa: 1, scale: 0 }
        } else {
            Decimal { mantissa: -1, scale: 0 }
        }
    }

    /// `rust_decimal`'s `<`, which compares values.
    #[verifier::external_body]
    pub fn lt(&self, other: &Decimal) -> (r: bool)
        ensures
            r == (self.units() < other.units()),
    {
        let a = rust_decimal::Decimal::from_i128_with_scale(self.mantissa, self.scale);
        let b = rust_decimal::Decimal::from_i128_with_scale(other.mantissa, other.scale);
        a < b
    }

    /// `rust_decimal`'s `==`, which compares values (`1.50 == 1.5`).
    #[verifier::external_body]
    pub fn eq_value(&self, other: &Decimal) -> (r: bool)
        ensures
            r == (self.units() == other.units()),
    {
        let a = rust_decimal::Decimal::from_i128_with_scale(self.mantissa, self.scale);
        let b = rust_decimal::Decimal::from_i128_with_scale(other.mantissa, other.scale);
        a == b
    }

    pub fn le(&self, other: &Decimal) -> (r: bool)
        ensures
            r == (self.units() <= other.units()),
    {
        !other.lt(self)
    }

    /// The smaller of two numbers; the first one when they are equal.
    pub fn min(&self, other: &Decimal) -> (r: Decimal)
        ensures
            r == self.spec_min(*other),
    {
        if other.lt(self) {
            *other
        } else {
            *self
        }
    }

    /// The larger of two numbers; the second one when they are equal.
    pub fn max(&self, other: &Decimal) -> (r: Decimal)
        ensures
            r == self.spec_max(*other),
    {
        if other.lt(self) {
            *self
        } else {
            *other
        }
    }

    /// `rust_decimal`'s `+`. The sum is exact when it fits at the larger scale.
    #[verifier::external_body]
    pub fn add(&self, other: &Decimal) -> (r: Decimal)
        requires
            in_range(self.units() + other.units()),
        ensures
            r == self.spec_add(*other),
            (r.mant(), r.exp()) == decimal_sum(self.mant(), self.exp(), other.mant(), other.exp()),
            representable(
                aligned(self.mant(), self.exp(), max_nat(self.exp(), other.exp()))
                    + aligned(other.mant(), other.exp(), max_nat(self.exp(), other.exp())),
                max_nat(self.exp(), other.exp()) as int,
            ) ==> r.units() == self.units() + other.units(),
            is_small(*self) && is_small(*other) && -small_bound() <= self.units() + other.units()
                <= small_bound() ==> r.units() == self.units() + other.units() && r.exp() <= 10,
            -unit() <= r.units() - (self.units() + other.units()) <= unit(),
    {
        let a = rust_decimal::Decimal::from_i128_with_scale(self.mantissa, self.scale);
        let b = rust_decimal::Decimal::from_i128_with_scale(other.mantissa, other.scale);
        let c = a + b;
        Decimal { mantissa: c.mantissa(), scale: c.scale() }
    }

    /// `rust_decimal`'s `-`. The difference is exact when it fits at the larger scale; the
    /// difference of two equal values is zero.
    #[verifier::external_body]
    pub fn sub(&self, other: &Decimal) -> (r: Decimal)
        requires
            in_range(self.units() - other.units()),
        ensures
            r == self.spec_sub(*other),
            (r.mant(), r.exp()) == decimal_difference(
                self.mant(),
                self.exp(),
                other.mant(),
                other.exp(),
            ),
            representable(
                aligned(self.mant(), self.exp(), max_nat(self.exp(), other.exp()))
                    - aligned(other.mant(), other.exp(), max_nat(self.exp(), other.exp())),
                max_nat(self.exp(), other.exp()) as int,
            ) ==> r.units() == self.units() - other.units(),
            self.units() == other.units() ==> r.units() == 0,
            is_small(*self) && is_small(*other) && -small_bound() <= self.units() - other.units()
                <= small_bound() ==> r.units() == self.units() - other.units() && r.exp() <= 10,
            -unit() <= r.units() - (self.units() - other.units()) <= unit(),
    {
        let a = rust_decimal::Decimal::from_i128_with_scale(self.mantissa, self.scale);
        let b = rust_decimal::Decimal::from_i128_with_scale(other.mantissa, other.scale);
        let c = a - b;
        Decimal { mantissa: c.mantissa(), scale: c.scale() }
    }

    /// `rust_decimal`'s `*`. When the mantissa product and the scale sum fit, the product is that
    /// mantissa at that scale; a zero operand gives a zero of scale 0.
    #[verifier::external_body]
    pub fn mul(&self, other: &Decimal) -> (r: Decimal)
        requires
            in_range(self.units() * other.units() / unit()),
        ensures
            r == self.spec_mul(*other),
            (r.mant(), r.exp()) == decimal_product(
                self.mant(),
                self.exp(),
                other.mant(),
                other.exp(),
            ),
            representable(self.mant() * other.mant(), (self.exp() + other.exp()) as int) ==> r.units()
                * unit() == self.units() * other.units(),
            self.mant() * other.mant() != 0 && representable(
                self.mant() * other.mant(),
                (self.exp() + other.exp()) as int,
            ) ==> r.mant() == self.mant() * other.mant() && r.exp() == self.exp() + other.exp(),
            self.mant() * other.mant() == 0 ==> r.mant() == 0 && r.exp() == 0,
            self.exp() == 0 && (self.mant() == 1 || self.mant() == -1) && is_small(*other) ==> r.units()
                == self.mant() * other.units() && r.exp() <= 10,
            -(unit() * unit()) <= r.units() * unit() - self.units() * other.units() <= unit()
                * unit(),
    {
        let a = rust_decimal::Decimal::from_i128_with_scale(self.mantissa, self.scale);
        let b = rust_decimal::Decimal::from_i128_with_scale(other.mantissa, other.scale);
        let c = a * b;
        Decimal { mantissa: c.mantissa(), scale: c.scale() }
    }

    /// `rust_decimal`'s `/`: the exact quotient where the representation holds it, otherwise the
    /// quotient rounded within one unit of its last place.
    #[verifier::external_body]
    pub fn div(&self, other: &Decimal) -> (r: Decimal)
        requires
            other.units() != 0,
            in_range(self.units() * unit() / other.units()),
            in_range(-self.units() * unit() / other.units()),
        ensures
            r == self.spec_div(*other),
            (r.mant(), r.exp()) == decimal_quotient(
                self.mant(),
                self.exp(),
                other.mant(),
                other.exp(),
            ),
            -(abs_int(other.units()) * unit()) <= r.units() * other.units() - self.units() * unit()
                <= abs_int(other.units()) * unit(),
            -(abs_int(other.units()) * pow10((28 - r.exp()) as nat)) <= r.units() * other.units() - self.units()
                * unit() <= abs_int(other.units()) * pow10((28 - r.exp()) as nat),
            representable_quotient(self.units(), other.units()) ==> r.units() * other.units() == self.units()
                * unit(),
    {
        let a = rust_decimal::Decimal::from_i128_with_scale(self.mantissa, self.scale);
        let b = rust_decimal::Decimal::from_i128_with_scale(other.mantissa, other.scale);
        let c = a / b;
        Decimal { mantissa: c.mantissa(), scale: c.scale() }
    }

    /// `rust_decimal`'s `round_dp_with_strategy(dp, MidpointAwayFromZero)`: a number with at most
    /// `dp` fractional digits is returned as it is, any other is rounded to `dp` digits, halves
    /// away from zero.
    #[verifier::external_body]
    pub fn round_dp(&self, dp: u32) -> (r: Decimal)
        requires
            dp <= 28,
        ensures
            r == self.spec_round_dp(dp as nat),
            self.exp() <= dp ==> r == *self,
            self.exp() > dp ==> r.exp() == dp && r.mant() == div_round_half_away(
                self.mant(),
                pow10((self.exp() - dp) as nat),
            ),
    {
        let a = rust_decimal::Decimal::from_i128_with_scale(self.mantissa, self.scale);
        let c = a.round_dp_with_strategy(dp, rust_decimal::RoundingStrategy::MidpointAwayFromZero);
        Decimal { mantissa: c.mantissa(), scale: c.scale() }
    }

    /// `rust_decimal`'s `rescale` to a scale not below the current one: the same value written
    /// with `s` fractional digits.
    #[verifier::external_body]
    pub fn rescale_up(&self, s: u32) -> (r: Decimal)
        requires
            self.exp() <= s <= 28,
            representable(aligned(self.mant(), self.exp(), s as nat), s as int),
        ensures
            r == self.spec_rescaled_up(s as nat),
            r.mant() == aligned(self.mant(), self.exp(), s as nat),
            r.exp() == s,
    {
        let mut c = rust_decimal::Decimal::from_i128_with_scale(self.mantissa, self.scale);
        c.rescale(s);
        Decimal { mantissa: c.mantissa(), scale: c.scale() }
    }

    /// The same value without trailing fractional zeros: the one representation of a value whose
    /// mantissa does not end in a zero unless the scale is zero.
    pub open spec fn is_normal_form_of(r: Decimal, d: Decimal) -> bool {
        &&& r.units() == d.units()
        &&& r.exp() <= d.exp()
        &&& r.exp() > 0 ==> r.mant() % 10 != 0
        &&& r.mant() == 0 ==> r.exp() == 0
    }

    pub open spec fn spec_normalized(self) -> Decimal {
        choose|r: Decimal| Decimal::is_normal_form_of(r, self)
    }

    /// `rust_decimal`'s `normalize`: the same value without trailing fractional zeros.
    #[verifier::external_body]
    pub fn normalize(&self) -> (r: Decimal)
        ensures
            r == self.spec_normalized(),
            r.units() == self.units(),
            r.exp() <= self.exp(),
            r.exp() > 0 ==> r.mant() % 10 != 0,
            r.mant() == 0 ==> r.exp() == 0,
    {
        let c = rust_decimal::Decimal::from_i128_with_scale(self.mantissa, self.scale).normalize();
        Decimal { mantissa: c.mantissa(), scale: c.scale() }
    }

    /// The text of the number, as `rust_decimal` prints it (`-12.50`).
    #[verifier::external_body]
    pub fn to_text(&self) -> (r: String)
        ensures
            r@ == decimal_text(self.mant(), self.exp()),
    {
        rust_decimal::Decimal::from_i128_with_scale(self.mantissa, self.scale).to_string()
    }

    /// `rust_decimal::Decimal::from_str_exact`: the number a text denotes, or `None`.
    #[verifier::external_body]
    pub fn parse(text: &str) -> (r: Option<Decimal>)
        ensures
            r matches Some(d) ==> decimal_parse(text@) == Some((d.mant(), d.exp())),
            r is None ==> decimal_parse(text@) is None,
    {
        match rust_decimal::Decimal::from_str_exact(text) {
            Ok(c) => Some(Decimal { mantissa: c.mantissa(), scale: c.scale() }),
            Err(_) => None,
        }
    }
}

impl PartialEq for Decimal {
    fn eq(&self, other: &Decimal) -> (r: bool) {
        self.eq_value(other)
    }
}

impl vstd::std_specs::cmp::PartialEqSpecImpl for Decimal {
    open spec fn obeys_eq_spec() -> bool {
        true
    }

    open spec fn eq_spec(&self, other: &Decimal) -> bool {
        self.units() == other.units()
    }
}

} // verus!
