//! Exact fractions, and rounding them to whole numbers and to thousandths.
//!
//! A tie is rounded away from zero: 13.5 becomes 14, and -13.5 becomes -14.
use vstd::prelude::*;

verus! {

/// A fraction of two integers. It stands for a number when its denominator
/// is positive.
pub struct Ratio {
    pub num: int,
    pub den: int,
}

/// The whole number nearest to `num / den`, a tie going away from zero.
pub open spec fn round_half_away(num: int, den: int) -> int
    recommends
        den > 0,
{
    if num >= 0 {
        (2 * num + den) / (2 * den)
    } else {
        -((2 * (-num) + den) / (2 * den))
    }
}

impl Ratio {
    pub open spec fn valid(self) -> bool {
        self.den > 0
    }

    pub open spec fn whole(n: int) -> Ratio {
        Ratio { num: n, den: 1 }
    }

    pub open spec fn of(num: int, den: int) -> Ratio {
        Ratio { num, den }
    }

    pub open spec fn plus(self, other: Ratio) -> Ratio {
        Ratio { num: self.num * other.den + other.num * self.den, den: self.den * other.den }
    }

    pub open spec fn minus(self, other: Ratio) -> Ratio {
        Ratio { num: self.num * other.den - other.num * self.den, den: self.den * other.den }
    }

    pub open spec fn times(self, other: Ratio) -> Ratio {
        Ratio { num: self.num * other.num, den: self.den * other.den }
    }

    /// Whether two fractions stand for the same number.
    pub open spec fn same(self, other: Ratio) -> bool {
        self.num * other.den == other.num * self.den
    }

    /// Whether the fraction lies between 0 and `limit` hundredths, with a
    /// denominator of at most `den_limit`.
    pub open spec fn within(self, limit: int, den_limit: int) -> bool {
        &&& 0 < self.den <= den_limit
        &&& 0 <= self.num
        &&& 100 * self.num <= limit * self.den
    }

    /// The number in thousandths, rounded to the nearest thousandth.
    pub open spec fn round3(self) -> int {
        round_half_away(1000 * self.num, self.den)
    }
}

/// The quotient of a division is the one number `q` with
/// `q * d <= x < (q + 1) * d`.
pub proof fn lemma_quotient_is(x: int, d: int, q: int)
    by (nonlinear_arith)
    requires
        d > 0,
        q * d <= x < q * d + d,
    ensures
        x / d == q,
{
}

/// The bounds of a quotient.
pub proof fn lemma_quotient_bounds(x: int, d: int)
    by (nonlinear_arith)
    requires
        d > 0,
    ensures
        (x / d) * d <= x < (x / d) * d + d,
{
}

/// The rounded value is a nearest whole number: it is at most one half away
/// from the fraction.
pub proof fn lemma_round_is_nearest(num: int, den: int)
    requires
        den > 0,
    ensures
        ({
            let r = round_half_away(num, den);
            -den <= 2 * (num - r * den) <= den
        }),
{
    let r = round_half_away(num, den);
    if num >= 0 {
        lemma_quotient_bounds(2 * num + den, 2 * den);
        assert(r * (2 * den) == 2 * (r * den)) by (nonlinear_arith);
    } else {
        let q = (2 * (-num) + den) / (2 * den);
        lemma_quotient_bounds(2 * (-num) + den, 2 * den);
        assert(q * (2 * den) == 2 * (q * den)) by (nonlinear_arith);
        assert(r * den == -(q * den)) by (nonlinear_arith)
            requires
                r == -q,
        ;
    }
}

/// A whole number is its own rounding.
pub proof fn lemma_round_of_whole(n: int, den: int)
    requires
        den > 0,
    ensures
        round_half_away(n * den, den) == n,
{
    if n >= 0 {
        assert(n * den >= 0) by (nonlinear_arith)
            requires
                n >= 0,
                den > 0,
        ;
        assert(n * (2 * den) == 2 * (n * den)) by (nonlinear_arith);
        lemma_quotient_is(2 * (n * den) + den, 2 * den, n);
    } else {
        assert(n * den < 0) by (nonlinear_arith)
            requires
                n < 0,
                den > 0,
        ;
        assert((-n) * (2 * den) == 2 * (-(n * den))) by (nonlinear_arith);
        lemma_quotient_is(2 * (-(n * den)) + den, 2 * den, -n);
    }
}

/// Rounding to thousandths is idempotent: a number that is already a whole
/// count `m` of thousandths, `m / 1000`, rounds to `m` again. So rounding a
/// rounded value changes nothing.
pub proof fn lemma_round3_is_idempotent(x: Ratio)
    requires
        x.valid(),
    ensures
        Ratio::of(x.round3(), 1000).round3() == x.round3(),
{
    lemma_round_of_whole(x.round3(), 1000);
    assert(1000 * x.round3() == x.round3() * 1000) by (nonlinear_arith);
}

/// Adding a whole number before rounding, or after it, gives the same
/// result.
pub proof fn lemma_round3_plus_whole(x: Ratio, k: int)
    requires
        x.valid(),
        x.num >= 0,
        k >= 0,
    ensures
        x.plus(Ratio::whole(k)).round3() == x.round3() + 1000 * k,
{
    let y = x.plus(Ratio::whole(k));
    assert(y.num == x.num + k * x.den && y.den == x.den) by (nonlinear_arith)
        requires
            y.num == x.num * 1 + k * x.den,
            y.den == x.den * 1,
    ;
    assert(k * x.den >= 0) by (nonlinear_arith)
        requires
            k >= 0,
            x.den > 0,
    ;
    let q = x.round3();
    lemma_quotient_bounds(2 * (1000 * x.num) + x.den, 2 * x.den);
    assert(2 * (1000 * y.num) + y.den == 2 * (1000 * x.num) + x.den + (1000 * k) * (2 * x.den))
        by (nonlinear_arith)
        requires
            y.num == x.num + k * x.den,
            y.den == x.den,
    ;
    assert((q + 1000 * k) * (2 * x.den) == q * (2 * x.den) + (1000 * k) * (2 * x.den))
        by (nonlinear_arith);
    lemma_quotient_is(2 * (1000 * y.num) + y.den, 2 * y.den, q + 1000 * k);
}

/// Two fractions that stand for the same number round alike.
pub proof fn lemma_round3_of_same(x: Ratio, y: Ratio)
    requires
        x.valid(),
        y.valid(),
        x.num >= 0,
        x.same(y),
    ensures
        x.round3() == y.round3(),
{
    assert(y.num >= 0) by (nonlinear_arith)
        requires
            x.num * y.den == y.num * x.den,
            x.num >= 0,
            x.den > 0,
            y.den > 0,
    ;
    let q = x.round3();
    lemma_quotient_bounds(2 * (1000 * x.num) + x.den, 2 * x.den);
    // q * 2 * x.den <= 2000 * x.num + x.den < (q + 1) * 2 * x.den, and the
    // same bounds hold with y in place of x once both sides are scaled.
    assert(q * (2 * y.den) <= 2 * (1000 * y.num) + y.den < q * (2 * y.den) + 2 * y.den)
        by (nonlinear_arith)
        requires
            x.num * y.den == y.num * x.den,
            x.den > 0,
            y.den > 0,
            q * (2 * x.den) <= 2 * (1000 * x.num) + x.den < q * (2 * x.den) + 2 * x.den,
    ;
    lemma_quotient_is(2 * (1000 * y.num) + y.den, 2 * y.den, q);
}

/// Rounding to thousandths may round the whole part and the rest apart.
pub proof fn lemma_round3_splits(x: Ratio)
    requires
        x.valid(),
        x.num >= 0,
    ensures
        x.round3() == 1000 * (x.num / x.den) + (2 * (1000 * (x.num % x.den)) + x.den) / (2
            * x.den),
        0 <= (2 * (1000 * (x.num % x.den)) + x.den) / (2 * x.den) <= 1000,
        0 <= x.num % x.den < x.den,
        0 <= x.num / x.den,
{
    let q = x.num / x.den;
    let r = x.num % x.den;
    assert(x.num == q * x.den + r && 0 <= r < x.den && q >= 0) by (nonlinear_arith)
        requires
            x.den > 0,
            x.num >= 0,
            q == x.num / x.den,
            r == x.num % x.den,
    ;
    let t = (2 * (1000 * r) + x.den) / (2 * x.den);
    lemma_quotient_bounds(2 * (1000 * r) + x.den, 2 * x.den);
    assert(0 <= t <= 1000) by (nonlinear_arith)
        requires
            x.den > 0,
            0 <= r < x.den,
            t * (2 * x.den) <= 2 * (1000 * r) + x.den < t * (2 * x.den) + 2 * x.den,
    ;
    assert((1000 * q + t) * (2 * x.den) == 2 * (1000 * (q * x.den)) + t * (2 * x.den))
        by (nonlinear_arith);
    lemma_quotient_is(2 * (1000 * x.num) + x.den, 2 * x.den, 1000 * q + t);
}

/// The sum of two bounded fractions is bounded by the sum of the limits.
pub proof fn lemma_plus_within(a: Ratio, b: Ratio, la: int, lb: int, da: int, db: int)
    by (nonlinear_arith)
    requires
        a.within(la, da),
        b.within(lb, db),
    ensures
        a.plus(b).within(la + lb, da * db),
        100 * (a.num * b.den) <= la * (da * db),
        100 * (b.num * a.den) <= lb * (da * db),
{
}

/// The product of two bounded fractions is bounded by the product of the
/// limits, which are in hundredths: `limit` is a hundredth of `la * lb`.
pub proof fn lemma_times_within(
    a: Ratio,
    b: Ratio,
    la: int,
    lb: int,
    limit: int,
    da: int,
    db: int,
)
    requires
        a.within(la, da),
        b.within(lb, db),
        la * lb == 100 * limit,
    ensures
        a.times(b).within(limit, da * db),
{
    let n = a.num * b.num;
    let d = a.den * b.den;
    assert(0 < d <= da * db && n >= 0) by (nonlinear_arith)
        requires
            0 < a.den <= da,
            0 < b.den <= db,
            a.num >= 0,
            b.num >= 0,
            n == a.num * b.num,
            d == a.den * b.den,
    ;
    assert((100 * a.num) * (100 * b.num) <= (la * a.den) * (lb * b.den)) by (nonlinear_arith)
        requires
            0 <= 100 * a.num <= la * a.den,
            0 <= 100 * b.num <= lb * b.den,
    ;
    assert((100 * a.num) * (100 * b.num) == 100 * (100 * n)) by (nonlinear_arith)
        requires
            n == a.num * b.num,
    ;
    assert((la * a.den) * (lb * b.den) == 100 * (limit * d)) by (nonlinear_arith)
        requires
            la * lb == 100 * limit,
            d == a.den * b.den,
    ;
}

/// A bounded fraction is within any wider bounds.
pub proof fn lemma_within_widens(x: Ratio, limit: int, den_limit: int, wider: int, den_wider: int)
    by (nonlinear_arith)
    requires
        x.within(limit, den_limit),
        limit <= wider,
        den_limit <= den_wider,
    ensures
        x.within(wider, den_wider),
{
}

/// A fraction of at most `limit` hundredths rounds to at most ten times
/// `limit` thousandths.
pub proof fn lemma_round3_within(x: Ratio, limit: int, den_limit: int)
    requires
        x.within(limit, den_limit),
    ensures
        0 <= x.round3() <= 10 * limit,
        0 <= 100 * (x.num / x.den) <= limit,
{
    lemma_quotient_bounds(2 * (1000 * x.num) + x.den, 2 * x.den);
    lemma_quotient_bounds(x.num, x.den);
    let q = x.round3();
    let w = x.num / x.den;
    assert(0 <= q <= 10 * limit) by (nonlinear_arith)
        requires
            x.den > 0,
            0 <= x.num,
            100 * x.num <= limit * x.den,
            q * (2 * x.den) <= 2 * (1000 * x.num) + x.den < q * (2 * x.den) + 2 * x.den,
    ;
    assert(0 <= 100 * w <= limit) by (nonlinear_arith)
        requires
            x.den > 0,
            0 <= x.num,
            100 * x.num <= limit * x.den,
            w * x.den <= x.num < w * x.den + x.den,
    ;
}

/// An exact fraction of two machine integers.
#[derive(Debug, Clone, Copy, PartialEq, Eq, Structural)]
pub struct Fraction {
    pub num: u128,
    pub den: u128,
}

impl View for Fraction {
    type V = Ratio;

    open spec fn view(&self) -> Ratio {
        Ratio { num: self.num as int, den: self.den as int }
    }
}

impl Fraction {
    pub fn whole(n: u128) -> (f: Fraction)
        ensures
            f@ == Ratio::whole(n as int),
    {
        Fraction { num: n, den: 1 }
    }

    pub fn of(num: u128, den: u128) -> (f: Fraction)
        ensures
            f@ == Ratio::of(num as int, den as int),
    {
        Fraction { num, den }
    }

    pub fn plus(&self, other: &Fraction) -> (f: Fraction)
        requires
            self.num * other.den + other.num * self.den <= u128::MAX,
            self.den * other.den <= u128::MAX,
        ensures
            f@ == self@.plus(other@),
    {
        assert(self.num * other.den <= u128::MAX && other.num * self.den <= u128::MAX)
            by (nonlinear_arith)
            requires
                self.num * other.den + other.num * self.den <= u128::MAX,
        ;
        Fraction {
            num: self.num * other.den + other.num * self.den,
            den: self.den * other.den,
        }
    }

    pub fn times(&self, other: &Fraction) -> (f: Fraction)
        requires
            self.num * other.num <= u128::MAX,
            self.den * other.den <= u128::MAX,
        ensures
            f@ == self@.times(other@),
    {
        Fraction { num: self.num * other.num, den: self.den * other.den }
    }

    /// The fraction in thousandths, rounded to the nearest thousandth. The
    /// whole part and the rest are rounded apart, so that no intermediate is
    /// larger than 2001 times the denominator or than the result.
    pub fn round3(&self) -> (thousandths: u128)
        requires
            self.den > 0,
            2001 * self.den <= u128::MAX,
            1000 * (self.num / self.den) + 1000 <= u128::MAX,
        ensures
            thousandths == self@.round3(),
    {
        let whole: u128 = self.num / self.den;
        let rest: u128 = self.num % self.den;
        proof {
            lemma_round3_splits(self@);
        }
        1000 * whole + (2 * (1000 * rest) + self.den) / (2 * self.den)
    }
}

} // verus!
