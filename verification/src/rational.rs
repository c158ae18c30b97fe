use vstd::prelude::*;

verus! {

/// An exact rational number: a signed numerator over a positive denominator.
///
/// Aspect ratios and projection bounds are kept in this form so that the
/// geometric identities of the offset formulas hold exactly.
#[derive(Clone, Copy, Debug, PartialEq, Eq, Structural)]
pub struct Ratio {
    pub num: i64,
    pub den: i64,
}

/// The mathematical value of a `Ratio`: an unbounded fraction.
pub ghost struct Rat {
    pub num: int,
    pub den: int,
}

impl View for Ratio {
    type V = Rat;

    open spec fn view(&self) -> Rat {
        Rat { num: self.num as int, den: self.den as int }
    }
}

/// `a` and `b` denote the same rational: the cross products agree.
pub open spec fn rat_eq(a: Rat, b: Rat) -> bool {
    a.num * b.den == b.num * a.den
}

/// `a` denotes a smaller rational than `b`; meaningful when both
/// denominators are positive.
pub open spec fn rat_lt(a: Rat, b: Rat) -> bool {
    a.num * b.den < b.num * a.den
}

/// The sum of `a` and `b` as a fraction over the product denominator.
pub open spec fn rat_add(a: Rat, b: Rat) -> Rat {
    Rat { num: a.num * b.den + b.num * a.den, den: a.den * b.den }
}

/// The difference `a - b` as a fraction over the product denominator.
pub open spec fn rat_sub(a: Rat, b: Rat) -> Rat {
    Rat { num: a.num * b.den - b.num * a.den, den: a.den * b.den }
}

/// The integer `n` as a fraction.
pub open spec fn rat_int(n: int) -> Rat {
    Rat { num: n, den: 1 }
}

impl Ratio {
    /// The representation denotes a fraction: the denominator is positive.
    pub open spec fn wf(self) -> bool {
        self.den > 0
    }

    /// A positive fraction whose parts are small enough that doubling and
    /// adding them stays within 64 bits, as the offset formulas do. Every
    /// aspect ratio built from window dimensions is far below the limit.
    pub open spec fn bounded(self) -> bool {
        &&& 1 <= self.num <= i64::MAX / 2
        &&& 1 <= self.den <= i64::MAX / 2
    }

    pub fn new(num: i64, den: i64) -> (r: Ratio)
        requires
            den > 0,
        ensures
            r == (Ratio { num, den }),
            r.wf(),
    {
        Ratio { num, den }
    }

    /// Exact value equality: `a/b == c/d` iff `a*d == c*b`.
    pub fn value_eq(&self, other: &Ratio) -> (r: bool)
        ensures
            r == rat_eq(self@, other@),
    {
        proof {
            lemma_i64_mul_fits_i128(self.num as int, other.den as int);
            lemma_i64_mul_fits_i128(other.num as int, self.den as int);
        }
        (self.num as i128) * (other.den as i128) == (other.num as i128) * (self.den as i128)
    }
}

/// The product of two 64-bit values fits in 128 bits.
proof fn lemma_i64_mul_fits_i128(x: int, y: int) by (nonlinear_arith)
    requires
        i64::MIN <= x <= i64::MAX,
        i64::MIN <= y <= i64::MAX,
    ensures
        i128::MIN <= x * y <= i128::MAX,
{
}

/// Value equality is transitive when the middle denominator is nonzero.
pub proof fn lemma_rat_eq_trans(a: Rat, b: Rat, c: Rat) by (nonlinear_arith)
    requires
        rat_eq(a, b),
        rat_eq(b, c),
        b.den != 0,
    ensures
        rat_eq(a, c),
{
}

} // verus!
