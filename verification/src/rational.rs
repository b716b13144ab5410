//! Exact rational arithmetic on machine integers.
//!
//! The neuron model works with real-valued quantities (potentials,
//! conductances, currents).  Every value the model ever produces from its
//! rational inputs is itself rational, so the library represents each
//! quantity exactly as a fraction of two `i64`s.  Arithmetic is exact; an
//! operation whose exact result does not fit the representation reports
//! that instead of rounding.

use vstd::arithmetic::div_mod::{
    lemma_fundamental_div_mod, lemma_fundamental_div_mod_converse_div,
};
use vstd::prelude::*;

verus! {

/// A mathematical rational, numerator over denominator, at the
/// specification level.  Only pairs with a positive denominator denote
/// values; see `q_wf`.
pub ghost struct Q {
    pub n: int,
    pub d: int,
}

/// A well-formed rational pair: the denominator is positive.
pub open spec fn q_wf(a: Q) -> bool {
    a.d >= 1
}

/// The rational with integer value `n`.
pub open spec fn q_int(n: int) -> Q {
    Q { n, d: 1 }
}

/// Equality of rationals, by cross-multiplication.
pub open spec fn q_eq(a: Q, b: Q) -> bool {
    a.n * b.d == b.n * a.d
}

/// Strict order on well-formed rationals, by cross-multiplication.
pub open spec fn q_lt(a: Q, b: Q) -> bool {
    a.n * b.d < b.n * a.d
}

pub open spec fn q_add(a: Q, b: Q) -> Q {
    Q { n: a.n * b.d + b.n * a.d, d: a.d * b.d }
}

pub open spec fn q_sub(a: Q, b: Q) -> Q {
    Q { n: a.n * b.d - b.n * a.d, d: a.d * b.d }
}

pub open spec fn q_mul(a: Q, b: Q) -> Q {
    Q { n: a.n * b.n, d: a.d * b.d }
}

/// Whether this exact pair fits the executable representation (`i64`
/// numerator and denominator).
pub open spec fn q_fits(a: Q) -> bool {
    &&& -0x8000_0000_0000_0000 <= a.n <= 0x7fff_ffff_ffff_ffff
    &&& a.d <= 0x7fff_ffff_ffff_ffff
}

/// Multiplication distributes over addition: `(a + b) * m == a*m + b*m`.
pub proof fn lemma_q_mul_dist_add(a: Q, b: Q, m: Q)
    ensures
        q_eq(q_mul(q_add(a, b), m), q_add(q_mul(a, m), q_mul(b, m))),
{
    let y = (a.d * m.d) * (b.d * m.d);
    vstd::arithmetic::mul::lemma_mul_is_associative(a.n * b.d + b.n * a.d, m.n, y);
    vstd::arithmetic::mul::lemma_mul_is_distributive_add_other_way(m.n * y, a.n * b.d, b.n * a.d);
    vstd::arithmetic::mul::lemma_mul_is_associative(a.n * b.d, m.n, y);
    vstd::arithmetic::mul::lemma_mul_is_associative(b.n * a.d, m.n, y);
    broadcast use vstd::arithmetic::mul::group_mul_properties;

    assert(((a.n * b.d) * m.n) * ((a.d * m.d) * (b.d * m.d)) == ((a.n * m.n) * (b.d * m.d)) * ((a.d
        * b.d) * m.d));
    assert(((b.n * a.d) * m.n) * ((a.d * m.d) * (b.d * m.d)) == ((b.n * m.n) * (a.d * m.d)) * ((a.d
        * b.d) * m.d));
    vstd::arithmetic::mul::lemma_mul_is_distributive_add_other_way(
        (a.d * b.d) * m.d,
        (a.n * m.n) * (b.d * m.d),
        (b.n * m.n) * (a.d * m.d),
    );
}

/// Multiplication is associative up to rational equality.
pub proof fn lemma_q_mul_assoc(a: Q, b: Q, c: Q)
    ensures
        q_eq(q_mul(q_mul(a, b), c), q_mul(a, q_mul(b, c))),
{
    assert(((a.n * b.n) * c.n) * (a.d * (b.d * c.d)) == (a.n * (b.n * c.n)) * ((a.d * b.d)
        * c.d)) by (nonlinear_arith);
}

/// An exact rational number: `num / den` with `den >= 1`.
#[derive(Clone, Copy, Debug)]
pub struct Rat {
    pub num: i64,
    pub den: i64,
}

impl View for Rat {
    type V = Q;

    open spec fn view(&self) -> Q {
        Q { n: self.num as int, d: self.den as int }
    }
}

impl Rat {
    /// Well-formedness: the denominator is positive.
    pub open spec fn wf(self) -> bool {
        q_wf(self@)
    }

    /// The fraction `num / den`.
    pub fn new(num: i64, den: i64) -> (r: Rat)
        requires
            den >= 1,
        ensures
            r.wf(),
            r@ == (Q { n: num as int, d: den as int }),
    {
        Rat { num, den }
    }

    /// The rational with integer value `num`.
    pub fn from_int(num: i64) -> (r: Rat)
        ensures
            r.wf(),
            r@ == q_int(num as int),
    {
        Rat { num, den: 1 }
    }

    /// Whether the two fractions denote the same rational value.
    pub fn eq_value(&self, other: &Rat) -> (r: bool)
        requires
            self.wf(),
            other.wf(),
        ensures
            r == q_eq(self@, other@),
    {
        proof {
            lemma_i64_mul_den_in_i128(self.num as int, other.den as int);
            lemma_i64_mul_den_in_i128(other.num as int, self.den as int);
        }
        (self.num as i128) * (other.den as i128) == (other.num as i128) * (self.den as i128)
    }

    /// Whether `self` is strictly greater than `other`.
    pub fn gt_value(&self, other: &Rat) -> (r: bool)
        requires
            self.wf(),
            other.wf(),
        ensures
            r == q_lt(other@, self@),
    {
        proof {
            lemma_i64_mul_den_in_i128(self.num as int, other.den as int);
            lemma_i64_mul_den_in_i128(other.num as int, self.den as int);
        }
        (self.num as i128) * (other.den as i128) > (other.num as i128) * (self.den as i128)
    }

    /// Exact sum.  `None` exactly when the exact pair does not fit `i64`s.
    pub fn checked_add(&self, other: &Rat) -> (r: Option<Rat>)
        requires
            self.wf(),
            other.wf(),
        ensures
            r is Some <==> q_fits(q_add(self@, other@)),
            r is Some ==> r.unwrap().wf() && r.unwrap()@ == q_add(self@, other@),
    {
        proof {
            lemma_i64_mul_den_in_i128(self.num as int, other.den as int);
            lemma_i64_mul_den_in_i128(other.num as int, self.den as int);
            lemma_i64_mul_den_in_i128(self.den as int, other.den as int);
            lemma_pos_mul_pos(self.den as int, other.den as int);
        }
        let n: i128 = (self.num as i128) * (other.den as i128) + (other.num as i128) * (self.den
            as i128);
        let d: i128 = (self.den as i128) * (other.den as i128);
        if n < -0x8000_0000_0000_0000i128 || n > 0x7fff_ffff_ffff_ffffi128 || d
            > 0x7fff_ffff_ffff_ffffi128 {
            None
        } else {
            Some(Rat { num: n as i64, den: d as i64 })
        }
    }

    /// Exact difference.  `None` exactly when the exact pair does not fit.
    pub fn checked_sub(&self, other: &Rat) -> (r: Option<Rat>)
        requires
            self.wf(),
            other.wf(),
        ensures
            r is Some <==> q_fits(q_sub(self@, other@)),
            r is Some ==> r.unwrap().wf() && r.unwrap()@ == q_sub(self@, other@),
    {
        proof {
            lemma_i64_mul_den_in_i128(self.num as int, other.den as int);
            lemma_i64_mul_den_in_i128(other.num as int, self.den as int);
            lemma_i64_mul_den_in_i128(self.den as int, other.den as int);
            lemma_pos_mul_pos(self.den as int, other.den as int);
        }
        let n: i128 = (self.num as i128) * (other.den as i128) - (other.num as i128) * (self.den
            as i128);
        let d: i128 = (self.den as i128) * (other.den as i128);
        if n < -0x8000_0000_0000_0000i128 || n > 0x7fff_ffff_ffff_ffffi128 || d
            > 0x7fff_ffff_ffff_ffffi128 {
            None
        } else {
            Some(Rat { num: n as i64, den: d as i64 })
        }
    }

    /// Exact product.  `None` exactly when the exact pair does not fit.
    pub fn checked_mul(&self, other: &Rat) -> (r: Option<Rat>)
        requires
            self.wf(),
            other.wf(),
        ensures
            r is Some <==> q_fits(q_mul(self@, other@)),
            r is Some ==> r.unwrap().wf() && r.unwrap()@ == q_mul(self@, other@),
    {
        proof {
            lemma_i64_mul_in_i128(self.num as int, other.num as int);
            lemma_i64_mul_den_in_i128(self.den as int, other.den as int);
            lemma_pos_mul_pos(self.den as int, other.den as int);
        }
        let n: i128 = (self.num as i128) * (other.num as i128);
        let d: i128 = (self.den as i128) * (other.den as i128);
        if n < -0x8000_0000_0000_0000i128 || n > 0x7fff_ffff_ffff_ffffi128 || d
            > 0x7fff_ffff_ffff_ffffi128 {
            None
        } else {
            Some(Rat { num: n as i64, den: d as i64 })
        }
    }

    /// The same rational value with numerator and denominator divided by a
    /// common divisor.  Keeps repeated arithmetic from outgrowing the
    /// representation.
    pub fn reduced(&self) -> (r: Rat)
        requires
            self.wf(),
        ensures
            r.wf(),
            q_eq(r@, self@),
    {
        if self.num == -0x8000_0000_0000_0000i64 {
            return *self;
        }
        let na: u64 = if self.num < 0 {
            (-self.num) as u64
        } else {
            self.num as u64
        };
        let g: u64 = gcd_u64(self.den as u64, na);
        let d2: u64 = (self.den as u64) / g;
        let n2: u64 = na / g;
        let ghost gi: int = g as int;
        let ghost kd: int = choose|k: int| (self.den as u64) as int == #[trigger] (gi * k);
        let ghost kn: int = choose|k: int| na as int == #[trigger] (gi * k);
        proof {
            assert(kd >= 1 && kd <= self.den as int) by (nonlinear_arith)
                requires
                    (self.den as int) == gi * kd,
                    gi >= 1,
                    self.den as int >= 1,
            ;
            assert(kn >= 0 && kn <= na as int) by (nonlinear_arith)
                requires
                    (na as int) == gi * kn,
                    gi >= 1,
                    na as int >= 0,
            ;
            lemma_fundamental_div_mod_converse_div(self.den as int, gi, kd, 0);
            lemma_fundamental_div_mod_converse_div(na as int, gi, kn, 0);
            assert(d2 as int == kd);
            assert(n2 as int == kn);
        }
        let num2: i64 = if self.num < 0 {
            proof {
                assert(self.num as int == gi * (0 - kn)) by (nonlinear_arith)
                    requires
                        na as int == gi * kn,
                        self.num as int == 0 - (na as int),
                ;
                assert((0 - kn) * (gi * kd) == (gi * (0 - kn)) * kd) by (nonlinear_arith);
            }
            -(n2 as i64)
        } else {
            proof {
                assert(kn * (gi * kd) == (gi * kn) * kd) by (nonlinear_arith);
            }
            n2 as i64
        };
        let r = Rat { num: num2, den: d2 as i64 };
        proof {
            assert(r@.n * self@.d == self@.n * r@.d);
        }
        r
    }
}

/// Divisibility: `n` is an integer multiple of `f`.
spec fn divides(f: int, n: int) -> bool {
    exists|k: int| n == #[trigger] (f * k)
}

/// Greatest common divisor by Euclid's algorithm.  The contract states
/// what the callers need: the result is positive and divides both
/// arguments.
fn gcd_u64(a: u64, b: u64) -> (g: u64)
    requires
        a >= 1,
    ensures
        g >= 1,
        divides(g as int, a as int),
        divides(g as int, b as int),
{
    let mut x: u64 = a;
    let mut y: u64 = b;
    let ghost mut px: int = 1;
    let ghost mut qx: int = 0;
    let ghost mut py: int = 0;
    let ghost mut qy: int = 1;
    while y != 0
        invariant
            1 <= x,
            a as int == px * (x as int) + qx * (y as int),
            b as int == py * (x as int) + qy * (y as int),
        decreases y as int,
    {
        let r: u64 = x % y;
        proof {
            lemma_fundamental_div_mod(x as int, y as int);
            let qq = (x as int) / (y as int);
            assert(px * (x as int) + qx * (y as int) == (px * qq + qx) * (y as int) + px * (r
                as int)) by (nonlinear_arith)
                requires
                    (x as int) == (y as int) * qq + (r as int),
            ;
            assert(py * (x as int) + qy * (y as int) == (py * qq + qy) * (y as int) + py * (r
                as int)) by (nonlinear_arith)
                requires
                    (x as int) == (y as int) * qq + (r as int),
            ;
            let npx = px * qq + qx;
            let npy = py * qq + qy;
            qx = px;
            qy = py;
            px = npx;
            py = npy;
        }
        x = y;
        y = r;
    }
    proof {
        assert(a as int == (x as int) * px) by (nonlinear_arith)
            requires
                a as int == px * (x as int) + qx * 0,
        ;
        assert(b as int == (x as int) * py) by (nonlinear_arith)
            requires
                b as int == py * (x as int) + qy * 0,
        ;
    }
    x
}

/// The product of two `i64`-range integers is at most `2^126` in
/// magnitude, so it stays within `i128`.
proof fn lemma_i64_mul_in_i128(a: int, b: int)
    requires
        -0x8000_0000_0000_0000 <= a <= 0x7fff_ffff_ffff_ffff,
        -0x8000_0000_0000_0000 <= b <= 0x7fff_ffff_ffff_ffff,
    ensures
        -0x4000_0000_0000_0000_0000_0000_0000_0000 <= a * b
            <= 0x4000_0000_0000_0000_0000_0000_0000_0000,
{
    assert(-0x4000_0000_0000_0000_0000_0000_0000_0000 <= a * b
        <= 0x4000_0000_0000_0000_0000_0000_0000_0000) by (nonlinear_arith)
        requires
            -0x8000_0000_0000_0000 <= a <= 0x7fff_ffff_ffff_ffff,
            -0x8000_0000_0000_0000 <= b <= 0x7fff_ffff_ffff_ffff,
    ;
}

/// The product of an `i64`-range integer and a positive `i64`-range
/// integer is at most `2^126 - 2^63` in magnitude; two such products can
/// be added without leaving `i128`.
proof fn lemma_i64_mul_den_in_i128(a: int, b: int)
    requires
        -0x8000_0000_0000_0000 <= a <= 0x7fff_ffff_ffff_ffff,
        1 <= b <= 0x7fff_ffff_ffff_ffff,
    ensures
        -0x3fff_ffff_ffff_ffff_8000_0000_0000_0000 <= a * b
            <= 0x3fff_ffff_ffff_ffff_8000_0000_0000_0000,
{
    assert(-0x3fff_ffff_ffff_ffff_8000_0000_0000_0000 <= a * b
        <= 0x3fff_ffff_ffff_ffff_8000_0000_0000_0000) by (nonlinear_arith)
        requires
            -0x8000_0000_0000_0000 <= a <= 0x7fff_ffff_ffff_ffff,
            1 <= b <= 0x7fff_ffff_ffff_ffff,
    ;
}

/// The product of two positive integers is positive.
proof fn lemma_pos_mul_pos(a: int, b: int)
    requires
        a >= 1,
        b >= 1,
    ensures
        a * b >= 1,
{
    assert(a * b >= 1) by (nonlinear_arith)
        requires
            a >= 1,
            b >= 1,
    ;
}

} // verus!
