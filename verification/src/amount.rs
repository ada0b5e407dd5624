//! Exact rational amounts.
//!
//! An [`Amount`] is the numeric part of a quantity value: a fraction of two
//! machine integers, always kept with a positive denominator and reduced to
//! lowest terms.  All arithmetic is exact; operations state precisely which
//! fraction they return.

use vstd::arithmetic::div_mod::{
    lemma_fundamental_div_mod, lemma_fundamental_div_mod_converse,
};
use vstd::prelude::*;

verus! {

/// The mathematical value of an amount: the fraction `n / d`.
pub struct Rat {
    /// Numerator.
    pub n: int,
    /// Denominator.
    pub d: int,
}

/// A well-formed fraction has a positive denominator.
pub open spec fn rat_inv(r: Rat) -> bool {
    r.d >= 1
}

/// Absolute value.
pub open spec fn iabs(n: int) -> int {
    if n >= 0 {
        n
    } else {
        -n
    }
}

/// The two fractions denote the same rational number.
pub open spec fn rat_eq(a: Rat, b: Rat) -> bool {
    a.n * b.d == b.n * a.d
}

/// `a` denotes a strictly smaller rational than `b`.
pub open spec fn rat_lt(a: Rat, b: Rat) -> bool {
    a.n * b.d < b.n * a.d
}

/// `a` denotes a rational no greater than `b`.
pub open spec fn rat_le(a: Rat, b: Rat) -> bool {
    a.n * b.d <= b.n * a.d
}

/// The exact sum of the two fractions.
pub open spec fn rat_add(a: Rat, b: Rat) -> Rat {
    Rat { n: a.n * b.d + b.n * a.d, d: a.d * b.d }
}

/// The exact difference of the two fractions.
pub open spec fn rat_sub(a: Rat, b: Rat) -> Rat {
    Rat { n: a.n * b.d - b.n * a.d, d: a.d * b.d }
}

/// The sum of the two fractions over their least common denominator:
/// the denominators' shared factor is divided out first, which keeps the
/// intermediate products small.
pub open spec fn rat_add_norm(a: Rat, b: Rat) -> Rat {
    let g = gcd(a.d as nat, b.d as nat) as int;
    Rat { n: a.n * (b.d / g) + b.n * (a.d / g), d: a.d * (b.d / g) }
}

/// The difference of the two fractions over their least common
/// denominator.
pub open spec fn rat_sub_norm(a: Rat, b: Rat) -> Rat {
    let g = gcd(a.d as nat, b.d as nat) as int;
    Rat { n: a.n * (b.d / g) - b.n * (a.d / g), d: a.d * (b.d / g) }
}

/// The exact product of the two fractions.
pub open spec fn rat_mul(a: Rat, b: Rat) -> Rat {
    Rat { n: a.n * b.n, d: a.d * b.d }
}

/// The exact quotient of the two fractions, with the denominator kept
/// positive by moving the divisor's sign into the numerator.
pub open spec fn rat_div(a: Rat, b: Rat) -> Rat {
    if b.n < 0 {
        Rat { n: -(a.n * b.d), d: a.d * -b.n }
    } else {
        Rat { n: a.n * b.d, d: a.d * b.n }
    }
}

/// The fraction `i / 1`.
pub open spec fn rat_int(i: int) -> Rat {
    Rat { n: i, d: 1 }
}

/// Greatest common divisor by Euclid's algorithm.
pub open spec fn gcd(a: nat, b: nat) -> nat
    decreases b,
{
    if b == 0 {
        a
    } else {
        gcd(b, a % b)
    }
}

/// `g` divides `x`.
pub open spec fn divides(g: int, x: int) -> bool {
    exists|k: int| x == #[trigger] (g * k)
}

/// The fraction in lowest terms denoting the same rational as `r`.
pub open spec fn rat_canon(r: Rat) -> Rat {
    let g = gcd(iabs(r.n) as nat, r.d as nat) as int;
    Rat { n: r.n / g, d: r.d / g }
}

/// The gcd divides both of its arguments.
pub proof fn lemma_gcd_divides(a: nat, b: nat)
    ensures
        divides(gcd(a, b) as int, a as int),
        divides(gcd(a, b) as int, b as int),
    decreases b,
{
    if b == 0 {
        assert(a as int == a as int * 1);
        assert(a as int * 0 == 0);
        assert(divides(a as int, a as int));
        assert(divides(a as int, 0));
    } else {
        lemma_gcd_divides(b, a % b);
        let g = gcd(b, a % b) as int;
        let k1 = choose|k: int| b as int == #[trigger] (g * k);
        let k2 = choose|k: int| (a % b) as int == #[trigger] (g * k);
        lemma_fundamental_div_mod(a as int, b as int);
        assert(a as int == b as int * (a as int / b as int) + (a as int % b as int));
        let q = a as int / b as int;
        assert(a as int == (g * k1) * q + g * k2);
        assert((g * k1) * q + g * k2 == g * (k1 * q + k2)) by (nonlinear_arith);
        assert(divides(g, a as int));
    }
}

/// The gcd is positive when its second argument is.
pub proof fn lemma_gcd_pos(a: nat, b: nat)
    requires
        a > 0 || b > 0,
    ensures
        gcd(a, b) >= 1,
    decreases b,
{
    if b == 0 {
    } else {
        lemma_gcd_pos(b, a % b);
    }
}

/// Exact division: if `g` divides `x` then `x == g * (x / g)`.
pub proof fn lemma_div_exact(x: int, g: int)
    requires
        g >= 1,
        divides(g, x),
    ensures
        x == g * (x / g),
{
    let k = choose|k: int| x == #[trigger] (g * k);
    assert(g * k == k * g) by (nonlinear_arith);
    lemma_fundamental_div_mod_converse(x, g, k, 0);
}

/// Reducing a fraction to lowest terms keeps its rational value, keeps the
/// denominator positive, and does not grow either component.
pub proof fn lemma_canon_eq(r: Rat)
    requires
        rat_inv(r),
    ensures
        rat_inv(rat_canon(r)),
        rat_eq(rat_canon(r), r),
        iabs(rat_canon(r).n) <= iabs(r.n),
        rat_canon(r).d <= r.d,
{
    let m = iabs(r.n) as nat;
    let g = gcd(m, r.d as nat) as int;
    lemma_gcd_pos(m, r.d as nat);
    lemma_gcd_divides(m, r.d as nat);
    assert(g >= 1);
    // g divides the magnitude of the numerator, hence the numerator itself.
    let km = choose|k: int| m as int == #[trigger] (g * k);
    if r.n >= 0 {
        assert(r.n == g * km);
    } else {
        assert(r.n == g * (-km)) by {
            assert(m as int == g * km);
            assert(r.n == -(g * km));
            assert(-(g * km) == g * (-km)) by (nonlinear_arith);
        }
    }
    assert(divides(g, r.n));
    let kn = choose|k: int| r.n == #[trigger] (g * k);
    let kd = choose|k: int| r.d == #[trigger] (g * k);
    lemma_div_exact(r.n, g);
    lemma_div_exact(r.d, g);
    let cn = r.n / g;
    let cd = r.d / g;
    assert(r.n == g * cn);
    assert(r.d == g * cd);
    // Denominator stays positive.
    assert(cd >= 1) by {
        if cd <= 0 {
            assert(g * cd <= 0) by (nonlinear_arith)
                requires
                    g >= 1,
                    cd <= 0,
            ;
        }
    }
    // Same rational value.
    assert(cn * r.d == r.n * cd) by {
        assert(cn * (g * cd) == (g * cn) * cd) by (nonlinear_arith);
    }
    // Components do not grow.
    assert(iabs(cn) <= iabs(r.n)) by {
        assert(g * cn == r.n);
        if cn >= 0 {
            assert(g * cn >= cn) by (nonlinear_arith)
                requires
                    g >= 1,
                    cn >= 0,
            ;
            assert(r.n >= 0);
        } else {
            assert(g * cn <= cn) by (nonlinear_arith)
                requires
                    g >= 1,
                    cn < 0,
            ;
            assert(r.n < 0);
        }
    }
    assert(cd <= r.d) by {
        assert(g * cd >= cd) by (nonlinear_arith)
            requires
                g >= 1,
                cd >= 1,
        ;
    }
}

/// The least-common-denominator forms denote the plain sum and
/// difference, and the cofactors recombine into the denominators they
/// came from.
pub proof fn lemma_add_norm(a: Rat, b: Rat)
    requires
        rat_inv(a),
        rat_inv(b),
    ensures
        rat_inv(rat_add_norm(a, b)),
        rat_inv(rat_sub_norm(a, b)),
        rat_eq(rat_add_norm(a, b), rat_add(a, b)),
        rat_eq(rat_sub_norm(a, b), rat_sub(a, b)),
        a.d == gcd(a.d as nat, b.d as nat) * (a.d / gcd(a.d as nat, b.d as nat) as int),
        b.d == gcd(a.d as nat, b.d as nat) * (b.d / gcd(a.d as nat, b.d as nat) as int),
        a.d / gcd(a.d as nat, b.d as nat) as int >= 1,
        b.d / gcd(a.d as nat, b.d as nat) as int >= 1,
{
    lemma_gcd_pos(a.d as nat, b.d as nat);
    lemma_gcd_divides(a.d as nat, b.d as nat);
    let g = gcd(a.d as nat, b.d as nat) as int;
    lemma_div_exact(a.d, g);
    lemma_div_exact(b.d, g);
    let ea = a.d / g;
    let eb = b.d / g;
    assert(ea >= 1 && eb >= 1) by (nonlinear_arith)
        requires
            g >= 1,
            a.d == g * ea,
            b.d == g * eb,
            a.d >= 1,
            b.d >= 1,
    ;
    assert(a.d * eb >= 1) by (nonlinear_arith)
        requires
            a.d >= 1,
            eb >= 1,
    ;
    let sum = a.n * eb + b.n * ea;
    let dif = a.n * eb - b.n * ea;
    assert(a.n * b.d + b.n * a.d == g * sum && a.n * b.d - b.n * a.d == g * dif)
        by (nonlinear_arith)
        requires
            a.d == g * ea,
            b.d == g * eb,
            sum == a.n * eb + b.n * ea,
            dif == a.n * eb - b.n * ea,
    ;
    assert(a.d * b.d == g * (a.d * eb)) by (nonlinear_arith)
        requires
            b.d == g * eb,
    ;
    assert(sum * (a.d * b.d) == (g * sum) * (a.d * eb) && dif * (a.d * b.d) == (g * dif) * (a.d
        * eb)) by (nonlinear_arith)
        requires
            a.d * b.d == g * (a.d * eb),
    ;
}

/// Evaluates the reduction of a concrete fraction: once the gcd `g` and
/// the exact quotients are supplied, the reduced form is pinned.
pub proof fn lemma_canon_concrete(x: Rat, g: int, cn: int, cd: int)
    requires
        rat_inv(x),
        g == (gcd(iabs(x.n) as nat, x.d as nat) as int),
        g >= 1,
        x.n == g * cn,
        x.d == g * cd,
    ensures
        rat_canon(x) == (Rat { n: cn, d: cd }),
{
    assert(g * cn == cn * g) by (nonlinear_arith);
    lemma_fundamental_div_mod_converse(x.n, g, cn, 0);
    assert(g * cd == cd * g) by (nonlinear_arith);
    lemma_fundamental_div_mod_converse(x.d, g, cd, 0);
}

/// The integer of sign `neg` and magnitude `m`.
pub open spec fn signed_mag(neg: bool, m: int) -> int {
    if neg {
        -m
    } else {
        m
    }
}

/// Magnitude and sign of a product.
pub proof fn lemma_mul_sign(x: int, y: int)
    by (nonlinear_arith)
    ensures
        iabs(x * y) == iabs(x) * iabs(y),
        x != 0 && y != 0 && ((x < 0) != (y < 0)) ==> x * y < 0,
        ((x < 0) == (y < 0)) ==> x * y >= 0,
{
}

/// The magnitudes used by the arithmetic below all fit the machine word.
pub open spec fn fits_mag(x: int) -> bool {
    x <= i128::MAX as int
}

/// Greatest common divisor, executable form.
fn gcd_u128(a: u128, b: u128) -> (g: u128)
    ensures
        g as nat == gcd(a as nat, b as nat),
    decreases b,
{
    if b == 0 {
        a
    } else {
        gcd_u128(b, a % b)
    }
}

/// The magnitude of an integer above the minimum machine value.
fn abs_mag(n: i128) -> (r: u128)
    requires
        n != i128::MIN,
    ensures
        r as int == iabs(n as int),
{
    if n >= 0 {
        n as u128
    } else {
        (-n) as u128
    }
}

/// Builds the amount `signed_mag(neg, mag) / d`, reduced to lowest terms.
fn reduce(neg: bool, mag: u128, d: u128) -> (r: Amount)
    requires
        1 <= d as int <= i128::MAX as int,
        mag as int <= i128::MAX as int,
    ensures
        r.inv(),
        r@ == rat_canon(Rat { n: signed_mag(neg, mag as int), d: d as int }),
{
    proof {
        lemma_gcd_pos(mag as nat, d as nat);
        lemma_gcd_divides(mag as nat, d as nat);
    }
    let g = gcd_u128(mag, d);
    let ghost x = Rat { n: signed_mag(neg, mag as int), d: d as int };
    proof {
        assert(iabs(x.n) == mag as int);
        lemma_div_exact(mag as int, g as int);
        lemma_div_exact(d as int, g as int);
        // Quotients cannot exceed the dividends.
        assert(mag as int / g as int <= mag as int && d as int / g as int <= d as int
            && d as int / g as int >= 1) by (nonlinear_arith)
            requires
                g as int >= 1,
                mag as int == g as int * (mag as int / g as int),
                d as int == g as int * (d as int / g as int),
                d as int >= 1,
                mag as int >= 0,
        ;
    }
    let nm = mag / g;
    let dd = d / g;
    proof {
        // The signed quotient matches the canonical numerator.
        if neg && nm > 0 {
            let k = mag as int / g as int;
            assert(x.n == (-k) * g as int + 0) by (nonlinear_arith)
                requires
                    mag as int == g as int * k,
                    x.n == -(mag as int),
            ;
            lemma_fundamental_div_mod_converse(x.n, g as int, -k, 0);
        }
        if nm == 0 {
            assert((mag as int) < (g as int)) by {
                if mag as int >= g as int {
                    assert(mag as int / g as int >= 1) by (nonlinear_arith)
                        requires
                            g as int >= 1,
                            mag as int >= g as int,
                            mag as int == g as int * (mag as int / g as int),
                    ;
                }
            }
            assert(mag == 0) by {
                if mag > 0 {
                    lemma_gcd_divides(mag as nat, d as nat);
                    let k = choose|k: int| mag as int == #[trigger] (g as int * k);
                    assert(false) by (nonlinear_arith)
                        requires
                            mag as int == g as int * k,
                            g as int > mag as int,
                            mag as int > 0,
                            g as int >= 1,
                    ;
                }
            }
        }
    }
    let num: i128 = if neg {
        -(nm as i128)
    } else {
        nm as i128
    };
    Amount { num, den: dd as i128 }
}

/// An exact rational amount: numerator and denominator, denominator positive,
/// kept in lowest terms by every operation.
#[derive(Clone, Copy, Debug, PartialEq, Eq, Structural)]
pub struct Amount {
    num: i128,
    den: i128,
}

impl View for Amount {
    type V = Rat;

    closed spec fn view(&self) -> Rat {
        Rat { n: self.num as int, d: self.den as int }
    }
}

impl Amount {
    /// Well-formedness: positive denominator, and a numerator whose magnitude
    /// fits the machine word (so that its absolute value can be taken).
    pub open spec fn inv(self) -> bool {
        self@.d >= 1 && self@.n > i128::MIN as int
    }

    /// The amount `i / 1`.
    pub fn from_int(i: i64) -> (r: Amount)
        ensures
            r.inv(),
            r@ == rat_int(i as int),
    {
        Amount { num: i as i128, den: 1 }
    }

    /// The two amounts have the same representation (for amounts kept in
    /// lowest terms, the same value).
    pub fn eq_repr(&self, other: &Amount) -> (r: bool)
        ensures
            r == (self@ == other@),
    {
        self.num == other.num && self.den == other.den
    }

    /// The amount is a well-formed, strictly positive fraction, as a unit
    /// scale must be.
    pub fn valid_scale(&self) -> (r: bool)
        ensures
            r == (self.inv() && self@.n >= 1),
    {
        self.den >= 1 && self.num >= 1
    }

    /// The numerator of the fraction in lowest terms.
    pub fn numer(&self) -> (n: i128)
        ensures
            n as int == self@.n,
    {
        self.num
    }

    /// The denominator of the fraction in lowest terms.
    pub fn denom(&self) -> (d: i128)
        ensures
            d as int == self@.d,
    {
        self.den
    }

    /// The amount `m * 10^e`, written in scientific notation, reduced to
    /// lowest terms.
    pub fn from_sci(m: i64, e: i32) -> (r: Amount)
        requires
            -38 <= e <= 38,
            e <= 19 || (e <= 31 && iabs(m as int) <= 5000000),
        ensures
            r.inv(),
            e >= 0 ==> r@ == rat_canon(Rat { n: m as int * pow10(e as nat), d: 1 }),
            e < 0 ==> r@ == rat_canon(Rat { n: m as int, d: pow10((-e) as nat) }),
            rat_eq(
                r@,
                if e >= 0 {
                    Rat { n: m as int * pow10(e as nat), d: 1 }
                } else {
                    Rat { n: m as int, d: pow10((-e) as nat) }
                },
            ),
            (r@.n >= 1) == (m > 0),
            (r@.n <= -1) == (m < 0),
            (r@.n == 0) == (m == 0),
    {
        let neg = m < 0;
        let mag: u128 = if m >= 0 {
            m as u128
        } else {
            (-(m as i128)) as u128
        };
        if e >= 0 {
            let p = pow10_exec(e as u32);
            proof {
                lemma_pow10_38();
                lemma_pow10_pos(e as nat);
                // The product stays within the machine word: the mantissa
                // is below 10^19 (or, for large exponents, below 10^7).
                if e <= 19 {
                    lemma_pow10_mono(e as nat, 19);
                    lemma_pow10_adds(19, 19);
                    assert(mag as int * p as int <= pow10(19) * pow10(19)) by (nonlinear_arith)
                        requires
                            0 <= mag as int <= pow10(19),
                            0 <= p as int <= pow10(19),
                    ;
                    lemma_pow10_mono(38, 38);
                } else {
                    lemma_pow10_mono(e as nat, 31);
                    lemma_pow10_adds(7, 31);
                    assert(mag as int * p as int <= pow10(7) * pow10(31)) by (nonlinear_arith)
                        requires
                            0 <= mag as int <= pow10(7),
                            0 <= p as int <= pow10(31),
                    ;
                }
                lemma_mul_sign(m as int, pow10(e as nat) as int);
                assert(mag as int * p as int == iabs(m as int) * pow10(e as nat))
                    by (nonlinear_arith)
                    requires
                        mag as int == iabs(m as int),
                        p as int == pow10(e as nat),
                ;
                lemma_canon_eq(Rat { n: m as int * pow10(e as nat), d: 1 });
                lemma_canon_sign(Rat { n: m as int * pow10(e as nat), d: 1 });
            }
            let r = reduce(neg, mag * (p as u128), 1);
            proof {
                assert(signed_mag(neg, (mag * p as u128) as int) == m as int * pow10(e as nat))
                    by {
                    lemma_mul_sign(m as int, pow10(e as nat) as int);
                    lemma_pow10_pos(e as nat);
                }
                assert((m as int * pow10(e as nat) > 0) == (m > 0) && (m as int * pow10(e as nat)
                    < 0) == (m < 0)) by (nonlinear_arith)
                    requires
                        pow10(e as nat) >= 1,
                ;
            }
            r
        } else {
            let p = pow10_exec((-e) as u32);
            proof {
                lemma_pow10_pos((-e) as nat);
                lemma_canon_eq(Rat { n: m as int, d: pow10((-e) as nat) });
                lemma_canon_sign(Rat { n: m as int, d: pow10((-e) as nat) });
            }
            reduce(neg, mag, p as u128)
        }
    }

    /// The amount `m / 10^frac_digits`, for mantissas too wide for
    /// scientific notation, reduced to lowest terms.
    pub fn from_dec(m: i128, frac_digits: u32) -> (r: Amount)
        requires
            frac_digits <= 38,
            m != i128::MIN,
        ensures
            r.inv(),
            r@ == rat_canon(Rat { n: m as int, d: pow10(frac_digits as nat) }),
            rat_eq(r@, Rat { n: m as int, d: pow10(frac_digits as nat) }),
            (r@.n >= 1) == (m > 0),
            (r@.n <= -1) == (m < 0),
    {
        let neg = m < 0;
        let mag: u128 = if m >= 0 {
            m as u128
        } else {
            (-m) as u128
        };
        let p = pow10_exec(frac_digits);
        proof {
            lemma_pow10_pos(frac_digits as nat);
            lemma_canon_eq(Rat { n: m as int, d: pow10(frac_digits as nat) });
            lemma_canon_sign(Rat { n: m as int, d: pow10(frac_digits as nat) });
        }
        reduce(neg, mag, p as u128)
    }

    /// The exact sum of the two amounts, in lowest terms.
    pub fn add(&self, other: &Amount) -> (r: Amount)
        requires
            self.inv(),
            other.inv(),
            add_fits(self@, other@),
        ensures
            r.inv(),
            r@ == rat_canon(rat_add_norm(self@, other@)),
            rat_eq(r@, rat_add(self@, other@)),
    {
        let (neg, mag, dd) = self.linear_parts(other, false);
        let r = reduce(neg, mag, dd);
        proof {
            lemma_add_norm(self@, other@);
            lemma_canon_eq(rat_add_norm(self@, other@));
            lemma_rat_eq_trans(r@, rat_add_norm(self@, other@), rat_add(self@, other@));
        }
        r
    }

    /// The exact difference of the two amounts, in lowest terms.
    pub fn sub(&self, other: &Amount) -> (r: Amount)
        requires
            self.inv(),
            other.inv(),
            sub_fits(self@, other@),
        ensures
            r.inv(),
            r@ == rat_canon(rat_sub_norm(self@, other@)),
            rat_eq(r@, rat_sub(self@, other@)),
    {
        let (neg, mag, dd) = self.linear_parts(other, true);
        let r = reduce(neg, mag, dd);
        proof {
            lemma_add_norm(self@, other@);
            lemma_canon_eq(rat_sub_norm(self@, other@));
            lemma_rat_eq_trans(r@, rat_sub_norm(self@, other@), rat_sub(self@, other@));
        }
        r
    }

    /// Sign, numerator magnitude and denominator of the exact sum (or, with
    /// `flip`, the exact difference) of the two amounts.
    fn linear_parts(&self, other: &Amount, flip: bool) -> (t: (bool, u128, u128))
        requires
            self.inv(),
            other.inv(),
            !flip ==> add_fits(self@, other@),
            flip ==> sub_fits(self@, other@),
        ensures
            signed_mag(t.0, t.1 as int) == if flip {
                rat_sub_norm(self@, other@).n
            } else {
                rat_add_norm(self@, other@).n
            },
            t.2 as int == rat_add_norm(self@, other@).d,
            1 <= t.2 as int <= i128::MAX as int,
            t.1 as int <= i128::MAX as int,
    {
        let an = abs_mag(self.num);
        let bn = abs_mag(other.num);
        let ad = self.den as u128;
        let bd = other.den as u128;
        proof {
            lemma_add_norm(self@, other@);
        }
        let g = gcd_u128(ad, bd);
        let ea = ad / g;
        let eb = bd / g;
        let ghost geb = other@.d / (gcd(self@.d as nat, other@.d as nat) as int);
        let ghost gea = self@.d / (gcd(self@.d as nat, other@.d as nat) as int);
        proof {
            assert(ea as int == gea && eb as int == geb);
            lemma_mul_sign(self@.n, geb);
            lemma_mul_sign(other@.n, gea);
            assert(iabs(geb) == geb && iabs(gea) == gea);
            assert(self@.d * geb >= 1) by (nonlinear_arith)
                requires
                    self@.d >= 1,
                    geb >= 1,
            ;
        }
        let t1 = an * eb;
        let t2 = bn * ea;
        let dd = ad * eb;
        let sneg = self.num < 0;
        let oneg = if flip {
            other.num >= 0
        } else {
            other.num < 0
        };
        let ghost x = self@.n * geb;
        let ghost y = if flip {
            -(other@.n * gea)
        } else {
            other@.n * gea
        };
        proof {
            assert(t1 as int == iabs(x));
            assert(t2 as int == iabs(y));
            assert(sneg ==> x <= 0);
            assert(!sneg ==> x >= 0);
            assert(oneg ==> y <= 0);
            assert(!oneg ==> y >= 0);
        }
        if sneg == oneg {
            (sneg, t1 + t2, dd)
        } else if t1 >= t2 {
            (sneg, t1 - t2, dd)
        } else {
            (oneg, t2 - t1, dd)
        }
    }

    /// The exact product of the two amounts, in lowest terms.
    pub fn mul(&self, other: &Amount) -> (r: Amount)
        requires
            self.inv(),
            other.inv(),
            mul_fits(self@, other@),
        ensures
            r.inv(),
            r@ == rat_canon(rat_mul(self@, other@)),
            rat_eq(r@, rat_mul(self@, other@)),
    {
        let an = abs_mag(self.num);
        let bn = abs_mag(other.num);
        proof {
            lemma_mul_sign(self@.n, other@.n);
            lemma_mul_sign(self@.d, other@.d);
            assert(self@.d * other@.d >= 1) by (nonlinear_arith)
                requires
                    self@.d >= 1,
                    other@.d >= 1,
            ;
            lemma_canon_eq(rat_mul(self@, other@));
        }
        let mag = an * bn;
        let dd = (self.den as u128) * (other.den as u128);
        let neg = (self.num < 0) != (other.num < 0);
        proof {
            if self@.n == 0 || other@.n == 0 {
                assert(signed_mag(neg, mag as int) == rat_mul(self@, other@).n);
            }
        }
        reduce(neg, mag, dd)
    }

    /// The exact quotient of the two amounts, in lowest terms.  The divisor
    /// must not be zero.
    pub fn div(&self, other: &Amount) -> (r: Amount)
        requires
            self.inv(),
            other.inv(),
            other@.n != 0,
            div_fits(self@, other@),
        ensures
            r.inv(),
            r@ == rat_canon(rat_div(self@, other@)),
            rat_eq(r@, rat_div(self@, other@)),
    {
        let an = abs_mag(self.num);
        let bn = abs_mag(other.num);
        proof {
            lemma_mul_sign(self@.n, other@.d);
            lemma_mul_sign(self@.d, iabs(other@.n));
            assert(iabs(other@.d) == other@.d && iabs(self@.d) == self@.d
                && iabs(iabs(other@.n)) == iabs(other@.n));
            lemma_rat_div_inv(self@, other@);
            lemma_canon_eq(rat_div(self@, other@));
        }
        let mag = an * (other.den as u128);
        let dd = (self.den as u128) * bn;
        let neg = (self.num < 0) != (other.num < 0);
        proof {
            let q = rat_div(self@, other@);
            assert(signed_mag(neg, mag as int) == q.n && dd as int == q.d) by {
                lemma_mul_sign(self@.n, other@.d);
                if other@.n < 0 {
                    assert(self@.d * iabs(other@.n) == self@.d * -other@.n);
                } else {
                    assert(self@.d * iabs(other@.n) == self@.d * other@.n);
                }
            }
        }
        reduce(neg, mag, dd)
    }
}

/// The intermediate products of an addition over the least common
/// denominator all fit the machine word.
pub open spec fn add_fits(a: Rat, b: Rat) -> bool {
    let g = gcd(a.d as nat, b.d as nat) as int;
    fits_mag(iabs(a.n) * (b.d / g)) && fits_mag(iabs(b.n) * (a.d / g)) && fits_mag(
        iabs(rat_add_norm(a, b).n),
    ) && fits_mag(a.d * (b.d / g))
}

/// The intermediate products of a subtraction over the least common
/// denominator all fit the machine word.
pub open spec fn sub_fits(a: Rat, b: Rat) -> bool {
    let g = gcd(a.d as nat, b.d as nat) as int;
    fits_mag(iabs(a.n) * (b.d / g)) && fits_mag(iabs(b.n) * (a.d / g)) && fits_mag(
        iabs(rat_sub_norm(a, b).n),
    ) && fits_mag(a.d * (b.d / g))
}

/// The intermediate products of a multiplication all fit the machine word.
pub open spec fn mul_fits(a: Rat, b: Rat) -> bool {
    fits_mag(iabs(a.n) * iabs(b.n)) && fits_mag(a.d * b.d)
}

/// The intermediate products of a division all fit the machine word.
pub open spec fn div_fits(a: Rat, b: Rat) -> bool {
    fits_mag(iabs(a.n) * b.d) && fits_mag(a.d * iabs(b.n))
}

/// A quotient of well-formed fractions with a nonzero divisor is well formed.
pub proof fn lemma_rat_div_inv(a: Rat, b: Rat)
    requires
        rat_inv(a),
        rat_inv(b),
        b.n != 0,
    ensures
        rat_inv(rat_div(a, b)),
        rat_div(a, b).d == a.d * iabs(b.n),
{
    lemma_mul_sign(a.d, iabs(b.n));
    if b.n < 0 {
        assert(a.d * -b.n == a.d * iabs(b.n));
    }
    assert(a.d * iabs(b.n) >= 1) by (nonlinear_arith)
        requires
            a.d >= 1,
            iabs(b.n) >= 1,
    ;
}

/// Two to the 64th, the base used for splitting machine words.
pub const B64: u128 = 0x10000000000000000;

/// Two to the 128th, as a mathematical integer.
pub open spec fn b128() -> int {
    0x100000000000000000000000000000000int
}

/// Full 256-bit product of two machine words, as high and low halves.
fn wide_mul(a: u128, b: u128) -> (r: (u128, u128))
    ensures
        a as int * b as int == r.0 as int * b128() + r.1 as int,
{
    let ah = a / B64;
    let al = a % B64;
    let bh = b / B64;
    let bl = b % B64;
    proof {
        lemma_fundamental_div_mod(a as int, B64 as int);
        lemma_fundamental_div_mod(b as int, B64 as int);
        assert(ah as int <= 0xffffffffffffffff);
        assert(bh as int <= 0xffffffffffffffff);
        assert(al as int * bl as int <= 0xffffffffffffffff * 0xffffffffffffffff
            && al as int * bh as int <= 0xffffffffffffffff * 0xffffffffffffffff
            && ah as int * bl as int <= 0xffffffffffffffff * 0xffffffffffffffff
            && ah as int * bh as int <= 0xffffffffffffffff * 0xffffffffffffffff)
            by (nonlinear_arith)
            requires
                0 <= al as int <= 0xffffffffffffffff,
                0 <= bl as int <= 0xffffffffffffffff,
                0 <= ah as int <= 0xffffffffffffffff,
                0 <= bh as int <= 0xffffffffffffffff,
        ;
    }
    let p0 = al * bl;
    let p1 = al * bh;
    let p2 = ah * bl;
    let p3 = ah * bh;
    proof {
        lemma_fundamental_div_mod(p0 as int, B64 as int);
        assert(p0 as int / B64 as int <= 0xffffffffffffffff);
    }
    let c1 = p1 + p0 / B64;
    proof {
        lemma_fundamental_div_mod(c1 as int, B64 as int);
    }
    let c2 = p2 + c1 % B64;
    proof {
        lemma_fundamental_div_mod(c2 as int, B64 as int);
    }
    let lo = (c2 % B64) * B64 + p0 % B64;
    let hi = p3 + c1 / B64 + c2 / B64;
    proof {
        let bb = B64 as int;
        assert(a as int * b as int == p3 as int * (bb * bb) + p2 as int * bb + p1 as int * bb
            + p0 as int) by (nonlinear_arith)
            requires
                a as int == bb * (ah as int) + al as int,
                b as int == bb * (bh as int) + bl as int,
                p0 as int == al as int * bl as int,
                p1 as int == al as int * bh as int,
                p2 as int == ah as int * bl as int,
                p3 as int == ah as int * bh as int,
                bb == B64 as int,
        ;
        assert(bb * bb == b128()) by (nonlinear_arith)
            requires
                bb == 0x10000000000000000,
        ;
        assert(hi as int * b128() + lo as int == p3 as int * b128() + (c1 as int / bb) * b128()
            + (c2 as int / bb) * b128() + (c2 as int % bb) * bb + p0 as int % bb);
        assert((c1 as int / bb) * bb + (c2 as int / bb) * bb + c2 as int % bb == p1 as int
            + p2 as int + p0 as int / bb);
        assert((c1 as int / bb) * b128() + (c2 as int / bb) * b128() + (c2 as int % bb) * bb == (
        p1 as int + p2 as int + p0 as int / bb) * bb) by (nonlinear_arith)
            requires
                (c1 as int / bb) * bb + (c2 as int / bb) * bb + c2 as int % bb == p1 as int
                    + p2 as int + p0 as int / bb,
                bb == B64 as int,
                b128() == bb * bb,
        ;
        assert((p1 as int + p2 as int + p0 as int / bb) * bb == p1 as int * bb + p2 as int * bb + (
        p0 as int / bb) * bb);
    }
    (hi, lo)
}

impl Amount {
    /// Three-way comparison of the rationals the two amounts denote:
    /// `-1` for smaller, `0` for equal, `1` for greater.  Exact for the whole
    /// range of representable amounts.
    pub fn cmp_val(&self, other: &Amount) -> (r: i8)
        requires
            self.inv(),
            other.inv(),
        ensures
            r == -1 || r == 0 || r == 1,
            (r == -1) == rat_lt(self@, other@),
            (r == 0) == rat_eq(self@, other@),
            (r == 1) == rat_lt(other@, self@),
    {
        let sneg = self.num < 0;
        let oneg = other.num < 0;
        let ghost x = self@.n * other@.d;
        let ghost y = other@.n * self@.d;
        proof {
            lemma_mul_sign(self@.n, other@.d);
            lemma_mul_sign(other@.n, self@.d);
            assert(iabs(other@.d) == other@.d && iabs(self@.d) == self@.d);
        }
        if !sneg && oneg {
            1
        } else if sneg && !oneg {
            -1
        } else {
            let t1 = wide_mul(abs_mag(self.num), other.den as u128);
            let t2 = wide_mul(abs_mag(other.num), self.den as u128);
            proof {
                assert(iabs(x) == t1.0 as int * b128() + t1.1 as int);
                assert(iabs(y) == t2.0 as int * b128() + t2.1 as int);
                assert((t1.1 as int) < b128() && (t2.1 as int) < b128());
            }
            let cmag: i8 = if t1.0 < t2.0 {
                -1
            } else if t1.0 > t2.0 {
                1
            } else if t1.1 < t2.1 {
                -1
            } else if t1.1 > t2.1 {
                1
            } else {
                0
            };
            proof {
                assert((cmag == -1) == (iabs(x) < iabs(y)));
                assert((cmag == 0) == (iabs(x) == iabs(y)));
            }
            if sneg {
                -cmag
            } else {
                cmag
            }
        }
    }

    /// The rational denoted by `self` is strictly smaller than `other`'s.
    pub fn lt(&self, other: &Amount) -> (r: bool)
        requires
            self.inv(),
            other.inv(),
        ensures
            r == rat_lt(self@, other@),
    {
        self.cmp_val(other) == -1
    }

    /// The rational denoted by `self` is no greater than `other`'s.
    pub fn le(&self, other: &Amount) -> (r: bool)
        requires
            self.inv(),
            other.inv(),
        ensures
            r == rat_le(self@, other@),
    {
        self.cmp_val(other) != 1
    }
}

/// A no-greater-than chain of well-formed fractions is a chain.
pub proof fn lemma_rat_le_trans(a: Rat, b: Rat, c: Rat)
    by (nonlinear_arith)
    requires
        rat_inv(a),
        rat_inv(b),
        rat_inv(c),
        rat_le(a, b),
        rat_le(b, c),
    ensures
        rat_le(a, c),
{
}

/// The reciprocal fraction, with a positive denominator.
pub open spec fn rat_recip(b: Rat) -> Rat {
    if b.n < 0 {
        Rat { n: -b.d, d: -b.n }
    } else {
        Rat { n: b.d, d: b.n }
    }
}

/// Dividing is multiplying by the reciprocal, representation for
/// representation.
pub proof fn lemma_div_as_mul(a: Rat, b: Rat)
    ensures
        rat_div(a, b) == rat_mul(a, rat_recip(b)),
{
    if b.n < 0 {
        assert(a.n * -b.d == -(a.n * b.d)) by (nonlinear_arith);
    }
}

/// The reciprocal of a product with a positive right factor is the
/// product of the reciprocals.
pub proof fn lemma_recip_mul(x: Rat, y: Rat)
    requires
        y.n >= 1,
    ensures
        rat_recip(rat_mul(x, y)) == rat_mul(rat_recip(x), rat_recip(y)),
{
    if x.n < 0 {
        assert(x.n * y.n < 0) by (nonlinear_arith)
            requires
                x.n < 0,
                y.n >= 1,
        ;
        assert(-(x.d * y.d) == -x.d * y.d) by (nonlinear_arith);
        assert(-(x.n * y.n) == -x.n * y.n) by (nonlinear_arith);
    } else {
        assert(x.n * y.n >= 0) by (nonlinear_arith)
            requires
                x.n >= 0,
                y.n >= 1,
        ;
    }
}

/// A nonzero fraction times its reciprocal denotes one.
pub proof fn lemma_mul_recip(b: Rat)
    requires
        rat_inv(b),
        b.n != 0,
    ensures
        rat_inv(rat_recip(b)),
        rat_eq(rat_mul(b, rat_recip(b)), rat_int(1)),
{
    if b.n < 0 {
        assert(b.n * -b.d == b.d * -b.n) by (nonlinear_arith);
    } else {
        assert(b.n * b.d == b.d * b.n) by (nonlinear_arith);
    }
}

/// Multiplying by a fraction denoting one changes nothing.
pub proof fn lemma_mul_one_like(a: Rat, x: Rat)
    by (nonlinear_arith)
    requires
        rat_inv(a),
        rat_inv(x),
        rat_eq(x, rat_int(1)),
    ensures
        rat_eq(rat_mul(a, x), a),
{
}

/// Multiplication of fractions is associative, representation for
/// representation.
pub proof fn lemma_rat_mul_assoc(a: Rat, b: Rat, c: Rat)
    ensures
        rat_mul(rat_mul(a, b), c) == rat_mul(a, rat_mul(b, c)),
{
    assert((a.n * b.n) * c.n == a.n * (b.n * c.n)) by (nonlinear_arith);
    assert((a.d * b.d) * c.d == a.d * (b.d * c.d)) by (nonlinear_arith);
}

/// Denoting the same rational is transitive.
pub proof fn lemma_rat_eq_trans(a: Rat, b: Rat, c: Rat)
    by (nonlinear_arith)
    requires
        b.d != 0,
        rat_eq(a, b),
        rat_eq(b, c),
    ensures
        rat_eq(a, c),
{
}

/// Multiplying two fractions that denote the same rational by the same
/// fraction keeps them denoting the same rational.
pub proof fn lemma_rat_mul_compat(a: Rat, a2: Rat, b: Rat)
    by (nonlinear_arith)
    requires
        rat_eq(a, a2),
    ensures
        rat_eq(rat_mul(a, b), rat_mul(a2, b)),
        rat_eq(rat_mul(b, a), rat_mul(b, a2)),
{
}

/// Products of well-formed fractions are well formed.
pub proof fn lemma_rat_mul_inv(a: Rat, b: Rat)
    by (nonlinear_arith)
    requires
        rat_inv(a),
        rat_inv(b),
    ensures
        rat_inv(rat_mul(a, b)),
        rat_inv(rat_add(a, b)),
        rat_inv(rat_sub(a, b)),
{
}

/// Multiplying both sides by a positive fraction neither creates nor
/// destroys equality or order.
pub proof fn lemma_rat_cancel(x: Rat, y: Rat, s: Rat)
    by (nonlinear_arith)
    requires
        rat_inv(x),
        rat_inv(y),
        rat_inv(s),
        s.n >= 1,
    ensures
        rat_eq(rat_mul(x, s), rat_mul(y, s)) == rat_eq(x, y),
        rat_lt(rat_mul(x, s), rat_mul(y, s)) == rat_lt(x, y),
{
}

/// Equality and order against a fixed fraction only depend on the denoted
/// rational, not on the representation.
pub proof fn lemma_rat_compat(z: Rat, x: Rat, y: Rat)
    by (nonlinear_arith)
    requires
        rat_eq(x, y),
        rat_inv(x),
        rat_inv(y),
    ensures
        rat_eq(z, x) == rat_eq(z, y),
        rat_eq(x, z) == rat_eq(y, z),
        rat_lt(z, x) == rat_lt(z, y),
        rat_lt(x, z) == rat_lt(y, z),
{
}

/// Converting an amount from a unit of scale `sv` to a unit of scale `st`
/// (multiplying by the reduced ratio `sv / st` and reducing) keeps the
/// reference-unit value `amount * scale` unchanged.
pub proof fn lemma_conv_value(a: Rat, sv: Rat, st: Rat)
    requires
        rat_inv(a),
        rat_inv(sv),
        rat_inv(st),
        sv.n >= 1,
        st.n >= 1,
    ensures
        rat_inv(rat_canon(rat_mul(rat_canon(rat_div(sv, st)), a))),
        rat_eq(
            rat_mul(rat_canon(rat_mul(rat_canon(rat_div(sv, st)), a)), st),
            rat_mul(a, sv),
        ),
{
    let q0 = rat_div(sv, st);
    assert(q0 == Rat { n: sv.n * st.d, d: sv.d * st.n });
    assert(rat_inv(q0) && q0.n >= 1) by (nonlinear_arith)
        requires
            sv.n >= 1,
            st.d >= 1,
            sv.d >= 1,
            st.n >= 1,
            q0 == (Rat { n: sv.n * st.d, d: sv.d * st.n }),
    ;
    lemma_canon_eq(q0);
    let q = rat_canon(q0);
    let m0 = rat_mul(q, a);
    lemma_rat_mul_inv(q, a);
    let m = rat_canon(m0);
    lemma_canon_eq(m0);
    // m * st == m0 * st == (q0 * a) * st == a * sv, as rationals.
    lemma_rat_mul_compat(m, m0, st);
    lemma_rat_mul_compat(q, q0, a);
    lemma_rat_mul_compat(rat_mul(q, a), rat_mul(q0, a), st);
    assert(rat_eq(rat_mul(rat_mul(q0, a), st), rat_mul(a, sv))) by {
        let lhs = rat_mul(rat_mul(q0, a), st);
        let rhs = rat_mul(a, sv);
        assert(lhs.n == ((sv.n * st.d) * a.n) * st.n && lhs.d == ((sv.d * st.n) * a.d) * st.d
            && rhs.n == a.n * sv.n && rhs.d == a.d * sv.d);
        assert((((sv.n * st.d) * a.n) * st.n) * (a.d * sv.d) == (a.n * sv.n) * ((((sv.d * st.n)
            * a.d) * st.d))) by (nonlinear_arith);
    }
    lemma_rat_mul_inv(q0, a);
    lemma_rat_mul_inv(m0, st);
    lemma_rat_mul_inv(rat_mul(q0, a), st);
    lemma_rat_eq_trans(rat_mul(m, st), rat_mul(m0, st), rat_mul(rat_mul(q0, a), st));
    lemma_rat_eq_trans(rat_mul(m, st), rat_mul(rat_mul(q0, a), st), rat_mul(a, sv));
}

/// Dividing an amount by a positive scale and multiplying by that scale
/// again gives back the amount.
pub proof fn lemma_div_round_trip(a: Rat, s: Rat)
    requires
        rat_inv(a),
        rat_inv(s),
        s.n >= 1,
    ensures
        rat_inv(rat_canon(rat_div(a, s))),
        rat_eq(rat_mul(rat_canon(rat_div(a, s)), s), a),
{
    let q0 = rat_div(a, s);
    assert(q0 == Rat { n: a.n * s.d, d: a.d * s.n });
    assert(rat_inv(q0)) by (nonlinear_arith)
        requires
            a.d >= 1,
            s.n >= 1,
            q0.d == a.d * s.n,
    ;
    lemma_canon_eq(q0);
    let q = rat_canon(q0);
    lemma_rat_mul_compat(q, q0, s);
    assert(rat_eq(rat_mul(q0, s), a)) by (nonlinear_arith)
        requires
            q0 == (Rat { n: a.n * s.d, d: a.d * s.n }),
            rat_inv(a),
            rat_inv(s),
    ;
    lemma_rat_mul_inv(q0, s);
    lemma_rat_eq_trans(rat_mul(q, s), rat_mul(q0, s), a);
}

/// Powers of ten.
pub open spec fn pow10(e: nat) -> int
    decreases e,
{
    if e == 0 {
        1
    } else {
        10 * pow10((e - 1) as nat)
    }
}

/// Powers of ten are positive.
pub proof fn lemma_pow10_pos(e: nat)
    ensures
        pow10(e) >= 1,
    decreases e,
{
    if e > 0 {
        lemma_pow10_pos((e - 1) as nat);
    }
}

/// Powers of ten grow with the exponent.
pub proof fn lemma_pow10_mono(e1: nat, e2: nat)
    requires
        e1 <= e2,
    ensures
        pow10(e1) <= pow10(e2),
    decreases e2,
{
    if e1 < e2 {
        lemma_pow10_mono(e1, (e2 - 1) as nat);
        lemma_pow10_pos((e2 - 1) as nat);
    }
}

/// Powers of ten multiply by adding exponents.
pub proof fn lemma_pow10_adds(a: nat, b: nat)
    ensures
        pow10(a) * pow10(b) == pow10((a + b) as nat),
    decreases a,
{
    if a == 0 {
        assert(pow10(0) == 1);
        assert(1 * pow10(b) == pow10(b)) by (nonlinear_arith);
    } else {
        lemma_pow10_adds((a - 1) as nat, b);
        assert((10 * pow10((a - 1) as nat)) * pow10(b) == 10 * (pow10((a - 1) as nat) * pow10(b)))
            by (nonlinear_arith);
    }
}

/// Reduction keeps the sign of the numerator.
pub proof fn lemma_canon_sign(r: Rat)
    requires
        rat_inv(r),
    ensures
        (rat_canon(r).n > 0) == (r.n > 0),
        (rat_canon(r).n < 0) == (r.n < 0),
        (rat_canon(r).n == 0) == (r.n == 0),
{
    lemma_canon_eq(r);
    let c = rat_canon(r);
    assert((c.n > 0) == (r.n > 0) && (c.n < 0) == (r.n < 0)) by (nonlinear_arith)
        requires
            c.n * r.d == r.n * c.d,
            r.d >= 1,
            c.d >= 1,
    ;
}

/// Ten to the 38th still fits the machine word.
proof fn lemma_pow10_38()
    ensures
        pow10(38) == 100000000000000000000000000000000000000,
        pow10(19) == 10000000000000000000,
        pow10(7) == 10000000,
{
    reveal_with_fuel(pow10, 40);
}

/// `10^e`, executable form.
fn pow10_exec(e: u32) -> (r: i128)
    requires
        e <= 38,
    ensures
        r as int == pow10(e as nat),
        1 <= r,
{
    proof {
        lemma_pow10_38();
        lemma_pow10_mono(e as nat, 38);
        lemma_pow10_pos(e as nat);
    }
    let mut acc: i128 = 1;
    let mut i: u32 = 0;
    while i < e
        invariant
            i <= e <= 38,
            1 <= acc,
            acc as int == pow10(i as nat),
            pow10(e as nat) <= pow10(38),
            pow10(38) == 100000000000000000000000000000000000000,
        decreases e - i,
    {
        proof {
            lemma_pow10_mono((i + 1) as nat, e as nat);
            assert(pow10((i + 1) as nat) == 10 * pow10(i as nat));
        }
        acc = acc * 10;
        i = i + 1;
    }
    acc
}

} // verus!
