//! Compiled quantity definitions and quantity values.
//!
//! A [`QtyDef`] is the runtime table a validated quantity declaration
//! compiles to: one [`UnitDef`] per unit, ordered by ascending scale
//! (quantities with a reference unit) or by display name (quantities
//! without one).  A [`Qty`] is a value of such a quantity: an exact
//! rational amount paired with the index of its unit in the table.

use crate::amount::{
    add_fits, div_fits, lemma_conv_value, lemma_div_round_trip, lemma_rat_cancel,
    lemma_rat_compat, lemma_rat_mul_inv, mul_fits, rat_add, rat_add_norm, rat_canon, rat_div,
    rat_eq, rat_int, rat_inv, rat_le, rat_lt, rat_mul, rat_sub, rat_sub_norm, sub_fits, Amount,
    Rat,
};
use crate::si_prefixes::SIPrefix;
use vstd::prelude::*;

verus! {

/// Lexicographic order on byte strings, starting the comparison at `k`.
pub open spec fn lex_lt_from(a: Seq<u8>, b: Seq<u8>, k: int) -> bool
    decreases b.len() - k,
{
    if k >= b.len() {
        false
    } else if k >= a.len() {
        true
    } else if a[k] != b[k] {
        a[k] < b[k]
    } else {
        lex_lt_from(a, b, k + 1)
    }
}

/// Lexicographic order on byte strings.
pub open spec fn lex_lt(a: Seq<u8>, b: Seq<u8>) -> bool {
    lex_lt_from(a, b, 0)
}

/// The byte string of a text, in its storage encoding.
pub open spec fn bytes_of(s: Seq<char>) -> Seq<u8> {
    vstd::utf8::encode_utf8(s)
}

/// Compares two byte slices lexicographically.
pub(crate) fn bytes_lt(a: &[u8], b: &[u8]) -> (r: bool)
    ensures
        r == lex_lt(a@, b@),
{
    let alen = a.len();
    let blen = b.len();
    let mut k: usize = 0;
    loop
        invariant
            k <= alen <= a@.len(),
            k <= blen <= b@.len(),
            alen == a@.len(),
            blen == b@.len(),
            lex_lt(a@, b@) == lex_lt_from(a@, b@, k as int),
        decreases alen + blen - 2 * k,
    {
        if k >= blen {
            return false;
        }
        if k >= alen {
            return true;
        }
        if a[k] != b[k] {
            return a[k] < b[k];
        }
        k = k + 1;
    }
}

/// One unit of a compiled quantity: display name, symbol, optional SI
/// prefix, and (for quantities with a reference unit) the scale factor
/// turning one of this unit into the reference-unit amount.
#[derive(Debug)]
pub struct UnitDef {
    /// Display name.
    pub name: String,
    /// The UpperCamel variant identifier derived from the declared
    /// identifier.
    pub variant: String,
    /// Symbol used to render values of this unit.
    pub symbol: String,
    /// SI prefix, for units that carry one.
    pub si_prefix: Option<SIPrefix>,
    /// Scale relative to the reference unit; present exactly when the
    /// quantity has a reference unit.
    pub scale: Option<Amount>,
}

/// The operator of a derivation expression.
#[derive(Clone, Copy, Debug, PartialEq, Eq, Structural)]
pub enum DerivOp {
    /// The quantity is the product of the two operands.
    Mul,
    /// The quantity is the quotient of the two operands.
    Div,
}

/// A derivation expression: this quantity is `lhs op rhs`, both operands
/// naming previously defined quantities.
#[derive(Debug)]
pub struct Derivation {
    /// Identifier of the left operand quantity.
    pub lhs: String,
    /// The operator.
    pub op: DerivOp,
    /// Identifier of the right operand quantity.
    pub rhs: String,
}

/// A compiled quantity definition.
#[derive(Debug)]
pub struct QtyDef {
    /// Identifier of the quantity.
    pub ident: String,
    /// Derivation expression, for derived quantities.
    pub derived: Option<Derivation>,
    /// Index of the reference unit in `units`, if the quantity has one.
    pub ref_unit: Option<usize>,
    /// The units, sorted by ascending scale (with a reference unit) or by
    /// display name (without one).
    pub units: Vec<UnitDef>,
}

/// A quantity value: an exact amount and the index of its unit in the
/// owning quantity's unit table.
#[derive(Clone, Copy)]
pub struct Qty {
    /// The numeric amount.
    pub amount: Amount,
    /// Index of the unit the amount is expressed in.
    pub unit: usize,
}

impl Qty {
    /// Returns a new quantity value from an amount and a unit.
    pub fn new(amount: Amount, unit: usize) -> (q: Qty)
        ensures
            q.amount == amount,
            q.unit == unit,
    {
        Qty { amount, unit }
    }

    /// Returns the amount of `self`.
    pub fn amount(&self) -> (r: Amount)
        ensures
            r == self.amount,
    {
        self.amount
    }

    /// Returns the unit of `self`.
    pub fn unit(&self) -> (r: usize)
        ensures
            r == self.unit,
    {
        self.unit
    }
}

impl QtyDef {
    /// `i` is a unit index of this quantity.
    pub open spec fn unit_ok(self, i: int) -> bool {
        0 <= i < self.units@.len()
    }

    /// The quantity has a reference unit.
    pub open spec fn has_ref(self) -> bool {
        self.ref_unit is Some
    }

    /// Index of the reference unit.
    pub open spec fn ref_idx(self) -> int {
        self.ref_unit->Some_0 as int
    }

    /// The scale of unit `i`, as a fraction.
    pub open spec fn scale_at(self, i: int) -> Rat {
        self.units@[i].scale->Some_0@
    }

    /// The symbol of unit `i`.
    pub open spec fn sym_at(self, i: int) -> Seq<char> {
        self.units@[i].symbol@
    }

    /// The display name of unit `i`.
    pub open spec fn name_at(self, i: int) -> Seq<char> {
        self.units@[i].name@
    }

    /// The SI prefix of unit `i`.
    pub open spec fn prefix_at(self, i: int) -> Option<SIPrefix> {
        self.units@[i].si_prefix
    }

    /// Every unit carries a positive, well-formed scale.
    pub open spec fn scales_wf(self) -> bool {
        forall|i: int|
            self.unit_ok(i) ==> (#[trigger] self.units@[i].scale) is Some && rat_inv(
                self.scale_at(i),
            ) && self.scale_at(i).n >= 1
    }

    /// Units are sorted by ascending scale.
    pub open spec fn sorted_by_scale(self) -> bool {
        forall|i: int, j: int|
            0 <= i <= j < self.units@.len() ==> rat_le(
                #[trigger] self.scale_at(i),
                #[trigger] self.scale_at(j),
            )
    }

    /// Units are sorted by ascending display name.
    pub open spec fn sorted_by_name(self) -> bool {
        forall|i: int, j: int|
            0 <= i < j < self.units@.len() ==> !lex_lt(
                bytes_of(#[trigger] self.name_at(j)),
                bytes_of(#[trigger] self.name_at(i)),
            )
    }

    /// Well-formedness of a compiled definition.
    ///
    /// With a reference unit: every unit has a positive scale, the
    /// reference unit's scale is exactly one, and the table is sorted by
    /// ascending scale.  Without one: no unit has a scale or an SI prefix,
    /// and the table is sorted by display name.
    pub open spec fn wf(self) -> bool {
        &&& self.units@.len() >= 1
        &&& self.units@.len() <= usize::MAX as int
        &&& match self.ref_unit {
            Some(r) => {
                &&& self.unit_ok(r as int)
                &&& self.scales_wf()
                &&& self.scale_at(r as int) == rat_int(1)
                &&& self.sorted_by_scale()
            },
            None => {
                &&& forall|i: int|
                    self.unit_ok(i) ==> (#[trigger] self.units@[i].scale) is None
                &&& forall|i: int|
                    self.unit_ok(i) ==> (#[trigger] self.units@[i].si_prefix) is None
                &&& self.sorted_by_name()
            },
        }
    }

    /// A quantity value is valid for this definition when its unit index is
    /// in range and its amount is well formed.
    pub open spec fn valid_qty(self, q: Qty) -> bool {
        self.unit_ok(q.unit as int) && q.amount.inv()
    }

    /// The number of units.
    pub fn n_units(&self) -> (r: usize)
        ensures
            r as int == self.units@.len(),
    {
        self.units.len()
    }

    /// Returns the display name of unit `i`.
    pub fn unit_name(&self, i: usize) -> (r: &String)
        requires
            self.unit_ok(i as int),
        ensures
            r@ == self.name_at(i as int),
    {
        &self.units[i].name
    }

    /// Returns the symbol of unit `i`.
    pub fn unit_symbol(&self, i: usize) -> (r: &String)
        requires
            self.unit_ok(i as int),
        ensures
            r@ == self.sym_at(i as int),
    {
        &self.units[i].symbol
    }

    /// Returns the SI prefix of unit `i`, or `None` if unit `i` is not an
    /// SI unit.
    pub fn unit_si_prefix(&self, i: usize) -> (r: Option<SIPrefix>)
        requires
            self.unit_ok(i as int),
        ensures
            r == self.prefix_at(i as int),
    {
        self.units[i].si_prefix
    }

    /// Returns `true` if unit `i` is the reference unit of this quantity.
    pub fn is_ref_unit(&self, i: usize) -> (r: bool)
        requires
            self.unit_ok(i as int),
        ensures
            r == (self.ref_unit == Some(i)),
    {
        match self.ref_unit {
            Some(r) => r == i,
            None => false,
        }
    }

    /// Returns the scale of unit `i`: the factor turning one of this unit
    /// into the reference-unit amount.
    pub fn scale(&self, i: usize) -> (r: Amount)
        requires
            self.wf(),
            self.has_ref(),
            self.unit_ok(i as int),
        ensures
            r@ == self.scale_at(i as int),
            r.inv(),
            r@.n >= 1,
    {
        let u = &self.units[i];
        match u.scale {
            Some(s) => s,
            None => Amount::from_int(1),  // cannot happen for a well-formed definition
        }
    }

    /// Returns `factor` so that `factor * unit_j == 1 * unit_i`.
    pub fn ratio(&self, i: usize, j: usize) -> (r: Amount)
        requires
            self.wf(),
            self.has_ref(),
            self.unit_ok(i as int),
            self.unit_ok(j as int),
            div_fits(self.scale_at(i as int), self.scale_at(j as int)),
        ensures
            r.inv(),
            r@ == rat_canon(rat_div(self.scale_at(i as int), self.scale_at(j as int))),
            rat_eq(r@, rat_div(self.scale_at(i as int), self.scale_at(j as int))),
    {
        let si = self.scale(i);
        let sj = self.scale(j);
        si.div(&sj)
    }

    /// Returns `Some(k)` where `k` is the first unit whose symbol is
    /// `symbol`, or `None` if there is no such unit.
    pub fn unit_from_symbol(&self, symbol: &str) -> (r: Option<usize>)
        ensures
            match r {
                Some(k) => self.unit_ok(k as int) && self.sym_at(k as int) == symbol@ && forall|
                    j: int,
                |
                    0 <= j < k as int ==> self.sym_at(j) != symbol@,
                None => forall|j: int| self.unit_ok(j) ==> self.sym_at(j) != symbol@,
            },
    {
        let wanted = symbol.to_owned();
        let n = self.units.len();
        let mut k: usize = 0;
        while k < n
            invariant
                n as int == self.units@.len(),
                k <= n,
                wanted@ == symbol@,
                forall|j: int| 0 <= j < k as int ==> self.sym_at(j) != symbol@,
            decreases n - k,
        {
            if self.units[k].symbol == wanted {
                return Some(k);
            }
            k = k + 1;
        }
        None
    }

    /// Returns `Some(k)` where `k` is the first unit whose scale equals
    /// `amnt` (as stored, in lowest terms), or `None` if there is no such
    /// unit.
    pub fn unit_from_scale(&self, amnt: &Amount) -> (r: Option<usize>)
        requires
            self.wf(),
            self.has_ref(),
        ensures
            match r {
                Some(k) => self.unit_ok(k as int) && self.scale_at(k as int) == amnt@ && forall|
                    j: int,
                |
                    0 <= j < k as int ==> self.scale_at(j) != amnt@,
                None => forall|j: int| self.unit_ok(j) ==> self.scale_at(j) != amnt@,
            },
    {
        let n = self.units.len();
        let mut k: usize = 0;
        while k < n
            invariant
                self.wf(),
                self.has_ref(),
                n as int == self.units@.len(),
                k <= n,
                forall|j: int| 0 <= j < k as int ==> self.scale_at(j) != amnt@,
            decreases n - k,
        {
            let s = self.scale(k);
            if s.eq_repr(amnt) {
                return Some(k);
            }
            k = k + 1;
        }
        None
    }
}

/// The amount of `v` expressed in unit `to`: unchanged when `v` is already
/// in that unit, otherwise multiplied by the reduced ratio of the two
/// scales and reduced again.
pub open spec fn equiv_spec(d: QtyDef, v: Qty, to: int) -> Rat {
    if v.unit as int == to {
        v.amount@
    } else {
        rat_canon(
            rat_mul(rat_canon(rat_div(d.scale_at(v.unit as int), d.scale_at(to))), v.amount@),
        )
    }
}

/// The intermediate products of a conversion fit the machine word.
pub open spec fn equiv_fits(d: QtyDef, v: Qty, to: int) -> bool {
    v.unit as int != to ==> {
        &&& div_fits(d.scale_at(v.unit as int), d.scale_at(to))
        &&& mul_fits(
            rat_canon(rat_div(d.scale_at(v.unit as int), d.scale_at(to))),
            v.amount@,
        )
    }
}

/// The two values of a reference-unit quantity denote the same magnitude:
/// their amounts, scaled to the reference unit, are the same rational.
pub open spec fn same_value(d: QtyDef, a: Qty, b: Qty) -> bool {
    rat_eq(
        rat_mul(a.amount@, d.scale_at(a.unit as int)),
        rat_mul(b.amount@, d.scale_at(b.unit as int)),
    )
}

/// `a` denotes a strictly smaller magnitude than `b`, in a reference-unit
/// quantity.
pub open spec fn lt_value(d: QtyDef, a: Qty, b: Qty) -> bool {
    rat_lt(
        rat_mul(a.amount@, d.scale_at(a.unit as int)),
        rat_mul(b.amount@, d.scale_at(b.unit as int)),
    )
}

/// The amount of one unit `u` expressed in unit `to` of the same
/// quantity: one for the same unit, otherwise the reduced ratio of the
/// two scales times one.
pub open spec fn one_in_unit(d: QtyDef, u: int, to: int) -> Rat {
    if u == to {
        rat_int(1)
    } else {
        rat_canon(rat_mul(rat_canon(rat_div(d.scale_at(u), d.scale_at(to))), rat_int(1)))
    }
}

/// The intermediate products of converting one unit fit the machine word.
pub open spec fn one_in_unit_fits(d: QtyDef, u: int, to: int) -> bool {
    u != to ==> {
        &&& div_fits(d.scale_at(u), d.scale_at(to))
        &&& mul_fits(rat_canon(rat_div(d.scale_at(u), d.scale_at(to))), rat_int(1))
    }
}

impl QtyDef {
    /// Returns `factor` so that `factor * to == v`, converting through the
    /// scales of the two units.
    pub fn equiv_amount(&self, v: &Qty, to: usize) -> (r: Amount)
        requires
            self.wf(),
            self.has_ref(),
            self.valid_qty(*v),
            self.unit_ok(to as int),
            equiv_fits(*self, *v, to as int),
        ensures
            r.inv(),
            r@ == equiv_spec(*self, *v, to as int),
            rat_eq(
                rat_mul(r@, self.scale_at(to as int)),
                rat_mul(v.amount@, self.scale_at(v.unit as int)),
            ),
    {
        if v.unit == to {
            v.amount
        } else {
            let f = self.ratio(v.unit, to);
            let r = f.mul(&v.amount);
            proof {
                lemma_conv_value(
                    v.amount@,
                    self.scale_at(v.unit as int),
                    self.scale_at(to as int),
                );
            }
            r
        }
    }

    /// Returns `q` with `q == v` and `q.unit() == to_unit`.
    pub fn convert(&self, v: &Qty, to_unit: usize) -> (r: Qty)
        requires
            self.wf(),
            self.has_ref(),
            self.valid_qty(*v),
            self.unit_ok(to_unit as int),
            equiv_fits(*self, *v, to_unit as int),
        ensures
            self.valid_qty(r),
            r.unit == to_unit,
            r.amount@ == equiv_spec(*self, *v, to_unit as int),
            same_value(*self, r, *v),
    {
        let r = Qty::new(self.equiv_amount(v, to_unit), to_unit);
        proof {
            let sa = self.scale_at(to_unit as int);
            let sb = self.scale_at(v.unit as int);
            assert(rat_eq(rat_mul(r.amount@, sa), rat_mul(v.amount@, sb)));
        }
        r
    }

    /// Returns `true` if `a` and `b` denote the same value.  For quantities
    /// with a reference unit the right-hand side is converted first; for
    /// quantities without one, values of different units are never equal.
    pub fn qty_eq(&self, a: &Qty, b: &Qty) -> (r: bool)
        requires
            self.wf(),
            self.valid_qty(*a),
            self.valid_qty(*b),
            self.has_ref() ==> equiv_fits(*self, *b, a.unit as int),
        ensures
            self.has_ref() ==> r == same_value(*self, *a, *b),
            !self.has_ref() ==> r == (a.unit == b.unit && rat_eq(a.amount@, b.amount@)),
    {
        match self.ref_unit {
            Some(_) => {
                let t = self.equiv_amount(b, a.unit);
                let c = a.amount.cmp_val(&t);
                proof {
                    self.lemma_scaled_compare(*a, *b, t);
                }
                c == 0
            },
            None => a.unit == b.unit && a.amount.cmp_val(&b.amount) == 0,
        }
    }

    /// Three-way comparison of two values: `Some(-1)`, `Some(0)` or
    /// `Some(1)` as `a` is smaller than, equal to or greater than `b`.
    /// Values of a quantity without a reference unit compare only within
    /// one unit; otherwise the result is `None`.
    pub fn qty_cmp(&self, a: &Qty, b: &Qty) -> (r: Option<i8>)
        requires
            self.wf(),
            self.valid_qty(*a),
            self.valid_qty(*b),
            self.has_ref() ==> equiv_fits(*self, *b, a.unit as int),
        ensures
            self.has_ref() ==> match r {
                Some(c) => (c == -1 || c == 0 || c == 1) && (c == -1) == lt_value(*self, *a, *b)
                    && (c == 0) == same_value(*self, *a, *b) && (c == 1) == lt_value(
                    *self,
                    *b,
                    *a,
                ),
                None => false,
            },
            !self.has_ref() ==> match r {
                Some(c) => a.unit == b.unit && (c == -1) == rat_lt(a.amount@, b.amount@) && (c
                    == 0) == rat_eq(a.amount@, b.amount@) && (c == 1) == rat_lt(
                    b.amount@,
                    a.amount@,
                ),
                None => a.unit != b.unit,
            },
    {
        match self.ref_unit {
            Some(_) => {
                let t = self.equiv_amount(b, a.unit);
                let c = a.amount.cmp_val(&t);
                proof {
                    self.lemma_scaled_compare(*a, *b, t);
                }
                Some(c)
            },
            None => {
                if a.unit == b.unit {
                    Some(a.amount.cmp_val(&b.amount))
                } else {
                    None
                }
            },
        }
    }

    /// Comparing `a`'s amount with `b`'s amount converted to `a`'s unit is
    /// the same as comparing the two reference-unit magnitudes.
    proof fn lemma_scaled_compare(self, a: Qty, b: Qty, t: Amount)
        requires
            self.wf(),
            self.has_ref(),
            self.valid_qty(a),
            self.valid_qty(b),
            t.inv(),
            rat_eq(
                rat_mul(t@, self.scale_at(a.unit as int)),
                rat_mul(b.amount@, self.scale_at(b.unit as int)),
            ),
        ensures
            rat_eq(a.amount@, t@) == same_value(self, a, b),
            rat_lt(a.amount@, t@) == lt_value(self, a, b),
            rat_lt(t@, a.amount@) == lt_value(self, b, a),
    {
        let sa = self.scale_at(a.unit as int);
        let sb = self.scale_at(b.unit as int);
        lemma_rat_cancel(a.amount@, t@, sa);
        lemma_rat_cancel(t@, a.amount@, sa);
        lemma_rat_mul_inv(a.amount@, sa);
        lemma_rat_mul_inv(t@, sa);
        lemma_rat_mul_inv(b.amount@, sb);
        lemma_rat_compat(rat_mul(a.amount@, sa), rat_mul(t@, sa), rat_mul(b.amount@, sb));
    }

    /// Returns the sum of `a` and `b`, with `b` converted to `a`'s unit
    /// first.  For quantities without a reference unit both values must
    /// share a unit.
    pub fn add(&self, a: &Qty, b: &Qty) -> (r: Qty)
        requires
            self.wf(),
            self.valid_qty(*a),
            self.valid_qty(*b),
            !self.has_ref() ==> a.unit == b.unit,
            self.has_ref() ==> equiv_fits(*self, *b, a.unit as int),
            add_fits(a.amount@, equiv_spec(*self, *b, a.unit as int)),
        ensures
            self.valid_qty(r),
            r.unit == a.unit,
            r.amount@ == rat_canon(rat_add_norm(a.amount@, equiv_spec(*self, *b, a.unit as int))),
            rat_eq(r.amount@, rat_add(a.amount@, equiv_spec(*self, *b, a.unit as int))),
    {
        let t = match self.ref_unit {
            Some(_) => self.equiv_amount(b, a.unit),
            None => b.amount,
        };
        Qty::new(a.amount.add(&t), a.unit)
    }

    /// Returns the difference of `a` and `b`, with `b` converted to `a`'s
    /// unit first.  For quantities without a reference unit both values
    /// must share a unit.
    pub fn sub(&self, a: &Qty, b: &Qty) -> (r: Qty)
        requires
            self.wf(),
            self.valid_qty(*a),
            self.valid_qty(*b),
            !self.has_ref() ==> a.unit == b.unit,
            self.has_ref() ==> equiv_fits(*self, *b, a.unit as int),
            sub_fits(a.amount@, equiv_spec(*self, *b, a.unit as int)),
        ensures
            self.valid_qty(r),
            r.unit == a.unit,
            r.amount@ == rat_canon(rat_sub_norm(a.amount@, equiv_spec(*self, *b, a.unit as int))),
            rat_eq(r.amount@, rat_sub(a.amount@, equiv_spec(*self, *b, a.unit as int))),
    {
        let t = match self.ref_unit {
            Some(_) => self.equiv_amount(b, a.unit),
            None => b.amount,
        };
        Qty::new(a.amount.sub(&t), a.unit)
    }

    /// Returns the dimensionless quotient of `a` and `b`, with `b`
    /// converted to `a`'s unit first.  For quantities without a reference
    /// unit both values must share a unit; the divisor must not be zero.
    pub fn div(&self, a: &Qty, b: &Qty) -> (r: Amount)
        requires
            self.wf(),
            self.valid_qty(*a),
            self.valid_qty(*b),
            !self.has_ref() ==> a.unit == b.unit,
            self.has_ref() ==> equiv_fits(*self, *b, a.unit as int),
            equiv_spec(*self, *b, a.unit as int).n != 0,
            div_fits(a.amount@, equiv_spec(*self, *b, a.unit as int)),
        ensures
            r.inv(),
            r@ == rat_canon(rat_div(a.amount@, equiv_spec(*self, *b, a.unit as int))),
            rat_eq(r@, rat_div(a.amount@, equiv_spec(*self, *b, a.unit as int))),
    {
        let t = match self.ref_unit {
            Some(_) => self.equiv_amount(b, a.unit),
            None => b.amount,
        };
        a.amount.div(&t)
    }

    /// Like [`QtyDef::add`], but returns `None` instead of demanding a
    /// shared unit: adding values of different units of a quantity without
    /// a reference unit has no defined result.
    pub fn try_add(&self, a: &Qty, b: &Qty) -> (r: Option<Qty>)
        requires
            self.wf(),
            self.valid_qty(*a),
            self.valid_qty(*b),
            self.has_ref() ==> equiv_fits(*self, *b, a.unit as int),
            self.has_ref() || a.unit == b.unit ==> add_fits(
                a.amount@,
                equiv_spec(*self, *b, a.unit as int),
            ),
        ensures
            r is Some <==> self.has_ref() || a.unit == b.unit,
            match r {
                Some(q) => self.valid_qty(q) && q.unit == a.unit && q.amount@ == rat_canon(
                    rat_add_norm(a.amount@, equiv_spec(*self, *b, a.unit as int)),
                ),
                None => !self.has_ref() && a.unit != b.unit,
            },
    {
        match self.ref_unit {
            Some(_) => Some(self.add(a, b)),
            None => {
                if a.unit == b.unit {
                    Some(self.add(a, b))
                } else {
                    None
                }
            },
        }
    }

    /// Like [`QtyDef::sub`], but returns `None` instead of demanding a
    /// shared unit.
    pub fn try_sub(&self, a: &Qty, b: &Qty) -> (r: Option<Qty>)
        requires
            self.wf(),
            self.valid_qty(*a),
            self.valid_qty(*b),
            self.has_ref() ==> equiv_fits(*self, *b, a.unit as int),
            self.has_ref() || a.unit == b.unit ==> sub_fits(
                a.amount@,
                equiv_spec(*self, *b, a.unit as int),
            ),
        ensures
            r is Some <==> self.has_ref() || a.unit == b.unit,
            match r {
                Some(q) => self.valid_qty(q) && q.unit == a.unit && q.amount@ == rat_canon(
                    rat_sub_norm(a.amount@, equiv_spec(*self, *b, a.unit as int)),
                ),
                None => !self.has_ref() && a.unit != b.unit,
            },
    {
        match self.ref_unit {
            Some(_) => Some(self.sub(a, b)),
            None => {
                if a.unit == b.unit {
                    Some(self.sub(a, b))
                } else {
                    None
                }
            },
        }
    }

    /// Like [`QtyDef::div`], but returns `None` instead of demanding a
    /// shared unit.
    pub fn try_div(&self, a: &Qty, b: &Qty) -> (r: Option<Amount>)
        requires
            self.wf(),
            self.valid_qty(*a),
            self.valid_qty(*b),
            self.has_ref() ==> equiv_fits(*self, *b, a.unit as int),
            self.has_ref() || a.unit == b.unit ==> equiv_spec(*self, *b, a.unit as int).n != 0,
            self.has_ref() || a.unit == b.unit ==> div_fits(
                a.amount@,
                equiv_spec(*self, *b, a.unit as int),
            ),
        ensures
            r is Some <==> self.has_ref() || a.unit == b.unit,
            match r {
                Some(q) => q.inv() && q@ == rat_canon(
                    rat_div(a.amount@, equiv_spec(*self, *b, a.unit as int)),
                ),
                None => !self.has_ref() && a.unit != b.unit,
            },
    {
        match self.ref_unit {
            Some(_) => Some(self.div(a, b)),
            None => {
                if a.unit == b.unit {
                    Some(self.div(a, b))
                } else {
                    None
                }
            },
        }
    }
}

/// Best-fit considers all units when the reference unit carries no SI
/// prefix, and only SI-prefixed units otherwise.
pub open spec fn fit_take_all(d: QtyDef) -> bool {
    d.prefix_at(d.ref_idx()) is None
}

/// Unit `i` is a best-fit candidate.
pub open spec fn fit_cand(d: QtyDef, i: int) -> bool {
    fit_take_all(d) || d.prefix_at(i) is Some
}

/// The first candidate index at or after `i`.
pub open spec fn first_cand_from(d: QtyDef, i: int) -> int
    decreases d.units@.len() - i,
{
    if i >= d.units@.len() {
        i
    } else if fit_cand(d, i) {
        i
    } else {
        first_cand_from(d, i + 1)
    }
}

/// The first candidate: the candidate of smallest scale, since units are
/// sorted by ascending scale.
pub open spec fn first_cand(d: QtyDef) -> int {
    first_cand_from(d, 0)
}

/// The greatest index `j <= k` of a candidate whose scale is above the
/// first candidate's and no greater than `a`, or `-1` if there is none.
pub open spec fn fit_match(d: QtyDef, a: Rat, k: int) -> int
    decreases k + 1,
{
    if k < 0 {
        -1
    } else if fit_cand(d, k) && rat_lt(d.scale_at(first_cand(d)), d.scale_at(k)) && rat_le(
        d.scale_at(k),
        a,
    ) {
        k
    } else {
        fit_match(d, a, k - 1)
    }
}

/// The unit best-fit picks for a raw reference-unit amount `a`: the
/// greatest candidate not exceeding `a`, or the first candidate if none
/// qualifies.
pub open spec fn fit_choice(d: QtyDef, a: Rat) -> int {
    if fit_match(d, a, d.units@.len() - 1) >= 0 {
        fit_match(d, a, d.units@.len() - 1)
    } else {
        first_cand(d)
    }
}

/// The first candidate search stops at or before any known candidate.
proof fn lemma_first_cand_from(d: QtyDef, i: int, w: int)
    requires
        0 <= i <= w,
        w < d.units@.len(),
        fit_cand(d, w),
    ensures
        i <= first_cand_from(d, i) <= w,
        fit_cand(d, first_cand_from(d, i)),
        forall|j: int| i <= j < first_cand_from(d, i) ==> !fit_cand(d, j),
    decreases w - i,
{
    if i < w && !fit_cand(d, i) {
        lemma_first_cand_from(d, i + 1, w);
    }
}

/// What the result of the downward match scan satisfies.
proof fn lemma_fit_match(d: QtyDef, a: Rat, k: int)
    requires
        k < d.units@.len(),
    ensures
        fit_match(d, a, k) >= 0 ==> {
            &&& 0 <= fit_match(d, a, k) <= k
            &&& fit_cand(d, fit_match(d, a, k))
            &&& rat_lt(d.scale_at(first_cand(d)), d.scale_at(fit_match(d, a, k)))
            &&& rat_le(d.scale_at(fit_match(d, a, k)), a)
        },
        forall|j: int|
            fit_match(d, a, k) < j <= k ==> !(fit_cand(d, j) && rat_lt(
                d.scale_at(first_cand(d)),
                d.scale_at(j),
            ) && rat_le(d.scale_at(j), a)),
    decreases k + 1,
{
    if k >= 0 {
        if !(fit_cand(d, k) && rat_lt(d.scale_at(first_cand(d)), d.scale_at(k)) && rat_le(
            d.scale_at(k),
            a,
        )) {
            lemma_fit_match(d, a, k - 1);
        }
    }
}

impl QtyDef {
    /// Returns a new value equivalent to `amount * reference_unit`,
    /// converted to the unit with the greatest scale less than or equal to
    /// `amount` or, if there is no such unit, to the unit with the
    /// smallest scale greater than `amount`; taking only SI units into
    /// account if the reference unit is an SI unit.
    pub fn _fit(&self, amount: &Amount) -> (r: Qty)
        requires
            self.wf(),
            self.has_ref(),
            amount.inv(),
            forall|i: int| self.unit_ok(i) ==> div_fits(amount@, #[trigger] self.scale_at(i)),
        ensures
            self.valid_qty(r),
            r.unit as int == fit_choice(*self, amount@),
            r.amount@ == rat_canon(rat_div(amount@, self.scale_at(r.unit as int))),
            rat_eq(rat_mul(r.amount@, self.scale_at(r.unit as int)), amount@),
    {
        let first = self.fit_first();
        let first_scale = self.scale(first);
        let chosen = match self.fit_scan(amount, first, &first_scale) {
            Some(k) => k,
            None => first,
        };
        proof {
            assert(chosen as int == fit_choice(*self, amount@));
            lemma_div_round_trip(amount@, self.scale_at(chosen as int));
        }
        let sc = self.scale(chosen);
        Qty::new(amount.div(&sc), chosen)
    }

    /// The smallest-scale best-fit candidate; the reference unit
    /// guarantees that one exists.
    fn fit_first(&self) -> (r: usize)
        requires
            self.wf(),
            self.has_ref(),
        ensures
            r as int == first_cand(*self),
            self.unit_ok(r as int),
            fit_cand(*self, r as int),
    {
        let n = self.units.len();
        let ghost w = self.ref_idx();
        proof {
            assert(fit_cand(*self, w));
            lemma_first_cand_from(*self, 0, w);
        }
        let mut first: usize = 0;
        while first < n
            invariant
                self.wf(),
                self.has_ref(),
                n as int == self.units@.len(),
                0 <= first as int <= first_cand(*self) < n as int,
                forall|j: int| 0 <= j < first as int ==> !fit_cand(*self, j),
            decreases n - first,
        {
            let c = match self.units[first].si_prefix {
                Some(_) => true,
                None => self.is_take_all(),
            };
            if c {
                proof {
                    assert(fit_cand(*self, first as int));
                    lemma_first_cand_from(*self, 0, first as int);
                }
                return first;
            }
            proof {
                assert(!fit_cand(*self, first as int));
                assert(fit_cand(*self, self.ref_idx()));
                lemma_first_cand_from(*self, 0, self.ref_idx());
            }
            first = first + 1;
        }
        // Unreachable: the reference unit is always a candidate.
        proof {
            assert(false);
        }
        0
    }

    /// Scans the units from the largest scale down for the greatest
    /// candidate whose scale is above the first candidate's and no greater
    /// than `amount`.
    fn fit_scan(&self, amount: &Amount, first: usize, first_scale: &Amount) -> (r: Option<usize>)
        requires
            self.wf(),
            self.has_ref(),
            amount.inv(),
            first as int == first_cand(*self),
            self.unit_ok(first as int),
            first_scale@ == self.scale_at(first as int),
        ensures
            match r {
                Some(k) => self.unit_ok(k as int) && k as int == fit_match(
                    *self,
                    amount@,
                    self.units@.len() - 1,
                ),
                None => fit_match(*self, amount@, self.units@.len() - 1) == -1,
            },
    {
        let n = self.units.len();
        let mut kk = n;
        while kk > 0
            invariant
                self.wf(),
                self.has_ref(),
                amount.inv(),
                n as int == self.units@.len(),
                kk <= n,
                first as int == first_cand(*self),
                first_cand(*self) < n as int,
                first_scale@ == self.scale_at(first as int),
                fit_match(*self, amount@, n as int - 1) == fit_match(*self, amount@, kk as int - 1),
            decreases kk,
        {
            let k = kk - 1;
            let c = match self.units[k].si_prefix {
                Some(_) => true,
                None => self.is_take_all(),
            };
            let sk = self.scale(k);
            if c && first_scale.lt(&sk) && sk.le(amount) {
                proof {
                    assert(fit_cand(*self, k as int));
                    assert(fit_match(*self, amount@, k as int) == k as int);
                }
                return Some(k);
            }
            kk = k;
        }
        None
    }

    /// Whether best-fit ranges over all units of this quantity.
    fn is_take_all(&self) -> (r: bool)
        requires
            self.wf(),
            self.has_ref(),
        ensures
            r == fit_take_all(*self),
    {
        match self.ref_unit {
            Some(ri) => match self.units[ri].si_prefix {
                Some(_) => false,
                None => true,
            },
            None => true,  // cannot happen: the quantity has a reference unit
        }
    }
}

impl Qty {
    /// Returns `self` scaled by `k`: the amount is multiplied, the unit is
    /// unchanged.
    pub fn mul_amnt(&self, k: &Amount) -> (r: Qty)
        requires
            self.amount.inv(),
            k.inv(),
            mul_fits(self.amount@, k@),
        ensures
            r.unit == self.unit,
            r.amount.inv(),
            r.amount@ == rat_canon(rat_mul(self.amount@, k@)),
            rat_eq(r.amount@, rat_mul(self.amount@, k@)),
    {
        Qty::new(self.amount.mul(k), self.unit)
    }

    /// Returns `self` divided by the scalar `k`: the amount is divided,
    /// the unit is unchanged.  `k` must not be zero.
    pub fn div_amnt(&self, k: &Amount) -> (r: Qty)
        requires
            self.amount.inv(),
            k.inv(),
            k@.n != 0,
            div_fits(self.amount@, k@),
        ensures
            r.unit == self.unit,
            r.amount.inv(),
            r.amount@ == rat_canon(rat_div(self.amount@, k@)),
            rat_eq(r.amount@, rat_div(self.amount@, k@)),
    {
        Qty::new(self.amount.div(k), self.unit)
    }
}

} // verus!
