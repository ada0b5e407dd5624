//! Ratios between two related quantity values.
//!
//! A [`Rate`] states "term_amount of the term unit per per_unit_multiple
//! of the per unit" — a non-reducing ratio used where no clean conversion
//! factor exists.  Multiplying a value of the per quantity by the rate
//! yields the corresponding value of the term quantity, and dividing a
//! term-quantity value by the rate recovers the per-quantity value.

use crate::amount::{div_fits, mul_fits, rat_canon, rat_div, rat_mul, Amount, Rat};
use crate::qty::{one_in_unit, one_in_unit_fits, Qty, QtyDef};
use vstd::prelude::*;

verus! {

/// The quotient chain a rate multiplication computes: the value amount
/// divided by the amount of one per (term) unit in the value's unit,
/// divided by the rate amount, all in lowest terms.
pub open spec fn rate_steps(d: QtyDef, v: Qty, u: int, m: Rat) -> Rat {
    rat_canon(rat_div(rat_canon(rat_div(v.amount@, one_in_unit(d, u, v.unit as int))), m))
}

/// The machine-word bounds the quotient chain needs, together with the
/// conditions under which its divisors are nonzero.
pub open spec fn rate_steps_ok(d: QtyDef, v: Qty, u: int, m: Rat) -> bool {
    &&& one_in_unit_fits(d, u, v.unit as int)
    &&& one_in_unit(d, u, v.unit as int).n != 0
    &&& div_fits(v.amount@, one_in_unit(d, u, v.unit as int))
    &&& m.n != 0
    &&& div_fits(rat_canon(rat_div(v.amount@, one_in_unit(d, u, v.unit as int))), m)
}

/// The ratio between two related quantity values: `term_amount` of unit
/// `term_unit` per `per_unit_multiple` of unit `per_unit`.
#[derive(Clone, Copy)]
pub struct Rate {
    term_amount: Amount,
    term_unit: usize,
    per_unit_multiple: Amount,
    per_unit: usize,
}

impl Rate {
    /// Both amounts of the rate are well formed.
    pub closed spec fn inv(self) -> bool {
        self.term_amount.inv() && self.per_unit_multiple.inv()
    }

    /// The term amount.
    pub closed spec fn term_amount_spec(self) -> Amount {
        self.term_amount
    }

    /// The term unit.
    pub closed spec fn term_unit_spec(self) -> usize {
        self.term_unit
    }

    /// The per-unit multiple.
    pub closed spec fn per_unit_multiple_spec(self) -> Amount {
        self.per_unit_multiple
    }

    /// The per unit.
    pub closed spec fn per_unit_spec(self) -> usize {
        self.per_unit
    }

    /// Returns a new instance of `Rate` with attributes equal to the given
    /// parameters.
    pub fn new(term_amount: Amount, term_unit: usize, per_unit_multiple: Amount, per_unit: usize) -> (r: Rate)
        ensures
            r.inv() == (term_amount.inv() && per_unit_multiple.inv()),
            r.term_amount_spec() == term_amount,
            r.term_unit_spec() == term_unit,
            r.per_unit_multiple_spec() == per_unit_multiple,
            r.per_unit_spec() == per_unit,
    {
        Rate { term_amount, term_unit, per_unit_multiple, per_unit }
    }

    /// Returns a new instance of `Rate` with attributes extracted from the
    /// given quantity values.
    pub fn from_qty_vals(term: &Qty, per: &Qty) -> (r: Rate)
        ensures
            r.inv() == (term.amount.inv() && per.amount.inv()),
            r.term_amount_spec() == term.amount,
            r.term_unit_spec() == term.unit,
            r.per_unit_multiple_spec() == per.amount,
            r.per_unit_spec() == per.unit,
    {
        Rate {
            term_amount: term.amount,
            term_unit: term.unit,
            per_unit_multiple: per.amount,
            per_unit: per.unit,
        }
    }

    /// Returns the term amount of `self`.
    pub fn term_amount(&self) -> (r: Amount)
        ensures
            r == self.term_amount_spec(),
    {
        self.term_amount
    }

    /// Returns the term unit of `self`.
    pub fn term_unit(&self) -> (r: usize)
        ensures
            r == self.term_unit_spec(),
    {
        self.term_unit
    }

    /// Returns the per unit multiple of `self`.
    pub fn per_unit_multiple(&self) -> (r: Amount)
        ensures
            r == self.per_unit_multiple_spec(),
    {
        self.per_unit_multiple
    }

    /// Returns the per unit of `self`.
    pub fn per_unit(&self) -> (r: usize)
        ensures
            r == self.per_unit_spec(),
    {
        self.per_unit
    }

    /// Returns the multiplicative inverse of `self`: term and per sides
    /// swapped.
    pub fn reciprocal(&self) -> (r: Rate)
        ensures
            r.term_amount_spec() == self.per_unit_multiple_spec(),
            r.term_unit_spec() == self.per_unit_spec(),
            r.per_unit_multiple_spec() == self.term_amount_spec(),
            r.per_unit_spec() == self.term_unit_spec(),
    {
        Rate {
            term_amount: self.per_unit_multiple,
            term_unit: self.per_unit,
            per_unit_multiple: self.term_amount,
            per_unit: self.term_unit,
        }
    }

    /// Returns the term-quantity value corresponding to the per-quantity
    /// value `rhs`: the number of rate steps `rhs` holds, times the term
    /// amount, in the term unit.
    pub fn mul_qty(&self, rhs: &Qty, per_def: &QtyDef) -> (r: Qty)
        requires
            self.inv(),
            per_def.wf(),
            per_def.valid_qty(*rhs),
            per_def.unit_ok(self.per_unit_spec() as int),
            !per_def.has_ref() ==> rhs.unit == self.per_unit_spec(),
            rate_steps_ok(
                *per_def,
                *rhs,
                self.per_unit_spec() as int,
                self.per_unit_multiple_spec()@,
            ),
            mul_fits(
                rate_steps(
                    *per_def,
                    *rhs,
                    self.per_unit_spec() as int,
                    self.per_unit_multiple_spec()@,
                ),
                self.term_amount_spec()@,
            ),
        ensures
            r.unit == self.term_unit_spec(),
            r.amount.inv(),
            r.amount@ == rat_canon(
                rat_mul(
                    rate_steps(
                        *per_def,
                        *rhs,
                        self.per_unit_spec() as int,
                        self.per_unit_multiple_spec()@,
                    ),
                    self.term_amount_spec()@,
                ),
            ),
    {
        let per_qty = Qty::new(Amount::from_int(1), self.per_unit);
        let steps = per_def.div(rhs, &per_qty);
        let factor = steps.div(&self.per_unit_multiple);
        Qty::new(factor.mul(&self.term_amount), self.term_unit)
    }

    /// Returns the per-quantity value corresponding to the term-quantity
    /// value `lhs`: `lhs` divided by one term unit and by the term amount,
    /// times the per-unit multiple, in the per unit.
    pub fn div_qty(&self, lhs: &Qty, term_def: &QtyDef) -> (r: Qty)
        requires
            self.inv(),
            term_def.wf(),
            term_def.valid_qty(*lhs),
            term_def.unit_ok(self.term_unit_spec() as int),
            !term_def.has_ref() ==> lhs.unit == self.term_unit_spec(),
            rate_steps_ok(
                *term_def,
                *lhs,
                self.term_unit_spec() as int,
                self.term_amount_spec()@,
            ),
            mul_fits(
                rate_steps(
                    *term_def,
                    *lhs,
                    self.term_unit_spec() as int,
                    self.term_amount_spec()@,
                ),
                self.per_unit_multiple_spec()@,
            ),
        ensures
            r.unit == self.per_unit_spec(),
            r.amount.inv(),
            r.amount@ == rat_canon(
                rat_mul(
                    rate_steps(
                        *term_def,
                        *lhs,
                        self.term_unit_spec() as int,
                        self.term_amount_spec()@,
                    ),
                    self.per_unit_multiple_spec()@,
                ),
            ),
    {
        let term_qty = Qty::new(Amount::from_int(1), self.term_unit);
        let steps = term_def.div(lhs, &term_qty);
        let factor = steps.div(&self.term_amount);
        Qty::new(factor.mul(&self.per_unit_multiple), self.per_unit)
    }
}

} // verus!
