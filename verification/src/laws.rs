//! The laws the engine guarantees, stated over the same specification
//! vocabulary the operations' contracts use and proved once for every
//! well-formed quantity definition.

use crate::algebra::ref_value;
use crate::amount::{
    lemma_canon_eq, lemma_conv_value, lemma_div_as_mul, lemma_mul_one_like, lemma_mul_recip,
    lemma_rat_cancel, lemma_rat_eq_trans, lemma_rat_mul_assoc, lemma_rat_mul_compat,
    lemma_rat_mul_inv, rat_canon, rat_div, rat_eq, rat_int, rat_inv, rat_le, rat_lt, rat_mul, rat_recip,
    Rat,
};
use crate::qty::{equiv_spec, one_in_unit, Qty, QtyDef};
use crate::rate::{rate_steps, Rate};
use vstd::prelude::*;

verus! {

/// Converting a value to any unit and back to its own unit gives back
/// its amount exactly: `w` is `v` expressed in unit `u`, and expressing
/// `w` in `v`'s unit again denotes `v`'s amount.
pub proof fn lemma_convert_round_trip(d: QtyDef, v: Qty, w: Qty, u: usize)
    requires
        d.wf(),
        d.has_ref(),
        d.valid_qty(v),
        d.unit_ok(u as int),
        w.unit == u,
        w.amount@ == equiv_spec(d, v, u as int),
    ensures
        rat_inv(equiv_spec(d, w, v.unit as int)),
        rat_eq(equiv_spec(d, w, v.unit as int), v.amount@),
{
    let sv = d.scale_at(v.unit as int);
    let su = d.scale_at(u as int);
    let e2 = equiv_spec(d, w, v.unit as int);
    // The first conversion keeps the reference-unit value.
    if v.unit as int != u as int {
        lemma_conv_value(v.amount@, sv, su);
    }
    assert(rat_inv(w.amount@) && rat_eq(rat_mul(w.amount@, su), rat_mul(v.amount@, sv)));
    // So does the conversion back.
    if w.unit as int != v.unit as int {
        lemma_conv_value(w.amount@, su, sv);
    }
    assert(rat_inv(e2) && rat_eq(rat_mul(e2, sv), rat_mul(w.amount@, su)));
    lemma_rat_mul_inv(w.amount@, su);
    lemma_rat_mul_inv(v.amount@, sv);
    lemma_rat_mul_inv(e2, sv);
    lemma_rat_eq_trans(rat_mul(e2, sv), rat_mul(w.amount@, su), rat_mul(v.amount@, sv));
    lemma_rat_cancel(e2, v.amount@, sv);
}

/// The ratio from one unit to another, times the ratio back, denotes one.
pub proof fn lemma_ratio_round_trip(d: QtyDef, u: usize, w: usize)
    requires
        d.wf(),
        d.has_ref(),
        d.unit_ok(u as int),
        d.unit_ok(w as int),
    ensures
        rat_eq(
            rat_mul(
                rat_canon(rat_div(d.scale_at(u as int), d.scale_at(w as int))),
                rat_canon(rat_div(d.scale_at(w as int), d.scale_at(u as int))),
            ),
            rat_int(1),
        ),
{
    let su = d.scale_at(u as int);
    let sw = d.scale_at(w as int);
    let f = rat_div(su, sw);
    let g = rat_div(sw, su);
    assert(rat_inv(f) && rat_inv(g)) by (nonlinear_arith)
        requires
            su.d >= 1,
            sw.d >= 1,
            su.n >= 1,
            sw.n >= 1,
            f == (Rat { n: su.n * sw.d, d: su.d * sw.n }),
            g == (Rat { n: sw.n * su.d, d: sw.d * su.n }),
    ;
    lemma_canon_eq(f);
    lemma_canon_eq(g);
    lemma_rat_mul_compat(rat_canon(f), f, rat_canon(g));
    lemma_rat_mul_compat(rat_canon(g), g, f);
    lemma_rat_mul_inv(f, rat_canon(g));
    lemma_rat_mul_inv(f, g);
    lemma_rat_mul_inv(rat_canon(f), rat_canon(g));
    lemma_rat_eq_trans(
        rat_mul(rat_canon(f), rat_canon(g)),
        rat_mul(f, rat_canon(g)),
        rat_mul(f, g),
    );
    assert(rat_eq(rat_mul(f, g), rat_int(1))) by (nonlinear_arith)
        requires
            f == (Rat { n: su.n * sw.d, d: su.d * sw.n }),
            g == (Rat { n: sw.n * su.d, d: sw.d * su.n }),
    ;
    lemma_rat_eq_trans(rat_mul(rat_canon(f), rat_canon(g)), rat_mul(f, g), rat_int(1));
}

/// For a quantity whose unit scales are pairwise distinct, iterating the
/// units yields strictly ascending scales, and the reference unit's scale
/// is exactly one.
pub proof fn lemma_unit_order(d: QtyDef)
    requires
        d.wf(),
        d.has_ref(),
        forall|i: int, j: int|
            0 <= i < j < d.units@.len() ==> !rat_eq(
                #[trigger] d.scale_at(i),
                #[trigger] d.scale_at(j),
            ),
    ensures
        forall|i: int, j: int|
            0 <= i < j < d.units@.len() ==> rat_lt(
                #[trigger] d.scale_at(i),
                #[trigger] d.scale_at(j),
            ),
        d.scale_at(d.ref_idx()) == rat_int(1),
{
    assert forall|i: int, j: int| 0 <= i < j < d.units@.len() implies rat_lt(
        #[trigger] d.scale_at(i),
        #[trigger] d.scale_at(j),
    ) by {
        assert(rat_le(d.scale_at(i), d.scale_at(j)));
    }
}

/// Best fit is exact: the amount it reports, scaled by the unit it picks,
/// is the raw amount again, whichever unit it picks.
pub proof fn lemma_best_fit_exact(d: QtyDef, a: Rat, c: int)
    requires
        d.wf(),
        d.has_ref(),
        rat_inv(a),
        d.unit_ok(c),
    ensures
        rat_eq(rat_mul(rat_canon(rat_div(a, d.scale_at(c))), d.scale_at(c)), a),
{
    crate::amount::lemma_div_round_trip(a, d.scale_at(c));
}

/// Derived-algebra closure: when a product's reference-unit value is the
/// product of the operands' and dividing it by one operand again divides
/// the reference-unit values, converting the quotient to the other
/// operand's unit recovers that operand's amount exactly.
///
/// `m` is the product of `a` and `b`, `q` the quotient `m / b`, and `e`
/// the amount of `q` converted to `a`'s unit.
pub proof fn lemma_derived_closure(da: QtyDef, a: Qty, db: QtyDef, b: Qty, dr: QtyDef, m: Qty, q: Qty, e: Rat)
    requires
        da.wf(),
        db.wf(),
        dr.wf(),
        da.has_ref(),
        db.has_ref(),
        dr.has_ref(),
        da.valid_qty(a),
        db.valid_qty(b),
        dr.valid_qty(m),
        da.valid_qty(q),
        b.amount@.n != 0,
        rat_eq(ref_value(dr, m), rat_mul(ref_value(da, a), ref_value(db, b))),
        rat_eq(ref_value(da, q), rat_div(ref_value(dr, m), ref_value(db, b))),
        rat_inv(e),
        rat_eq(rat_mul(e, da.scale_at(a.unit as int)), ref_value(da, q)),
    ensures
        rat_eq(e, a.amount@),
{
    let ra = ref_value(da, a);
    let rb = ref_value(db, b);
    let rm = ref_value(dr, m);
    let rq = ref_value(da, q);
    let sa = da.scale_at(a.unit as int);
    lemma_rat_mul_inv(a.amount@, sa);
    lemma_rat_mul_inv(b.amount@, db.scale_at(b.unit as int));
    lemma_rat_mul_inv(m.amount@, dr.scale_at(m.unit as int));
    lemma_rat_mul_inv(q.amount@, da.scale_at(q.unit as int));
    // The value of b, scaled to the reference unit, is nonzero.
    assert(rb.n != 0) by (nonlinear_arith)
        requires
            rb.n == b.amount@.n * db.scale_at(b.unit as int).n,
            b.amount@.n != 0,
            db.scale_at(b.unit as int).n >= 1,
    ;
    // rq == rm / rb == (ra * rb) / rb == ra * (rb / rb) == ra.
    lemma_div_as_mul(rm, rb);
    lemma_mul_recip(rb);
    let ir = rat_recip(rb);
    // rat_div(rm, rb) == rat_mul(rm, ir); rm == ra * rb as rationals.
    lemma_rat_mul_compat(rm, rat_mul(ra, rb), ir);
    lemma_rat_mul_assoc(ra, rb, ir);
    lemma_rat_mul_inv(ra, rb);
    lemma_rat_mul_inv(rat_mul(ra, rb), ir);
    assert(rat_inv(ir));
    lemma_rat_mul_inv(rb, ir);
    lemma_mul_one_like(ra, rat_mul(rb, ir));
    // Chain: rq == rat_mul(rm, ir) == rat_mul(ra * rb, ir) == ra * (rb * ir) == ra.
    lemma_rat_mul_inv(ra, rat_mul(rb, ir));
    lemma_rat_mul_inv(rm, ir);
    lemma_rat_eq_trans(rq, rat_div(rm, rb), rat_mul(rm, ir));
    lemma_rat_eq_trans(rq, rat_mul(rm, ir), rat_mul(rat_mul(ra, rb), ir));
    lemma_rat_eq_trans(rq, rat_mul(rat_mul(ra, rb), ir), ra);
    // Cancel the scale of a's unit.
    lemma_rat_mul_inv(e, sa);
    lemma_rat_eq_trans(rat_mul(e, sa), rq, ra);
    lemma_rat_cancel(e, a.amount@, sa);
}

/// The fields of a rate survive taking the reciprocal twice: if `r1` is
/// the reciprocal of `r0` and `r2` the reciprocal of `r1`, then `r2` has
/// `r0`'s fields.
pub proof fn lemma_reciprocal_involution(r0: Rate, r1: Rate, r2: Rate)
    requires
        r1.term_amount_spec() == r0.per_unit_multiple_spec(),
        r1.term_unit_spec() == r0.per_unit_spec(),
        r1.per_unit_multiple_spec() == r0.term_amount_spec(),
        r1.per_unit_spec() == r0.term_unit_spec(),
        r2.term_amount_spec() == r1.per_unit_multiple_spec(),
        r2.term_unit_spec() == r1.per_unit_spec(),
        r2.per_unit_multiple_spec() == r1.term_amount_spec(),
        r2.per_unit_spec() == r1.term_unit_spec(),
    ensures
        r2.term_amount_spec() == r0.term_amount_spec(),
        r2.term_unit_spec() == r0.term_unit_spec(),
        r2.per_unit_multiple_spec() == r0.per_unit_multiple_spec(),
        r2.per_unit_spec() == r0.per_unit_spec(),
{
}

/// Multiplying a rate by a value holding exactly one step yields exactly
/// the rate's term amount.
pub proof fn lemma_rate_applies(st: Rat, term: Rat)
    requires
        rat_inv(st),
        rat_inv(term),
        rat_eq(st, rat_int(1)),
    ensures
        rat_eq(rat_canon(rat_mul(st, term)), term),
{
    lemma_rat_mul_inv(st, term);
    lemma_canon_eq(rat_mul(st, term));
    assert(rat_mul(st, term) == rat_mul(term, st)) by {
        assert(st.n * term.n == term.n * st.n) by (nonlinear_arith);
        assert(st.d * term.d == term.d * st.d) by (nonlinear_arith);
    }
    lemma_mul_one_like(term, st);
    lemma_rat_eq_trans(rat_canon(rat_mul(st, term)), rat_mul(term, st), term);
}

/// A value of exactly one rate step (its unit is the rate's per unit, its
/// amount the rate's per-unit multiple) holds exactly one step.
pub proof fn lemma_rate_one_step(d: QtyDef, v: Qty, u: usize, m: Rat)
    requires
        d.wf(),
        d.valid_qty(v),
        v.unit == u,
        rat_inv(m),
        m.n != 0,
        rat_eq(v.amount@, m),
    ensures
        rat_eq(rate_steps(d, v, u as int, m), rat_int(1)),
{
    let one = one_in_unit(d, u as int, v.unit as int);
    assert(one == rat_int(1));
    let q0 = rat_div(v.amount@, one);
    assert(q0 == Rat { n: v.amount@.n * 1, d: v.amount@.d * 1 });
    assert(q0 == v.amount@);
    lemma_canon_eq(q0);
    let c = rat_canon(q0);
    // c denotes m, so c / m denotes one.
    lemma_rat_eq_trans(c, q0, m);
    lemma_div_as_mul(c, m);
    lemma_mul_recip(m);
    lemma_rat_mul_compat(c, m, rat_recip(m));
    lemma_rat_mul_inv(m, rat_recip(m));
    lemma_rat_mul_inv(c, rat_recip(m));
    lemma_rat_eq_trans(rat_mul(c, rat_recip(m)), rat_mul(m, rat_recip(m)), rat_int(1));
    lemma_rat_mul_inv(c, rat_recip(m));
    let q1 = rat_div(c, m);
    assert(rat_inv(q1)) by {
        crate::amount::lemma_rat_div_inv(c, m);
    }
    lemma_canon_eq(q1);
    lemma_rat_eq_trans(rat_canon(q1), q1, rat_int(1));
}

} // verus!
