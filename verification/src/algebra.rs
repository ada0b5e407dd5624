//! Derived-quantity algebra.
//!
//! For a quantity declared as `R = A * B` (or `A / B`), values of `A` and
//! `B` multiply (divide) into values of `R`: the scales of the two units
//! are combined, and the result lands on the unit of `R` whose scale
//! equals the combined scale exactly, or else on the best-fit unit for
//! the raw reference-unit amount.  The same functions serve the inverse
//! relationships (`R / B -> A`, `R * B -> A`, and so on), which the
//! derivation expression licenses.

use crate::amount::{
    div_fits, lemma_canon_eq, lemma_div_as_mul, lemma_rat_eq_trans, lemma_rat_mul_compat,
    lemma_rat_mul_inv, lemma_recip_mul, mul_fits, rat_canon, rat_div, rat_eq, rat_inv, rat_mul,
    rat_recip, Rat,
};
use crate::qty::{fit_choice, DerivOp, Derivation, Qty, QtyDef};
use vstd::prelude::*;

verus! {

/// The derivation expression is exactly `lhs op rhs`.
pub open spec fn der_matches(d: Option<Derivation>, lhs: Seq<char>, op: DerivOp, rhs: Seq<char>) -> bool {
    match d {
        Some(x) => x.lhs@ == lhs && x.op == op && x.rhs@ == rhs,
        None => false,
    }
}

/// The declared algebra provides a multiplication `x * y -> z`: either
/// `z` is derived as the product of the two operands (in either order),
/// or one operand is derived as `z` divided by the other.
pub open spec fn licensed_mul(x: QtyDef, y: QtyDef, z: QtyDef) -> bool {
    ||| der_matches(z.derived, x.ident@, DerivOp::Mul, y.ident@)
    ||| der_matches(z.derived, y.ident@, DerivOp::Mul, x.ident@)
    ||| der_matches(x.derived, z.ident@, DerivOp::Div, y.ident@)
    ||| der_matches(y.derived, z.ident@, DerivOp::Div, x.ident@)
}

/// The declared algebra provides a division `x / y -> z`: either `z` is
/// derived as `x / y`, or `x` is derived as a product involving `y` and
/// `z`, or `y` is derived as `x / z`.
pub open spec fn licensed_div(x: QtyDef, y: QtyDef, z: QtyDef) -> bool {
    ||| der_matches(z.derived, x.ident@, DerivOp::Div, y.ident@)
    ||| der_matches(x.derived, y.ident@, DerivOp::Mul, z.ident@)
    ||| der_matches(x.derived, z.ident@, DerivOp::Mul, y.ident@)
    ||| der_matches(y.derived, x.ident@, DerivOp::Div, z.ident@)
}

/// The reference-unit value of a quantity value: its amount scaled to the
/// reference unit.
pub open spec fn ref_value(d: QtyDef, q: Qty) -> Rat {
    rat_mul(q.amount@, d.scale_at(q.unit as int))
}

/// The combined scale of a multiplication, in lowest terms.
pub open spec fn mul_scale(da: QtyDef, a: Qty, db: QtyDef, b: Qty) -> Rat {
    rat_canon(rat_mul(da.scale_at(a.unit as int), db.scale_at(b.unit as int)))
}

/// The combined amount of a multiplication, in lowest terms.
pub open spec fn mul_amount(a: Qty, b: Qty) -> Rat {
    rat_canon(rat_mul(a.amount@, b.amount@))
}

/// The raw reference-unit amount a multiplication falls back to when no
/// unit's scale matches exactly.
pub open spec fn mul_raw(da: QtyDef, a: Qty, db: QtyDef, b: Qty) -> Rat {
    rat_canon(rat_mul(mul_amount(a, b), mul_scale(da, a, db, b)))
}

/// The combined scale of a division, in lowest terms.
pub open spec fn div_scale(da: QtyDef, a: Qty, db: QtyDef, b: Qty) -> Rat {
    rat_canon(rat_div(da.scale_at(a.unit as int), db.scale_at(b.unit as int)))
}

/// The combined amount of a division, in lowest terms.
pub open spec fn div_amount(a: Qty, b: Qty) -> Rat {
    rat_canon(rat_div(a.amount@, b.amount@))
}

/// The raw reference-unit amount a division falls back to when no unit's
/// scale matches exactly.
pub open spec fn div_raw(da: QtyDef, a: Qty, db: QtyDef, b: Qty) -> Rat {
    rat_canon(rat_mul(div_amount(a, b), div_scale(da, a, db, b)))
}

/// The machine-word bounds a multiplication needs.
pub open spec fn qty_mul_fits(da: QtyDef, a: Qty, db: QtyDef, b: Qty, dr: QtyDef) -> bool {
    &&& mul_fits(da.scale_at(a.unit as int), db.scale_at(b.unit as int))
    &&& mul_fits(a.amount@, b.amount@)
    &&& mul_fits(mul_amount(a, b), mul_scale(da, a, db, b))
    &&& forall|i: int|
        dr.unit_ok(i) ==> div_fits(mul_raw(da, a, db, b), #[trigger] dr.scale_at(i))
}

/// The machine-word bounds a division needs.
pub open spec fn qty_div_fits(da: QtyDef, a: Qty, db: QtyDef, b: Qty, dr: QtyDef) -> bool {
    &&& div_fits(da.scale_at(a.unit as int), db.scale_at(b.unit as int))
    &&& div_fits(a.amount@, b.amount@)
    &&& mul_fits(div_amount(a, b), div_scale(da, a, db, b))
    &&& forall|i: int|
        dr.unit_ok(i) ==> div_fits(div_raw(da, a, db, b), #[trigger] dr.scale_at(i))
}

/// Regrouping a product of four fractions.
proof fn lemma_prod_regroup(aa: Rat, ab: Rat, sa: Rat, sb: Rat)
    ensures
        rat_mul(rat_mul(aa, ab), rat_mul(sa, sb)) == rat_mul(rat_mul(aa, sa), rat_mul(ab, sb)),
{
    assert((aa.n * ab.n) * (sa.n * sb.n) == (aa.n * sa.n) * (ab.n * sb.n)) by (nonlinear_arith);
    assert((aa.d * ab.d) * (sa.d * sb.d) == (aa.d * sa.d) * (ab.d * sb.d)) by (nonlinear_arith);
}

/// The product of the two reductions denotes the product of the two
/// unreduced fractions.
proof fn lemma_canon_mul(x: Rat, y: Rat)
    requires
        rat_inv(x),
        rat_inv(y),
    ensures
        rat_inv(rat_canon(x)),
        rat_inv(rat_canon(y)),
        rat_inv(rat_mul(rat_canon(x), rat_canon(y))),
        rat_inv(rat_mul(x, y)),
        rat_eq(rat_mul(rat_canon(x), rat_canon(y)), rat_mul(x, y)),
{
    lemma_canon_eq(x);
    lemma_canon_eq(y);
    lemma_rat_mul_inv(rat_canon(x), rat_canon(y));
    lemma_rat_mul_inv(x, y);
    lemma_rat_mul_inv(rat_canon(x), y);
    lemma_rat_mul_compat(rat_canon(y), y, rat_canon(x));
    lemma_rat_mul_compat(rat_canon(x), x, y);
    lemma_rat_eq_trans(
        rat_mul(rat_canon(x), rat_canon(y)),
        rat_mul(rat_canon(x), y),
        rat_mul(x, y),
    );
}

/// Returns the product of a value of quantity `da` and a value of
/// quantity `db`, expressed in quantity `dr`, which the derivation
/// expressions license.  The result lands on the unit of `dr` whose scale
/// equals the product of the two operand scales exactly, or else on the
/// best-fit unit for the raw reference-unit amount; either way the
/// reference-unit value of the result is the product of the operands'
/// reference-unit values.
pub fn qty_mul(a: &Qty, da: &QtyDef, b: &Qty, db: &QtyDef, dr: &QtyDef) -> (r: Qty)
    requires
        da.wf(),
        db.wf(),
        dr.wf(),
        da.has_ref(),
        db.has_ref(),
        dr.has_ref(),
        da.valid_qty(*a),
        db.valid_qty(*b),
        licensed_mul(*da, *db, *dr),
        qty_mul_fits(*da, *a, *db, *b, *dr),
    ensures
        dr.valid_qty(r),
        (exists|u: int| dr.unit_ok(u) && #[trigger] dr.scale_at(u) == mul_scale(*da, *a, *db, *b))
            ==> {
            &&& dr.scale_at(r.unit as int) == mul_scale(*da, *a, *db, *b)
            &&& forall|j: int|
                0 <= j < r.unit as int ==> #[trigger] dr.scale_at(j) != mul_scale(*da, *a, *db, *b)
            &&& r.amount@ == mul_amount(*a, *b)
        },
        (forall|u: int|
            dr.unit_ok(u) ==> #[trigger] dr.scale_at(u) != mul_scale(*da, *a, *db, *b)) ==> {
            &&& r.unit as int == fit_choice(*dr, mul_raw(*da, *a, *db, *b))
            &&& r.amount@ == rat_canon(
                rat_div(mul_raw(*da, *a, *db, *b), dr.scale_at(r.unit as int)),
            )
        },
        rat_eq(ref_value(*dr, r), rat_mul(ref_value(*da, *a), ref_value(*db, *b))),
{
    let sa = da.scale(a.unit);
    let sb = db.scale(b.unit);
    let scale = sa.mul(&sb);
    let amnt = a.amount.mul(&b.amount);
    let ghost target = rat_mul(ref_value(*da, *a), ref_value(*db, *b));
    proof {
        lemma_rat_mul_inv(a.amount@, b.amount@);
        lemma_rat_mul_inv(da.scale_at(a.unit as int), db.scale_at(b.unit as int));
        lemma_canon_mul(
            rat_mul(a.amount@, b.amount@),
            rat_mul(da.scale_at(a.unit as int), db.scale_at(b.unit as int)),
        );
        lemma_prod_regroup(
            a.amount@,
            b.amount@,
            da.scale_at(a.unit as int),
            db.scale_at(b.unit as int),
        );
        // amount * scale (both reduced) denotes the product of the
        // reference-unit values.
        assert(rat_eq(rat_mul(mul_amount(*a, *b), mul_scale(*da, *a, *db, *b)), target));
    }
    match dr.unit_from_scale(&scale) {
        Some(u) => {
            let r = Qty::new(amnt, u);
            proof {
                lemma_value_exact(*dr, r, mul_amount(*a, *b), mul_scale(*da, *a, *db, *b), target);
            }
            r
        },
        None => {
            let raw = amnt.mul(&scale);
            let r = dr._fit(&raw);
            proof {
                let prod = rat_mul(mul_amount(*a, *b), mul_scale(*da, *a, *db, *b));
                lemma_rat_mul_inv(mul_amount(*a, *b), mul_scale(*da, *a, *db, *b));
                lemma_canon_eq(prod);
                lemma_rat_eq_trans(mul_raw(*da, *a, *db, *b), prod, target);
                lemma_value_fit(*dr, r, mul_raw(*da, *a, *db, *b), target);
            }
            r
        },
    }
}

/// Returns the quotient of a value of quantity `da` by a value of
/// quantity `db`, expressed in quantity `dr`, which the derivation
/// expressions license.  The result lands on the unit of `dr` whose scale
/// equals the quotient of the two operand scales exactly, or else on the
/// best-fit unit for the raw reference-unit amount; either way the
/// reference-unit value of the result is the quotient of the operands'
/// reference-unit values.
pub fn qty_div(a: &Qty, da: &QtyDef, b: &Qty, db: &QtyDef, dr: &QtyDef) -> (r: Qty)
    requires
        da.wf(),
        db.wf(),
        dr.wf(),
        da.has_ref(),
        db.has_ref(),
        dr.has_ref(),
        da.valid_qty(*a),
        db.valid_qty(*b),
        b.amount@.n != 0,
        licensed_div(*da, *db, *dr),
        qty_div_fits(*da, *a, *db, *b, *dr),
    ensures
        dr.valid_qty(r),
        (exists|u: int| dr.unit_ok(u) && #[trigger] dr.scale_at(u) == div_scale(*da, *a, *db, *b))
            ==> {
            &&& dr.scale_at(r.unit as int) == div_scale(*da, *a, *db, *b)
            &&& forall|j: int|
                0 <= j < r.unit as int ==> #[trigger] dr.scale_at(j) != div_scale(*da, *a, *db, *b)
            &&& r.amount@ == div_amount(*a, *b)
        },
        (forall|u: int|
            dr.unit_ok(u) ==> #[trigger] dr.scale_at(u) != div_scale(*da, *a, *db, *b)) ==> {
            &&& r.unit as int == fit_choice(*dr, div_raw(*da, *a, *db, *b))
            &&& r.amount@ == rat_canon(
                rat_div(div_raw(*da, *a, *db, *b), dr.scale_at(r.unit as int)),
            )
        },
        rat_eq(ref_value(*dr, r), rat_div(ref_value(*da, *a), ref_value(*db, *b))),
{
    let sa = da.scale(a.unit);
    let sb = db.scale(b.unit);
    let scale = sa.div(&sb);
    let amnt = a.amount.div(&b.amount);
    let ghost target = rat_div(ref_value(*da, *a), ref_value(*db, *b));
    proof {
        lemma_div_parts(
            a.amount@,
            b.amount@,
            da.scale_at(a.unit as int),
            db.scale_at(b.unit as int),
        );
        assert(rat_eq(rat_mul(div_amount(*a, *b), div_scale(*da, *a, *db, *b)), target));
    }
    match dr.unit_from_scale(&scale) {
        Some(u) => {
            let r = Qty::new(amnt, u);
            proof {
                lemma_value_exact(*dr, r, div_amount(*a, *b), div_scale(*da, *a, *db, *b), target);
            }
            r
        },
        None => {
            let raw = amnt.mul(&scale);
            let r = dr._fit(&raw);
            proof {
                let prod = rat_mul(div_amount(*a, *b), div_scale(*da, *a, *db, *b));
                lemma_rat_mul_inv(div_amount(*a, *b), div_scale(*da, *a, *db, *b));
                lemma_canon_eq(prod);
                lemma_rat_eq_trans(div_raw(*da, *a, *db, *b), prod, target);
                lemma_value_fit(*dr, r, div_raw(*da, *a, *db, *b), target);
            }
            r
        },
    }
}

/// When the result sits on a unit whose scale is exactly the combined
/// scale, its reference-unit value is the intended target.
proof fn lemma_value_exact(dr: QtyDef, r: Qty, am: Rat, sc: Rat, target: Rat)
    requires
        dr.wf(),
        dr.has_ref(),
        dr.unit_ok(r.unit as int),
        r.amount@ == am,
        dr.scale_at(r.unit as int) == sc,
        rat_inv(am),
        rat_inv(sc),
        rat_eq(rat_mul(am, sc), target),
    ensures
        rat_eq(ref_value(dr, r), target),
{
}

/// When the result comes from best-fit on the raw amount, its
/// reference-unit value is the intended target.
proof fn lemma_value_fit(dr: QtyDef, r: Qty, raw: Rat, target: Rat)
    requires
        dr.wf(),
        dr.has_ref(),
        dr.unit_ok(r.unit as int),
        rat_inv(raw),
        rat_inv(r.amount@),
        rat_eq(rat_mul(r.amount@, dr.scale_at(r.unit as int)), raw),
        rat_eq(raw, target),
    ensures
        rat_eq(ref_value(dr, r), target),
{
    let s = dr.scale_at(r.unit as int);
    lemma_rat_mul_inv(r.amount@, s);
    lemma_rat_eq_trans(rat_mul(r.amount@, s), raw, target);
}

/// The reduced quotient of amounts times the reduced quotient of scales
/// denotes the quotient of the two reference-unit values.
proof fn lemma_div_parts(aa: Rat, ab: Rat, sa: Rat, sb: Rat)
    requires
        rat_inv(aa),
        rat_inv(ab),
        rat_inv(sa),
        rat_inv(sb),
        ab.n != 0,
        sa.n >= 1,
        sb.n >= 1,
    ensures
        rat_inv(rat_canon(rat_div(aa, ab))),
        rat_inv(rat_canon(rat_div(sa, sb))),
        rat_eq(
            rat_mul(rat_canon(rat_div(aa, ab)), rat_canon(rat_div(sa, sb))),
            rat_div(rat_mul(aa, sa), rat_mul(ab, sb)),
        ),
{
    let qa = rat_div(aa, ab);
    let qs = rat_div(sa, sb);
    assert(rat_inv(qa)) by {
        crate::amount::lemma_rat_div_inv(aa, ab);
    }
    assert(rat_inv(qs)) by {
        crate::amount::lemma_rat_div_inv(sa, sb);
    }
    lemma_canon_mul(qa, qs);
    // The unreduced product of quotients is, representation for
    // representation, the quotient of the products: rewrite each division
    // as a multiplication by the reciprocal and regroup.
    let lhs = rat_mul(qa, qs);
    let rhs = rat_div(rat_mul(aa, sa), rat_mul(ab, sb));
    assert(lhs == rhs) by {
        lemma_div_as_mul(aa, ab);
        lemma_div_as_mul(sa, sb);
        lemma_prod_regroup(aa, rat_recip(ab), sa, rat_recip(sb));
        lemma_recip_mul(ab, sb);
        lemma_div_as_mul(rat_mul(aa, sa), rat_mul(ab, sb));
    }
    // Reduce both factors and carry the equality through.
    lemma_rat_mul_inv(qa, qs);
    lemma_rat_eq_trans(rat_mul(rat_canon(qa), rat_canon(qs)), lhs, rhs);
}

} // verus!
