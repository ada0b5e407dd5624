//! Definition of derived quantity `Acceleration`.

use crate::algebra::der_matches;
use crate::amount::{Amount, Rat};
use crate::define::{
    compile, compile_err, entry_is, has_scaled_unit, lemma_entry_unit,
    lemma_single_leading_ref, n_refs, ref_entry_idx, scale_acceptable, QtySpec, UnitEntry,
};
use crate::qty::QtyDef;
use crate::qty::{DerivOp, Derivation};
use crate::scales::{
    lemma_pow10_values, lemma_canon_9144_em4,
};
use crate::si_prefixes::SIPrefix;
use vstd::prelude::*;

verus! {

/// Rate of change of an objects speed with respect to time.
pub struct Acceleration {}

impl Acceleration {
    /// The declarative specification of `Acceleration`: its unit entries in
    /// declaration order, each pinned field for field, at most one of
    /// them marked as the reference unit.
    #[verifier::rlimit(100)]
    pub fn declaration() -> (s: QtySpec)
        ensures
            compile_err(s) is None,
            n_refs(s) == 1,
            ref_entry_idx(s) == 0,
            s.entries@[0].symbol@ == "m/s²"@,
            s.ident@ == "Acceleration"@,
            der_matches(s.derived, "Speed"@, DerivOp::Div, "Duration"@),
            s.entries@.len() == 2,
            entry_is(s.entries@[0], true, "Meter_per_Second_squared"@, "m/s²"@, Some(SIPrefix::NONE), None),
            entry_is(s.entries@[1], false, "Yards_per_Second_squared"@, "yd/s²"@, None, Some(Rat { n: 1143, d: 1250 })),
    {
        let mut entries: Vec<UnitEntry> = Vec::new();
        entries.push(
            UnitEntry {
                is_ref: true,
                ident: "Meter_per_Second_squared".to_owned(),
                symbol: "m/s²".to_owned(),
                si_prefix: Some(SIPrefix::NONE),
                scale: None,
                doc: Some("Reference unit of quantity `Acceleration`".to_owned()),
            },
        );
        entries.push(
            UnitEntry {
                is_ref: false,
                ident: "Yards_per_Second_squared".to_owned(),
                symbol: "yd/s²".to_owned(),
                si_prefix: None,
                scale: Some(Amount::from_sci(9144, -4)),
                doc: Some("yd/s²".to_owned()),
            },
        );
        let s = QtySpec { ident: "Acceleration".to_owned(), derived: Some(
            Derivation { lhs: "Speed".to_owned(), op: DerivOp::Div, rhs: "Duration".to_owned() },
        ), entries };
        proof {
            let es = s.entries@;
            assert forall|j: int| 1 <= j < es.len() implies !(#[trigger] es[j]).is_ref by {}
            lemma_single_leading_ref(es);
            assert forall|j: int|
                0 <= j < es.len() && !(#[trigger] es[j]).is_ref implies (#[trigger] es[j]).scale
                is Some && scale_acceptable(es[j].scale->Some_0) by {}
            reveal_strlit("Speed");
            reveal_strlit("Duration");
            lemma_pow10_values();
            lemma_canon_9144_em4();
            assert(compile_err(s) is None);
        }
        s
    }

    /// The compiled definition of `Acceleration`: the validated, sorted unit
    /// table the engine works on, holding exactly the declared units.
    #[verifier::rlimit(100)]
    pub fn definition() -> (d: QtyDef)
        ensures
            d.wf(),
            d.has_ref(),
            d.sym_at(d.ref_idx()) == "m/s²"@,
            d.ident@ == "Acceleration"@,
            der_matches(d.derived, "Speed"@, DerivOp::Div, "Duration"@),
            d.units@.len() == 2,
            has_scaled_unit(d, "Meter_per_Second_squared"@, "m/s²"@, Some(SIPrefix::NONE), Rat { n: 1, d: 1 }),
            has_scaled_unit(d, "Yards_per_Second_squared"@, "yd/s²"@, None, Rat { n: 1143, d: 1250 }),
    {
        let s = Acceleration::declaration();
        match compile(&s) {
            Result::Ok(d) => {
                proof {
                    lemma_entry_unit(s, d, 0);
                    lemma_entry_unit(s, d, 1);
                }
                d
            },
            Result::Err(_) => {
                // Unreachable: the declaration is valid.
                proof {
                    assert(false);
                }
                QtyDef { ident: String::new(), derived: None, ref_unit: None, units: Vec::new() }
            },
        }
    }
}

} // verus!
