//! Definition of derived quantity `Force`.

use crate::algebra::der_matches;
use crate::amount::{Amount, Rat};
use crate::define::{
    compile, compile_err, entry_is, has_scaled_unit, lemma_entry_unit,
    lemma_single_leading_ref, n_refs, ref_entry_idx, scale_acceptable, QtySpec, UnitEntry,
};
use crate::qty::QtyDef;
use crate::qty::{DerivOp, Derivation};
use crate::scales::{
    lemma_pow10_values, lemma_canon_1_e0,
};
use crate::si_prefixes::SIPrefix;
use vstd::prelude::*;

verus! {

/// Influence that can accelerate an object with mass.
pub struct Force {}

impl Force {
    /// The declarative specification of `Force`: its unit entries in
    /// declaration order, each pinned field for field, at most one of
    /// them marked as the reference unit.
    #[verifier::rlimit(100)]
    pub fn declaration() -> (s: QtySpec)
        ensures
            compile_err(s) is None,
            n_refs(s) == 1,
            ref_entry_idx(s) == 0,
            s.entries@[0].symbol@ == "N"@,
            s.ident@ == "Force"@,
            der_matches(s.derived, "Mass"@, DerivOp::Mul, "Acceleration"@),
            s.entries@.len() == 2,
            entry_is(s.entries@[0], true, "Newton"@, "N"@, Some(SIPrefix::NONE), None),
            entry_is(s.entries@[1], false, "Joule_per_Meter"@, "J/m"@, Some(SIPrefix::NONE), Some(Rat { n: 1, d: 1 })),
    {
        let mut entries: Vec<UnitEntry> = Vec::new();
        entries.push(
            UnitEntry {
                is_ref: true,
                ident: "Newton".to_owned(),
                symbol: "N".to_owned(),
                si_prefix: Some(SIPrefix::NONE),
                scale: None,
                doc: Some("Reference unit of quantity `Force`".to_owned()),
            },
        );
        entries.push(
            UnitEntry {
                is_ref: false,
                ident: "Joule_per_Meter".to_owned(),
                symbol: "J/m".to_owned(),
                si_prefix: Some(SIPrefix::NONE),
                scale: Some(Amount::from_sci(1, 0)),
                doc: Some("J/m".to_owned()),
            },
        );
        let s = QtySpec { ident: "Force".to_owned(), derived: Some(
            Derivation { lhs: "Mass".to_owned(), op: DerivOp::Mul, rhs: "Acceleration".to_owned() },
        ), entries };
        proof {
            let es = s.entries@;
            assert forall|j: int| 1 <= j < es.len() implies !(#[trigger] es[j]).is_ref by {}
            lemma_single_leading_ref(es);
            assert forall|j: int|
                0 <= j < es.len() && !(#[trigger] es[j]).is_ref implies (#[trigger] es[j]).scale
                is Some && scale_acceptable(es[j].scale->Some_0) by {}
            reveal_strlit("Mass");
            reveal_strlit("Acceleration");
            lemma_pow10_values();
            lemma_canon_1_e0();
            assert(compile_err(s) is None);
        }
        s
    }

    /// The compiled definition of `Force`: the validated, sorted unit
    /// table the engine works on, holding exactly the declared units.
    #[verifier::rlimit(100)]
    pub fn definition() -> (d: QtyDef)
        ensures
            d.wf(),
            d.has_ref(),
            d.sym_at(d.ref_idx()) == "N"@,
            d.ident@ == "Force"@,
            der_matches(d.derived, "Mass"@, DerivOp::Mul, "Acceleration"@),
            d.units@.len() == 2,
            has_scaled_unit(d, "Newton"@, "N"@, Some(SIPrefix::NONE), Rat { n: 1, d: 1 }),
            has_scaled_unit(d, "Joule_per_Meter"@, "J/m"@, Some(SIPrefix::NONE), Rat { n: 1, d: 1 }),
    {
        let s = Force::declaration();
        match compile(&s) {
            Result::Ok(d) => {
                proof {
                    lemma_entry_unit(s, d, 0);
                    lemma_entry_unit(s, d, 1);
                }
                d
            },
            Result::Err(_) => {
                // Unreachable: the declaration is valid.
                proof {
                    assert(false);
                }
                QtyDef { ident: String::new(), derived: None, ref_unit: None, units: Vec::new() }
            },
        }
    }
}

} // verus!
