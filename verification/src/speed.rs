//! Definition of derived quantity `Speed`.

use crate::algebra::der_matches;
use crate::amount::{Amount, Rat};
use crate::define::{
    compile, compile_err, entry_is, has_scaled_unit, lemma_entry_unit,
    lemma_single_leading_ref, n_refs, ref_entry_idx, scale_acceptable, QtySpec, UnitEntry,
};
use crate::qty::QtyDef;
use crate::qty::{DerivOp, Derivation};
use crate::scales::{
    lemma_pow10_values, lemma_canon_2777777777777778_em16, lemma_canon_44704_em5, lemma_canon_5144444444444445_em16,
};
use crate::si_prefixes::SIPrefix;
use vstd::prelude::*;

verus! {

/// Magnitude of the change of an objects position per unit of time.
pub struct Speed {}

impl Speed {
    /// The declarative specification of `Speed`: its unit entries in
    /// declaration order, each pinned field for field, at most one of
    /// them marked as the reference unit.
    #[verifier::rlimit(100)]
    pub fn declaration() -> (s: QtySpec)
        ensures
            compile_err(s) is None,
            n_refs(s) == 1,
            ref_entry_idx(s) == 0,
            s.entries@[0].symbol@ == "m/s"@,
            s.ident@ == "Speed"@,
            der_matches(s.derived, "Length"@, DerivOp::Div, "Duration"@),
            s.entries@.len() == 4,
            entry_is(s.entries@[0], true, "Meter_per_Second"@, "m/s"@, Some(SIPrefix::NONE), None),
            entry_is(s.entries@[1], false, "Kilometer_per_Hour"@, "km/h"@, None, Some(Rat { n: 1388888888888889, d: 5000000000000000 })),
            entry_is(s.entries@[2], false, "Miles_per_Hour"@, "mph"@, None, Some(Rat { n: 1397, d: 3125 })),
            entry_is(s.entries@[3], false, "Knot"@, "kn"@, None, Some(Rat { n: 1028888888888889, d: 2000000000000000 })),
    {
        let mut entries: Vec<UnitEntry> = Vec::new();
        entries.push(
            UnitEntry {
                is_ref: true,
                ident: "Meter_per_Second".to_owned(),
                symbol: "m/s".to_owned(),
                si_prefix: Some(SIPrefix::NONE),
                scale: None,
                doc: Some("Reference unit of quantity `Speed`".to_owned()),
            },
        );
        entries.push(
            UnitEntry {
                is_ref: false,
                ident: "Kilometer_per_Hour".to_owned(),
                symbol: "km/h".to_owned(),
                si_prefix: None,
                scale: Some(Amount::from_sci(2777777777777778, -16)),
                doc: Some("km/h".to_owned()),
            },
        );
        entries.push(
            UnitEntry {
                is_ref: false,
                ident: "Miles_per_Hour".to_owned(),
                symbol: "mph".to_owned(),
                si_prefix: None,
                scale: Some(Amount::from_sci(44704, -5)),
                doc: Some("mi/h".to_owned()),
            },
        );
        entries.push(
            UnitEntry {
                is_ref: false,
                ident: "Knot".to_owned(),
                symbol: "kn".to_owned(),
                si_prefix: None,
                scale: Some(Amount::from_sci(5144444444444445, -16)),
                doc: Some("nmi/h".to_owned()),
            },
        );
        let s = QtySpec { ident: "Speed".to_owned(), derived: Some(
            Derivation { lhs: "Length".to_owned(), op: DerivOp::Div, rhs: "Duration".to_owned() },
        ), entries };
        proof {
            let es = s.entries@;
            assert forall|j: int| 1 <= j < es.len() implies !(#[trigger] es[j]).is_ref by {}
            lemma_single_leading_ref(es);
            assert forall|j: int|
                0 <= j < es.len() && !(#[trigger] es[j]).is_ref implies (#[trigger] es[j]).scale
                is Some && scale_acceptable(es[j].scale->Some_0) by {}
            reveal_strlit("Length");
            reveal_strlit("Duration");
            lemma_pow10_values();
            lemma_canon_2777777777777778_em16();
            lemma_canon_44704_em5();
            lemma_canon_5144444444444445_em16();
            assert(compile_err(s) is None);
        }
        s
    }

    /// The compiled definition of `Speed`: the validated, sorted unit
    /// table the engine works on, holding exactly the declared units.
    #[verifier::rlimit(100)]
    pub fn definition() -> (d: QtyDef)
        ensures
            d.wf(),
            d.has_ref(),
            d.sym_at(d.ref_idx()) == "m/s"@,
            d.ident@ == "Speed"@,
            der_matches(d.derived, "Length"@, DerivOp::Div, "Duration"@),
            d.units@.len() == 4,
            has_scaled_unit(d, "Meter_per_Second"@, "m/s"@, Some(SIPrefix::NONE), Rat { n: 1, d: 1 }),
            has_scaled_unit(d, "Kilometer_per_Hour"@, "km/h"@, None, Rat { n: 1388888888888889, d: 5000000000000000 }),
            has_scaled_unit(d, "Miles_per_Hour"@, "mph"@, None, Rat { n: 1397, d: 3125 }),
            has_scaled_unit(d, "Knot"@, "kn"@, None, Rat { n: 1028888888888889, d: 2000000000000000 }),
    {
        let s = Speed::declaration();
        match compile(&s) {
            Result::Ok(d) => {
                proof {
                    lemma_entry_unit(s, d, 0);
                    lemma_entry_unit(s, d, 1);
                    lemma_entry_unit(s, d, 2);
                    lemma_entry_unit(s, d, 3);
                }
                d
            },
            Result::Err(_) => {
                // Unreachable: the declaration is valid.
                proof {
                    assert(false);
                }
                QtyDef { ident: String::new(), derived: None, ref_unit: None, units: Vec::new() }
            },
        }
    }
}

} // verus!
