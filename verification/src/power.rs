//! Definition of derived quantity `Power`.

use crate::algebra::der_matches;
use crate::amount::{Amount, Rat};
use crate::define::{
    compile, compile_err, entry_is, has_scaled_unit, lemma_entry_unit,
    lemma_single_leading_ref, n_refs, ref_entry_idx, scale_acceptable, QtySpec, UnitEntry,
};
use crate::qty::QtyDef;
use crate::qty::{DerivOp, Derivation};
use crate::scales::{
    lemma_pow10_values, lemma_canon_1_e12, lemma_canon_1_e3, lemma_canon_1_e6, lemma_canon_1_e9, lemma_canon_1_em3,
};
use crate::si_prefixes::SIPrefix;
use vstd::prelude::*;

verus! {

/// Energy transferred or converted per unit of time.
pub struct Power {}

impl Power {
    /// The declarative specification of `Power`: its unit entries in
    /// declaration order, each pinned field for field, at most one of
    /// them marked as the reference unit.
    #[verifier::rlimit(100)]
    pub fn declaration() -> (s: QtySpec)
        ensures
            compile_err(s) is None,
            n_refs(s) == 1,
            ref_entry_idx(s) == 0,
            s.entries@[0].symbol@ == "W"@,
            s.ident@ == "Power"@,
            der_matches(s.derived, "Energy"@, DerivOp::Div, "Duration"@),
            s.entries@.len() == 6,
            entry_is(s.entries@[0], true, "Watt"@, "W"@, Some(SIPrefix::NONE), None),
            entry_is(s.entries@[1], false, "Milliwatt"@, "mW"@, Some(SIPrefix::MILLI), Some(Rat { n: 1, d: 1000 })),
            entry_is(s.entries@[2], false, "Kilowatt"@, "kW"@, Some(SIPrefix::KILO), Some(Rat { n: 1000, d: 1 })),
            entry_is(s.entries@[3], false, "Megawatt"@, "MW"@, Some(SIPrefix::MEGA), Some(Rat { n: 1000000, d: 1 })),
            entry_is(s.entries@[4], false, "Gigawatt"@, "GW"@, Some(SIPrefix::GIGA), Some(Rat { n: 1000000000, d: 1 })),
            entry_is(s.entries@[5], false, "Terawatt"@, "TW"@, Some(SIPrefix::TERA), Some(Rat { n: 1000000000000, d: 1 })),
    {
        let mut entries: Vec<UnitEntry> = Vec::new();
        entries.push(
            UnitEntry {
                is_ref: true,
                ident: "Watt".to_owned(),
                symbol: "W".to_owned(),
                si_prefix: Some(SIPrefix::NONE),
                scale: None,
                doc: Some("Reference unit of quantity `Power`".to_owned()),
            },
        );
        entries.push(
            UnitEntry {
                is_ref: false,
                ident: "Milliwatt".to_owned(),
                symbol: "mW".to_owned(),
                si_prefix: Some(SIPrefix::MILLI),
                scale: Some(Amount::from_sci(1, -3)),
                doc: Some("0.001·W".to_owned()),
            },
        );
        entries.push(
            UnitEntry {
                is_ref: false,
                ident: "Kilowatt".to_owned(),
                symbol: "kW".to_owned(),
                si_prefix: Some(SIPrefix::KILO),
                scale: Some(Amount::from_sci(1, 3)),
                doc: Some("1000·W".to_owned()),
            },
        );
        entries.push(
            UnitEntry {
                is_ref: false,
                ident: "Megawatt".to_owned(),
                symbol: "MW".to_owned(),
                si_prefix: Some(SIPrefix::MEGA),
                scale: Some(Amount::from_sci(1, 6)),
                doc: Some("1000000·W".to_owned()),
            },
        );
        entries.push(
            UnitEntry {
                is_ref: false,
                ident: "Gigawatt".to_owned(),
                symbol: "GW".to_owned(),
                si_prefix: Some(SIPrefix::GIGA),
                scale: Some(Amount::from_sci(1, 9)),
                doc: Some("1000000000·W".to_owned()),
            },
        );
        entries.push(
            UnitEntry {
                is_ref: false,
                ident: "Terawatt".to_owned(),
                symbol: "TW".to_owned(),
                si_prefix: Some(SIPrefix::TERA),
                scale: Some(Amount::from_sci(1, 12)),
                doc: Some("1000000000000·W".to_owned()),
            },
        );
        let s = QtySpec { ident: "Power".to_owned(), derived: Some(
            Derivation { lhs: "Energy".to_owned(), op: DerivOp::Div, rhs: "Duration".to_owned() },
        ), entries };
        proof {
            let es = s.entries@;
            assert forall|j: int| 1 <= j < es.len() implies !(#[trigger] es[j]).is_ref by {}
            lemma_single_leading_ref(es);
            assert forall|j: int|
                0 <= j < es.len() && !(#[trigger] es[j]).is_ref implies (#[trigger] es[j]).scale
                is Some && scale_acceptable(es[j].scale->Some_0) by {}
            reveal_strlit("Energy");
            reveal_strlit("Duration");
            lemma_pow10_values();
            lemma_canon_1_em3();
            lemma_canon_1_e3();
            lemma_canon_1_e6();
            lemma_canon_1_e9();
            lemma_canon_1_e12();
            assert(compile_err(s) is None);
        }
        s
    }

    /// The compiled definition of `Power`: the validated, sorted unit
    /// table the engine works on, holding exactly the declared units.
    #[verifier::rlimit(100)]
    pub fn definition() -> (d: QtyDef)
        ensures
            d.wf(),
            d.has_ref(),
            d.sym_at(d.ref_idx()) == "W"@,
            d.ident@ == "Power"@,
            der_matches(d.derived, "Energy"@, DerivOp::Div, "Duration"@),
            d.units@.len() == 6,
            has_scaled_unit(d, "Watt"@, "W"@, Some(SIPrefix::NONE), Rat { n: 1, d: 1 }),
            has_scaled_unit(d, "Milliwatt"@, "mW"@, Some(SIPrefix::MILLI), Rat { n: 1, d: 1000 }),
            has_scaled_unit(d, "Kilowatt"@, "kW"@, Some(SIPrefix::KILO), Rat { n: 1000, d: 1 }),
            has_scaled_unit(d, "Megawatt"@, "MW"@, Some(SIPrefix::MEGA), Rat { n: 1000000, d: 1 }),
            has_scaled_unit(d, "Gigawatt"@, "GW"@, Some(SIPrefix::GIGA), Rat { n: 1000000000, d: 1 }),
            has_scaled_unit(d, "Terawatt"@, "TW"@, Some(SIPrefix::TERA), Rat { n: 1000000000000, d: 1 }),
    {
        let s = Power::declaration();
        match compile(&s) {
            Result::Ok(d) => {
                proof {
                    lemma_entry_unit(s, d, 0);
                    lemma_entry_unit(s, d, 1);
                    lemma_entry_unit(s, d, 2);
                    lemma_entry_unit(s, d, 3);
                    lemma_entry_unit(s, d, 4);
                    lemma_entry_unit(s, d, 5);
                }
                d
            },
            Result::Err(_) => {
                // Unreachable: the declaration is valid.
                proof {
                    assert(false);
                }
                QtyDef { ident: String::new(), derived: None, ref_unit: None, units: Vec::new() }
            },
        }
    }
}

} // verus!
