//! Definition of derived quantity `Energy`.

use crate::algebra::der_matches;
use crate::amount::{Amount, Rat};
use crate::define::{
    compile, compile_err, entry_is, has_scaled_unit, lemma_entry_unit,
    lemma_single_leading_ref, n_refs, ref_entry_idx, scale_acceptable, QtySpec, UnitEntry,
};
use crate::qty::QtyDef;
use crate::qty::{DerivOp, Derivation};
use crate::scales::{
    lemma_pow10_values, lemma_canon_1_e0, lemma_canon_36_e5,
};
use crate::si_prefixes::SIPrefix;
use vstd::prelude::*;

verus! {

/// Property that must be transferred to an object in order to perform work on or to heat it.
pub struct Energy {}

impl Energy {
    /// The declarative specification of `Energy`: its unit entries in
    /// declaration order, each pinned field for field, at most one of
    /// them marked as the reference unit.
    #[verifier::rlimit(100)]
    pub fn declaration() -> (s: QtySpec)
        ensures
            compile_err(s) is None,
            n_refs(s) == 1,
            ref_entry_idx(s) == 0,
            s.entries@[0].symbol@ == "J"@,
            s.ident@ == "Energy"@,
            der_matches(s.derived, "Force"@, DerivOp::Mul, "Length"@),
            s.entries@.len() == 4,
            entry_is(s.entries@[0], true, "Joule"@, "J"@, Some(SIPrefix::NONE), None),
            entry_is(s.entries@[1], false, "Newton_Meter"@, "Nm"@, Some(SIPrefix::NONE), Some(Rat { n: 1, d: 1 })),
            entry_is(s.entries@[2], false, "Watt_Second"@, "Ws"@, Some(SIPrefix::NONE), Some(Rat { n: 1, d: 1 })),
            entry_is(s.entries@[3], false, "Kilowatt_Hour"@, "kWh"@, None, Some(Rat { n: 3600000, d: 1 })),
    {
        let mut entries: Vec<UnitEntry> = Vec::new();
        entries.push(
            UnitEntry {
                is_ref: true,
                ident: "Joule".to_owned(),
                symbol: "J".to_owned(),
                si_prefix: Some(SIPrefix::NONE),
                scale: None,
                doc: Some("Reference unit of quantity `Energy`".to_owned()),
            },
        );
        entries.push(
            UnitEntry {
                is_ref: false,
                ident: "Newton_Meter".to_owned(),
                symbol: "Nm".to_owned(),
                si_prefix: Some(SIPrefix::NONE),
                scale: Some(Amount::from_sci(1, 0)),
                doc: Some("N·m".to_owned()),
            },
        );
        entries.push(
            UnitEntry {
                is_ref: false,
                ident: "Watt_Second".to_owned(),
                symbol: "Ws".to_owned(),
                si_prefix: Some(SIPrefix::NONE),
                scale: Some(Amount::from_sci(1, 0)),
                doc: Some("W·s".to_owned()),
            },
        );
        entries.push(
            UnitEntry {
                is_ref: false,
                ident: "Kilowatt_Hour".to_owned(),
                symbol: "kWh".to_owned(),
                si_prefix: None,
                scale: Some(Amount::from_sci(36, 5)),
                doc: Some("kW·h".to_owned()),
            },
        );
        let s = QtySpec { ident: "Energy".to_owned(), derived: Some(
            Derivation { lhs: "Force".to_owned(), op: DerivOp::Mul, rhs: "Length".to_owned() },
        ), entries };
        proof {
            let es = s.entries@;
            assert forall|j: int| 1 <= j < es.len() implies !(#[trigger] es[j]).is_ref by {}
            lemma_single_leading_ref(es);
            assert forall|j: int|
                0 <= j < es.len() && !(#[trigger] es[j]).is_ref implies (#[trigger] es[j]).scale
                is Some && scale_acceptable(es[j].scale->Some_0) by {}
            reveal_strlit("Force");
            reveal_strlit("Length");
            lemma_pow10_values();
            lemma_canon_1_e0();
            lemma_canon_36_e5();
            assert(compile_err(s) is None);
        }
        s
    }

    /// The compiled definition of `Energy`: the validated, sorted unit
    /// table the engine works on, holding exactly the declared units.
    #[verifier::rlimit(100)]
    pub fn definition() -> (d: QtyDef)
        ensures
            d.wf(),
            d.has_ref(),
            d.sym_at(d.ref_idx()) == "J"@,
            d.ident@ == "Energy"@,
            der_matches(d.derived, "Force"@, DerivOp::Mul, "Length"@),
            d.units@.len() == 4,
            has_scaled_unit(d, "Joule"@, "J"@, Some(SIPrefix::NONE), Rat { n: 1, d: 1 }),
            has_scaled_unit(d, "Newton_Meter"@, "Nm"@, Some(SIPrefix::NONE), Rat { n: 1, d: 1 }),
            has_scaled_unit(d, "Watt_Second"@, "Ws"@, Some(SIPrefix::NONE), Rat { n: 1, d: 1 }),
            has_scaled_unit(d, "Kilowatt_Hour"@, "kWh"@, None, Rat { n: 3600000, d: 1 }),
    {
        let s = Energy::declaration();
        match compile(&s) {
            Result::Ok(d) => {
                proof {
                    lemma_entry_unit(s, d, 0);
                    lemma_entry_unit(s, d, 1);
                    lemma_entry_unit(s, d, 2);
                    lemma_entry_unit(s, d, 3);
                }
                d
            },
            Result::Err(_) => {
                // Unreachable: the declaration is valid.
                proof {
                    assert(false);
                }
                QtyDef { ident: String::new(), derived: None, ref_unit: None, units: Vec::new() }
            },
        }
    }
}

} // verus!
