//! Definition of derived quantity `Frequency`.

use crate::algebra::der_matches;
use crate::amount::{Amount, Rat};
use crate::define::{
    compile, compile_err, entry_is, has_scaled_unit, lemma_entry_unit,
    lemma_single_leading_ref, n_refs, ref_entry_idx, scale_acceptable, QtySpec, UnitEntry,
};
use crate::qty::QtyDef;
use crate::qty::{DerivOp, Derivation};
use crate::scales::{
    lemma_pow10_values, lemma_canon_1_e3, lemma_canon_1_e6, lemma_canon_1_e9,
};
use crate::si_prefixes::SIPrefix;
use vstd::prelude::*;

verus! {

/// Number of occurrences of a repeating event per unit of time.
pub struct Frequency {}

impl Frequency {
    /// The declarative specification of `Frequency`: its unit entries in
    /// declaration order, each pinned field for field, at most one of
    /// them marked as the reference unit.
    #[verifier::rlimit(100)]
    pub fn declaration() -> (s: QtySpec)
        ensures
            compile_err(s) is None,
            n_refs(s) == 1,
            ref_entry_idx(s) == 0,
            s.entries@[0].symbol@ == "Hz"@,
            s.ident@ == "Frequency"@,
            der_matches(s.derived, "AmountT"@, DerivOp::Div, "Duration"@),
            s.entries@.len() == 4,
            entry_is(s.entries@[0], true, "Hertz"@, "Hz"@, Some(SIPrefix::NONE), None),
            entry_is(s.entries@[1], false, "Kilohertz"@, "kHz"@, Some(SIPrefix::KILO), Some(Rat { n: 1000, d: 1 })),
            entry_is(s.entries@[2], false, "Megahertz"@, "MHz"@, Some(SIPrefix::MEGA), Some(Rat { n: 1000000, d: 1 })),
            entry_is(s.entries@[3], false, "Gigahertz"@, "GHz"@, Some(SIPrefix::GIGA), Some(Rat { n: 1000000000, d: 1 })),
    {
        let mut entries: Vec<UnitEntry> = Vec::new();
        entries.push(
            UnitEntry {
                is_ref: true,
                ident: "Hertz".to_owned(),
                symbol: "Hz".to_owned(),
                si_prefix: Some(SIPrefix::NONE),
                scale: None,
                doc: Some("Reference unit of quantity `Frequency`".to_owned()),
            },
        );
        entries.push(
            UnitEntry {
                is_ref: false,
                ident: "Kilohertz".to_owned(),
                symbol: "kHz".to_owned(),
                si_prefix: Some(SIPrefix::KILO),
                scale: Some(Amount::from_sci(1, 3)),
                doc: Some("1000·Hz".to_owned()),
            },
        );
        entries.push(
            UnitEntry {
                is_ref: false,
                ident: "Megahertz".to_owned(),
                symbol: "MHz".to_owned(),
                si_prefix: Some(SIPrefix::MEGA),
                scale: Some(Amount::from_sci(1, 6)),
                doc: Some("1000000·Hz".to_owned()),
            },
        );
        entries.push(
            UnitEntry {
                is_ref: false,
                ident: "Gigahertz".to_owned(),
                symbol: "GHz".to_owned(),
                si_prefix: Some(SIPrefix::GIGA),
                scale: Some(Amount::from_sci(1, 9)),
                doc: Some("1000000000·Hz".to_owned()),
            },
        );
        let s = QtySpec { ident: "Frequency".to_owned(), derived: Some(
            Derivation { lhs: "AmountT".to_owned(), op: DerivOp::Div, rhs: "Duration".to_owned() },
        ), entries };
        proof {
            let es = s.entries@;
            assert forall|j: int| 1 <= j < es.len() implies !(#[trigger] es[j]).is_ref by {}
            lemma_single_leading_ref(es);
            assert forall|j: int|
                0 <= j < es.len() && !(#[trigger] es[j]).is_ref implies (#[trigger] es[j]).scale
                is Some && scale_acceptable(es[j].scale->Some_0) by {}
            reveal_strlit("AmountT");
            reveal_strlit("Duration");
            lemma_pow10_values();
            lemma_canon_1_e3();
            lemma_canon_1_e6();
            lemma_canon_1_e9();
            assert(compile_err(s) is None);
        }
        s
    }

    /// The compiled definition of `Frequency`: the validated, sorted unit
    /// table the engine works on, holding exactly the declared units.
    #[verifier::rlimit(100)]
    pub fn definition() -> (d: QtyDef)
        ensures
            d.wf(),
            d.has_ref(),
            d.sym_at(d.ref_idx()) == "Hz"@,
            d.ident@ == "Frequency"@,
            der_matches(d.derived, "AmountT"@, DerivOp::Div, "Duration"@),
            d.units@.len() == 4,
            has_scaled_unit(d, "Hertz"@, "Hz"@, Some(SIPrefix::NONE), Rat { n: 1, d: 1 }),
            has_scaled_unit(d, "Kilohertz"@, "kHz"@, Some(SIPrefix::KILO), Rat { n: 1000, d: 1 }),
            has_scaled_unit(d, "Megahertz"@, "MHz"@, Some(SIPrefix::MEGA), Rat { n: 1000000, d: 1 }),
            has_scaled_unit(d, "Gigahertz"@, "GHz"@, Some(SIPrefix::GIGA), Rat { n: 1000000000, d: 1 }),
    {
        let s = Frequency::declaration();
        match compile(&s) {
            Result::Ok(d) => {
                proof {
                    lemma_entry_unit(s, d, 0);
                    lemma_entry_unit(s, d, 1);
                    lemma_entry_unit(s, d, 2);
                    lemma_entry_unit(s, d, 3);
                }
                d
            },
            Result::Err(_) => {
                // Unreachable: the declaration is valid.
                proof {
                    assert(false);
                }
                QtyDef { ident: String::new(), derived: None, ref_unit: None, units: Vec::new() }
            },
        }
    }
}

} // verus!
