//! Definition of derived quantity `Area`.

use crate::algebra::der_matches;
use crate::amount::{Amount, Rat};
use crate::define::{
    compile, compile_err, entry_is, has_scaled_unit, lemma_entry_unit,
    lemma_single_leading_ref, n_refs, ref_entry_idx, scale_acceptable, QtySpec, UnitEntry,
};
use crate::qty::QtyDef;
use crate::qty::{DerivOp, Derivation};
use crate::scales::{
    lemma_pow10_values, lemma_canon_1_e2, lemma_canon_1_e4, lemma_canon_1_e6, lemma_canon_1_em2, lemma_canon_1_em4, lemma_canon_1_em6, lemma_canon_2589988110336_em6, lemma_canon_40468564224_em7, lemma_canon_64516_em8, lemma_canon_83612736_em8, lemma_canon_9290304_em8,
};
use crate::si_prefixes::SIPrefix;
use vstd::prelude::*;

verus! {

/// The quantity expressing the extent of a two-dimensional region.
pub struct Area {}

impl Area {
    /// The declarative specification of `Area`: its unit entries in
    /// declaration order, each pinned field for field, at most one of
    /// them marked as the reference unit.
    #[verifier::rlimit(100)]
    pub fn declaration() -> (s: QtySpec)
        ensures
            compile_err(s) is None,
            n_refs(s) == 1,
            ref_entry_idx(s) == 0,
            s.entries@[0].symbol@ == "m²"@,
            s.ident@ == "Area"@,
            der_matches(s.derived, "Length"@, DerivOp::Mul, "Length"@),
            s.entries@.len() == 12,
            entry_is(s.entries@[0], true, "Square_Meter"@, "m²"@, Some(SIPrefix::NONE), None),
            entry_is(s.entries@[1], false, "Square_Millimeter"@, "mm²"@, Some(SIPrefix::MICRO), Some(Rat { n: 1, d: 1000000 })),
            entry_is(s.entries@[2], false, "Square_Centimeter"@, "cm²"@, None, Some(Rat { n: 1, d: 10000 })),
            entry_is(s.entries@[3], false, "Square_Inch"@, "in²"@, None, Some(Rat { n: 16129, d: 25000000 })),
            entry_is(s.entries@[4], false, "Square_Decimeter"@, "dm²"@, Some(SIPrefix::CENTI), Some(Rat { n: 1, d: 100 })),
            entry_is(s.entries@[5], false, "Square_Foot"@, "ft²"@, None, Some(Rat { n: 145161, d: 1562500 })),
            entry_is(s.entries@[6], false, "Square_Yard"@, "yd²"@, None, Some(Rat { n: 1306449, d: 1562500 })),
            entry_is(s.entries@[7], false, "Are"@, "a"@, Some(SIPrefix::HECTO), Some(Rat { n: 100, d: 1 })),
            entry_is(s.entries@[8], false, "Acre"@, "ac"@, None, Some(Rat { n: 316160658, d: 78125 })),
            entry_is(s.entries@[9], false, "Hectare"@, "ha"@, None, Some(Rat { n: 10000, d: 1 })),
            entry_is(s.entries@[10], false, "Square_Kilometer"@, "km²"@, Some(SIPrefix::MEGA), Some(Rat { n: 1000000, d: 1 })),
            entry_is(s.entries@[11], false, "Square_Mile"@, "mi²"@, None, Some(Rat { n: 40468564224, d: 15625 })),
    {
        let mut entries: Vec<UnitEntry> = Vec::new();
        entries.push(
            UnitEntry {
                is_ref: true,
                ident: "Square_Meter".to_owned(),
                symbol: "m²".to_owned(),
                si_prefix: Some(SIPrefix::NONE),
                scale: None,
                doc: Some("Reference unit of quantity `Area`".to_owned()),
            },
        );
        entries.push(
            UnitEntry {
                is_ref: false,
                ident: "Square_Millimeter".to_owned(),
                symbol: "mm²".to_owned(),
                si_prefix: Some(SIPrefix::MICRO),
                scale: Some(Amount::from_sci(1, -6)),
                doc: Some("mm²".to_owned()),
            },
        );
        entries.push(
            UnitEntry {
                is_ref: false,
                ident: "Square_Centimeter".to_owned(),
                symbol: "cm²".to_owned(),
                si_prefix: None,
                scale: Some(Amount::from_sci(1, -4)),
                doc: Some("cm²".to_owned()),
            },
        );
        entries.push(
            UnitEntry {
                is_ref: false,
                ident: "Square_Inch".to_owned(),
                symbol: "in²".to_owned(),
                si_prefix: None,
                scale: Some(Amount::from_sci(64516, -8)),
                doc: Some("in²".to_owned()),
            },
        );
        entries.push(
            UnitEntry {
                is_ref: false,
                ident: "Square_Decimeter".to_owned(),
                symbol: "dm²".to_owned(),
                si_prefix: Some(SIPrefix::CENTI),
                scale: Some(Amount::from_sci(1, -2)),
                doc: Some("dm²".to_owned()),
            },
        );
        entries.push(
            UnitEntry {
                is_ref: false,
                ident: "Square_Foot".to_owned(),
                symbol: "ft²".to_owned(),
                si_prefix: None,
                scale: Some(Amount::from_sci(9290304, -8)),
                doc: Some("ft²".to_owned()),
            },
        );
        entries.push(
            UnitEntry {
                is_ref: false,
                ident: "Square_Yard".to_owned(),
                symbol: "yd²".to_owned(),
                si_prefix: None,
                scale: Some(Amount::from_sci(83612736, -8)),
                doc: Some("yd²".to_owned()),
            },
        );
        entries.push(
            UnitEntry {
                is_ref: false,
                ident: "Are".to_owned(),
                symbol: "a".to_owned(),
                si_prefix: Some(SIPrefix::HECTO),
                scale: Some(Amount::from_sci(1, 2)),
                doc: Some("100·m²".to_owned()),
            },
        );
        entries.push(
            UnitEntry {
                is_ref: false,
                ident: "Acre".to_owned(),
                symbol: "ac".to_owned(),
                si_prefix: None,
                scale: Some(Amount::from_sci(40468564224, -7)),
                doc: Some("4840·yd²".to_owned()),
            },
        );
        entries.push(
            UnitEntry {
                is_ref: false,
                ident: "Hectare".to_owned(),
                symbol: "ha".to_owned(),
                si_prefix: None,
                scale: Some(Amount::from_sci(1, 4)),
                doc: Some("100·a".to_owned()),
            },
        );
        entries.push(
            UnitEntry {
                is_ref: false,
                ident: "Square_Kilometer".to_owned(),
                symbol: "km²".to_owned(),
                si_prefix: Some(SIPrefix::MEGA),
                scale: Some(Amount::from_sci(1, 6)),
                doc: Some("km²".to_owned()),
            },
        );
        entries.push(
            UnitEntry {
                is_ref: false,
                ident: "Square_Mile".to_owned(),
                symbol: "mi²".to_owned(),
                si_prefix: None,
                scale: Some(Amount::from_sci(2589988110336, -6)),
                doc: Some("mi²".to_owned()),
            },
        );
        let s = QtySpec { ident: "Area".to_owned(), derived: Some(
            Derivation { lhs: "Length".to_owned(), op: DerivOp::Mul, rhs: "Length".to_owned() },
        ), entries };
        proof {
            let es = s.entries@;
            assert forall|j: int| 1 <= j < es.len() implies !(#[trigger] es[j]).is_ref by {}
            lemma_single_leading_ref(es);
            assert forall|j: int|
                0 <= j < es.len() && !(#[trigger] es[j]).is_ref implies (#[trigger] es[j]).scale
                is Some && scale_acceptable(es[j].scale->Some_0) by {}
            reveal_strlit("Length");
            reveal_strlit("Length");
            lemma_pow10_values();
            lemma_canon_1_em6();
            lemma_canon_1_em4();
            lemma_canon_64516_em8();
            lemma_canon_1_em2();
            lemma_canon_9290304_em8();
            lemma_canon_83612736_em8();
            lemma_canon_1_e2();
            lemma_canon_40468564224_em7();
            lemma_canon_1_e4();
            lemma_canon_1_e6();
            lemma_canon_2589988110336_em6();
            assert(compile_err(s) is None);
        }
        s
    }

    /// The compiled definition of `Area`: the validated, sorted unit
    /// table the engine works on, holding exactly the declared units.
    #[verifier::rlimit(100)]
    pub fn definition() -> (d: QtyDef)
        ensures
            d.wf(),
            d.has_ref(),
            d.sym_at(d.ref_idx()) == "m²"@,
            d.ident@ == "Area"@,
            der_matches(d.derived, "Length"@, DerivOp::Mul, "Length"@),
            d.units@.len() == 12,
            has_scaled_unit(d, "Square_Meter"@, "m²"@, Some(SIPrefix::NONE), Rat { n: 1, d: 1 }),
            has_scaled_unit(d, "Square_Millimeter"@, "mm²"@, Some(SIPrefix::MICRO), Rat { n: 1, d: 1000000 }),
            has_scaled_unit(d, "Square_Centimeter"@, "cm²"@, None, Rat { n: 1, d: 10000 }),
            has_scaled_unit(d, "Square_Inch"@, "in²"@, None, Rat { n: 16129, d: 25000000 }),
            has_scaled_unit(d, "Square_Decimeter"@, "dm²"@, Some(SIPrefix::CENTI), Rat { n: 1, d: 100 }),
            has_scaled_unit(d, "Square_Foot"@, "ft²"@, None, Rat { n: 145161, d: 1562500 }),
            has_scaled_unit(d, "Square_Yard"@, "yd²"@, None, Rat { n: 1306449, d: 1562500 }),
            has_scaled_unit(d, "Are"@, "a"@, Some(SIPrefix::HECTO), Rat { n: 100, d: 1 }),
            has_scaled_unit(d, "Acre"@, "ac"@, None, Rat { n: 316160658, d: 78125 }),
            has_scaled_unit(d, "Hectare"@, "ha"@, None, Rat { n: 10000, d: 1 }),
            has_scaled_unit(d, "Square_Kilometer"@, "km²"@, Some(SIPrefix::MEGA), Rat { n: 1000000, d: 1 }),
            has_scaled_unit(d, "Square_Mile"@, "mi²"@, None, Rat { n: 40468564224, d: 15625 }),
    {
        let s = Area::declaration();
        match compile(&s) {
            Result::Ok(d) => {
                proof {
                    lemma_entry_unit(s, d, 0);
                    lemma_entry_unit(s, d, 1);
                    lemma_entry_unit(s, d, 2);
                    lemma_entry_unit(s, d, 3);
                    lemma_entry_unit(s, d, 4);
                    lemma_entry_unit(s, d, 5);
                    lemma_entry_unit(s, d, 6);
                    lemma_entry_unit(s, d, 7);
                    lemma_entry_unit(s, d, 8);
                    lemma_entry_unit(s, d, 9);
                    lemma_entry_unit(s, d, 10);
                    lemma_entry_unit(s, d, 11);
                }
                d
            },
            Result::Err(_) => {
                // Unreachable: the declaration is valid.
                proof {
                    assert(false);
                }
                QtyDef { ident: String::new(), derived: None, ref_unit: None, units: Vec::new() }
            },
        }
    }
}

} // verus!
