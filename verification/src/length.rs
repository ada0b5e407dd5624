//! Definition of basic quantity `Length`.

use crate::amount::{Amount, Rat};
use crate::define::{
    compile, compile_err, entry_is, has_scaled_unit, lemma_entry_unit,
    lemma_single_leading_ref, n_refs, ref_entry_idx, scale_acceptable, QtySpec, UnitEntry,
};
use crate::qty::QtyDef;
use crate::scales::{
    lemma_pow10_values, lemma_canon_1609344_em3, lemma_canon_1_e3, lemma_canon_1_em1, lemma_canon_1_em2, lemma_canon_1_em3, lemma_canon_1_em6, lemma_canon_1_em9, lemma_canon_201168_em3, lemma_canon_201168_em4, lemma_canon_254_em4, lemma_canon_3048_em4, lemma_canon_9144_em4,
};
use crate::si_prefixes::SIPrefix;
use vstd::prelude::*;

verus! {

/// The quantity of distance between two points in space.
pub struct Length {}

impl Length {
    /// The declarative specification of `Length`: its unit entries in
    /// declaration order, each pinned field for field, at most one of
    /// them marked as the reference unit.
    #[verifier::rlimit(100)]
    pub fn declaration() -> (s: QtySpec)
        ensures
            compile_err(s) is None,
            n_refs(s) == 1,
            ref_entry_idx(s) == 0,
            s.entries@[0].symbol@ == "m"@,
            s.ident@ == "Length"@,
            s.derived is None,
            s.entries@.len() == 13,
            entry_is(s.entries@[0], true, "Meter"@, "m"@, Some(SIPrefix::NONE), None),
            entry_is(s.entries@[1], false, "Nanometer"@, "nm"@, Some(SIPrefix::NANO), Some(Rat { n: 1, d: 1000000000 })),
            entry_is(s.entries@[2], false, "Micrometer"@, "µm"@, Some(SIPrefix::MICRO), Some(Rat { n: 1, d: 1000000 })),
            entry_is(s.entries@[3], false, "Millimeter"@, "mm"@, Some(SIPrefix::MILLI), Some(Rat { n: 1, d: 1000 })),
            entry_is(s.entries@[4], false, "Centimeter"@, "cm"@, Some(SIPrefix::CENTI), Some(Rat { n: 1, d: 100 })),
            entry_is(s.entries@[5], false, "Inch"@, "in"@, None, Some(Rat { n: 127, d: 5000 })),
            entry_is(s.entries@[6], false, "Decimeter"@, "dm"@, Some(SIPrefix::DECI), Some(Rat { n: 1, d: 10 })),
            entry_is(s.entries@[7], false, "Foot"@, "ft"@, None, Some(Rat { n: 381, d: 1250 })),
            entry_is(s.entries@[8], false, "Yard"@, "yd"@, None, Some(Rat { n: 1143, d: 1250 })),
            entry_is(s.entries@[9], false, "Chain"@, "ch"@, None, Some(Rat { n: 12573, d: 625 })),
            entry_is(s.entries@[10], false, "Furlong"@, "fur"@, None, Some(Rat { n: 25146, d: 125 })),
            entry_is(s.entries@[11], false, "Kilometer"@, "km"@, Some(SIPrefix::KILO), Some(Rat { n: 1000, d: 1 })),
            entry_is(s.entries@[12], false, "Mile"@, "mi"@, None, Some(Rat { n: 201168, d: 125 })),
    {
        let mut entries: Vec<UnitEntry> = Vec::new();
        entries.push(
            UnitEntry {
                is_ref: true,
                ident: "Meter".to_owned(),
                symbol: "m".to_owned(),
                si_prefix: Some(SIPrefix::NONE),
                scale: None,
                doc: Some("Reference unit of quantity `Length`".to_owned()),
            },
        );
        entries.push(
            UnitEntry {
                is_ref: false,
                ident: "Nanometer".to_owned(),
                symbol: "nm".to_owned(),
                si_prefix: Some(SIPrefix::NANO),
                scale: Some(Amount::from_sci(1, -9)),
                doc: Some("0.000000001·m".to_owned()),
            },
        );
        entries.push(
            UnitEntry {
                is_ref: false,
                ident: "Micrometer".to_owned(),
                symbol: "µm".to_owned(),
                si_prefix: Some(SIPrefix::MICRO),
                scale: Some(Amount::from_sci(1, -6)),
                doc: Some("0.000001·m".to_owned()),
            },
        );
        entries.push(
            UnitEntry {
                is_ref: false,
                ident: "Millimeter".to_owned(),
                symbol: "mm".to_owned(),
                si_prefix: Some(SIPrefix::MILLI),
                scale: Some(Amount::from_sci(1, -3)),
                doc: Some("0.001·m".to_owned()),
            },
        );
        entries.push(
            UnitEntry {
                is_ref: false,
                ident: "Centimeter".to_owned(),
                symbol: "cm".to_owned(),
                si_prefix: Some(SIPrefix::CENTI),
                scale: Some(Amount::from_sci(1, -2)),
                doc: Some("0.01·m".to_owned()),
            },
        );
        entries.push(
            UnitEntry {
                is_ref: false,
                ident: "Inch".to_owned(),
                symbol: "in".to_owned(),
                si_prefix: None,
                scale: Some(Amount::from_sci(254, -4)),
                doc: Some("2.54·cm".to_owned()),
            },
        );
        entries.push(
            UnitEntry {
                is_ref: false,
                ident: "Decimeter".to_owned(),
                symbol: "dm".to_owned(),
                si_prefix: Some(SIPrefix::DECI),
                scale: Some(Amount::from_sci(1, -1)),
                doc: Some("0.1·m".to_owned()),
            },
        );
        entries.push(
            UnitEntry {
                is_ref: false,
                ident: "Foot".to_owned(),
                symbol: "ft".to_owned(),
                si_prefix: None,
                scale: Some(Amount::from_sci(3048, -4)),
                doc: Some("12·in".to_owned()),
            },
        );
        entries.push(
            UnitEntry {
                is_ref: false,
                ident: "Yard".to_owned(),
                symbol: "yd".to_owned(),
                si_prefix: None,
                scale: Some(Amount::from_sci(9144, -4)),
                doc: Some("3·ft".to_owned()),
            },
        );
        entries.push(
            UnitEntry {
                is_ref: false,
                ident: "Chain".to_owned(),
                symbol: "ch".to_owned(),
                si_prefix: None,
                scale: Some(Amount::from_sci(201168, -4)),
                doc: Some("22·yd".to_owned()),
            },
        );
        entries.push(
            UnitEntry {
                is_ref: false,
                ident: "Furlong".to_owned(),
                symbol: "fur".to_owned(),
                si_prefix: None,
                scale: Some(Amount::from_sci(201168, -3)),
                doc: Some("10·ch".to_owned()),
            },
        );
        entries.push(
            UnitEntry {
                is_ref: false,
                ident: "Kilometer".to_owned(),
                symbol: "km".to_owned(),
                si_prefix: Some(SIPrefix::KILO),
                scale: Some(Amount::from_sci(1, 3)),
                doc: Some("1000·m".to_owned()),
            },
        );
        entries.push(
            UnitEntry {
                is_ref: false,
                ident: "Mile".to_owned(),
                symbol: "mi".to_owned(),
                si_prefix: None,
                scale: Some(Amount::from_sci(1609344, -3)),
                doc: Some("8·fur".to_owned()),
            },
        );
        let s = QtySpec { ident: "Length".to_owned(), derived: None, entries };
        proof {
            let es = s.entries@;
            assert forall|j: int| 1 <= j < es.len() implies !(#[trigger] es[j]).is_ref by {}
            lemma_single_leading_ref(es);
            assert forall|j: int|
                0 <= j < es.len() && !(#[trigger] es[j]).is_ref implies (#[trigger] es[j]).scale
                is Some && scale_acceptable(es[j].scale->Some_0) by {}
            lemma_pow10_values();
            lemma_canon_1_em9();
            lemma_canon_1_em6();
            lemma_canon_1_em3();
            lemma_canon_1_em2();
            lemma_canon_254_em4();
            lemma_canon_1_em1();
            lemma_canon_3048_em4();
            lemma_canon_9144_em4();
            lemma_canon_201168_em4();
            lemma_canon_201168_em3();
            lemma_canon_1_e3();
            lemma_canon_1609344_em3();
            assert(compile_err(s) is None);
        }
        s
    }

    /// The compiled definition of `Length`: the validated, sorted unit
    /// table the engine works on, holding exactly the declared units.
    #[verifier::rlimit(100)]
    pub fn definition() -> (d: QtyDef)
        ensures
            d.wf(),
            d.has_ref(),
            d.sym_at(d.ref_idx()) == "m"@,
            d.ident@ == "Length"@,
            d.derived is None,
            d.units@.len() == 13,
            has_scaled_unit(d, "Meter"@, "m"@, Some(SIPrefix::NONE), Rat { n: 1, d: 1 }),
            has_scaled_unit(d, "Nanometer"@, "nm"@, Some(SIPrefix::NANO), Rat { n: 1, d: 1000000000 }),
            has_scaled_unit(d, "Micrometer"@, "µm"@, Some(SIPrefix::MICRO), Rat { n: 1, d: 1000000 }),
            has_scaled_unit(d, "Millimeter"@, "mm"@, Some(SIPrefix::MILLI), Rat { n: 1, d: 1000 }),
            has_scaled_unit(d, "Centimeter"@, "cm"@, Some(SIPrefix::CENTI), Rat { n: 1, d: 100 }),
            has_scaled_unit(d, "Inch"@, "in"@, None, Rat { n: 127, d: 5000 }),
            has_scaled_unit(d, "Decimeter"@, "dm"@, Some(SIPrefix::DECI), Rat { n: 1, d: 10 }),
            has_scaled_unit(d, "Foot"@, "ft"@, None, Rat { n: 381, d: 1250 }),
            has_scaled_unit(d, "Yard"@, "yd"@, None, Rat { n: 1143, d: 1250 }),
            has_scaled_unit(d, "Chain"@, "ch"@, None, Rat { n: 12573, d: 625 }),
            has_scaled_unit(d, "Furlong"@, "fur"@, None, Rat { n: 25146, d: 125 }),
            has_scaled_unit(d, "Kilometer"@, "km"@, Some(SIPrefix::KILO), Rat { n: 1000, d: 1 }),
            has_scaled_unit(d, "Mile"@, "mi"@, None, Rat { n: 201168, d: 125 }),
    {
        let s = Length::declaration();
        match compile(&s) {
            Result::Ok(d) => {
                proof {
                    lemma_entry_unit(s, d, 0);
                    lemma_entry_unit(s, d, 1);
                    lemma_entry_unit(s, d, 2);
                    lemma_entry_unit(s, d, 3);
                    lemma_entry_unit(s, d, 4);
                    lemma_entry_unit(s, d, 5);
                    lemma_entry_unit(s, d, 6);
                    lemma_entry_unit(s, d, 7);
                    lemma_entry_unit(s, d, 8);
                    lemma_entry_unit(s, d, 9);
                    lemma_entry_unit(s, d, 10);
                    lemma_entry_unit(s, d, 11);
                    lemma_entry_unit(s, d, 12);
                }
                d
            },
            Result::Err(_) => {
                // Unreachable: the declaration is valid.
                proof {
                    assert(false);
                }
                QtyDef { ident: String::new(), derived: None, ref_unit: None, units: Vec::new() }
            },
        }
    }
}

} // verus!
