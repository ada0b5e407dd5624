//! Definition of derived quantity `Volume`.

use crate::algebra::der_matches;
use crate::amount::{Amount, Rat};
use crate::define::{
    compile, compile_err, entry_is, has_scaled_unit, lemma_entry_unit,
    lemma_single_leading_ref, n_refs, ref_entry_idx, scale_acceptable, QtySpec, UnitEntry,
};
use crate::qty::QtyDef;
use crate::qty::{DerivOp, Derivation};
use crate::scales::{
    lemma_pow10_values, lemma_canon_16387064_em12, lemma_canon_1_e9, lemma_canon_1_em3, lemma_canon_1_em4, lemma_canon_1_em5, lemma_canon_1_em6, lemma_canon_1_em9, lemma_canon_28316846592_em12, lemma_canon_764554857984_em12,
};
use crate::si_prefixes::SIPrefix;
use vstd::prelude::*;

verus! {

/// The quantity expressing the extent of a three-dimensional region.
pub struct Volume {}

impl Volume {
    /// The declarative specification of `Volume`: its unit entries in
    /// declaration order, each pinned field for field, at most one of
    /// them marked as the reference unit.
    #[verifier::rlimit(100)]
    pub fn declaration() -> (s: QtySpec)
        ensures
            compile_err(s) is None,
            n_refs(s) == 1,
            ref_entry_idx(s) == 0,
            s.entries@[0].symbol@ == "m³"@,
            s.ident@ == "Volume"@,
            der_matches(s.derived, "Length"@, DerivOp::Mul, "Area"@),
            s.entries@.len() == 12,
            entry_is(s.entries@[0], true, "Cubic_Meter"@, "m³"@, Some(SIPrefix::NONE), None),
            entry_is(s.entries@[1], false, "Cubic_Millimeter"@, "mm³"@, Some(SIPrefix::NANO), Some(Rat { n: 1, d: 1000000000 })),
            entry_is(s.entries@[2], false, "Cubic_Centimeter"@, "cm³"@, Some(SIPrefix::MICRO), Some(Rat { n: 1, d: 1000000 })),
            entry_is(s.entries@[3], false, "Milliliter"@, "ml"@, Some(SIPrefix::MICRO), Some(Rat { n: 1, d: 1000000 })),
            entry_is(s.entries@[4], false, "Centiliter"@, "cl"@, None, Some(Rat { n: 1, d: 100000 })),
            entry_is(s.entries@[5], false, "Cubic_Inch"@, "in³"@, None, Some(Rat { n: 2048383, d: 125000000000 })),
            entry_is(s.entries@[6], false, "Deciliter"@, "dl"@, None, Some(Rat { n: 1, d: 10000 })),
            entry_is(s.entries@[7], false, "Cubic_Decimeter"@, "dm³"@, Some(SIPrefix::MILLI), Some(Rat { n: 1, d: 1000 })),
            entry_is(s.entries@[8], false, "Liter"@, "l"@, Some(SIPrefix::MILLI), Some(Rat { n: 1, d: 1000 })),
            entry_is(s.entries@[9], false, "Cubic_Foot"@, "ft³"@, None, Some(Rat { n: 55306341, d: 1953125000 })),
            entry_is(s.entries@[10], false, "Cubic_Yard"@, "yd³"@, None, Some(Rat { n: 1493271207, d: 1953125000 })),
            entry_is(s.entries@[11], false, "Cubic_Kilometer"@, "km³"@, Some(SIPrefix::GIGA), Some(Rat { n: 1000000000, d: 1 })),
    {
        let mut entries: Vec<UnitEntry> = Vec::new();
        entries.push(
            UnitEntry {
                is_ref: true,
                ident: "Cubic_Meter".to_owned(),
                symbol: "m³".to_owned(),
                si_prefix: Some(SIPrefix::NONE),
                scale: None,
                doc: Some("Reference unit of quantity `Volume`".to_owned()),
            },
        );
        entries.push(
            UnitEntry {
                is_ref: false,
                ident: "Cubic_Millimeter".to_owned(),
                symbol: "mm³".to_owned(),
                si_prefix: Some(SIPrefix::NANO),
                scale: Some(Amount::from_sci(1, -9)),
                doc: Some("mm³".to_owned()),
            },
        );
        entries.push(
            UnitEntry {
                is_ref: false,
                ident: "Cubic_Centimeter".to_owned(),
                symbol: "cm³".to_owned(),
                si_prefix: Some(SIPrefix::MICRO),
                scale: Some(Amount::from_sci(1, -6)),
                doc: Some("cm³".to_owned()),
            },
        );
        entries.push(
            UnitEntry {
                is_ref: false,
                ident: "Milliliter".to_owned(),
                symbol: "ml".to_owned(),
                si_prefix: Some(SIPrefix::MICRO),
                scale: Some(Amount::from_sci(1, -6)),
                doc: Some("0.001·l".to_owned()),
            },
        );
        entries.push(
            UnitEntry {
                is_ref: false,
                ident: "Centiliter".to_owned(),
                symbol: "cl".to_owned(),
                si_prefix: None,
                scale: Some(Amount::from_sci(1, -5)),
                doc: Some("0.01·l".to_owned()),
            },
        );
        entries.push(
            UnitEntry {
                is_ref: false,
                ident: "Cubic_Inch".to_owned(),
                symbol: "in³".to_owned(),
                si_prefix: None,
                scale: Some(Amount::from_sci(16387064, -12)),
                doc: Some("in³".to_owned()),
            },
        );
        entries.push(
            UnitEntry {
                is_ref: false,
                ident: "Deciliter".to_owned(),
                symbol: "dl".to_owned(),
                si_prefix: None,
                scale: Some(Amount::from_sci(1, -4)),
                doc: Some("0.1·l".to_owned()),
            },
        );
        entries.push(
            UnitEntry {
                is_ref: false,
                ident: "Cubic_Decimeter".to_owned(),
                symbol: "dm³".to_owned(),
                si_prefix: Some(SIPrefix::MILLI),
                scale: Some(Amount::from_sci(1, -3)),
                doc: Some("dm³".to_owned()),
            },
        );
        entries.push(
            UnitEntry {
                is_ref: false,
                ident: "Liter".to_owned(),
                symbol: "l".to_owned(),
                si_prefix: Some(SIPrefix::MILLI),
                scale: Some(Amount::from_sci(1, -3)),
                doc: Some("0.001·m³".to_owned()),
            },
        );
        entries.push(
            UnitEntry {
                is_ref: false,
                ident: "Cubic_Foot".to_owned(),
                symbol: "ft³".to_owned(),
                si_prefix: None,
                scale: Some(Amount::from_sci(28316846592, -12)),
                doc: Some("ft³".to_owned()),
            },
        );
        entries.push(
            UnitEntry {
                is_ref: false,
                ident: "Cubic_Yard".to_owned(),
                symbol: "yd³".to_owned(),
                si_prefix: None,
                scale: Some(Amount::from_sci(764554857984, -12)),
                doc: Some("yd³".to_owned()),
            },
        );
        entries.push(
            UnitEntry {
                is_ref: false,
                ident: "Cubic_Kilometer".to_owned(),
                symbol: "km³".to_owned(),
                si_prefix: Some(SIPrefix::GIGA),
                scale: Some(Amount::from_sci(1, 9)),
                doc: Some("km³".to_owned()),
            },
        );
        let s = QtySpec { ident: "Volume".to_owned(), derived: Some(
            Derivation { lhs: "Length".to_owned(), op: DerivOp::Mul, rhs: "Area".to_owned() },
        ), entries };
        proof {
            let es = s.entries@;
            assert forall|j: int| 1 <= j < es.len() implies !(#[trigger] es[j]).is_ref by {}
            lemma_single_leading_ref(es);
            assert forall|j: int|
                0 <= j < es.len() && !(#[trigger] es[j]).is_ref implies (#[trigger] es[j]).scale
                is Some && scale_acceptable(es[j].scale->Some_0) by {}
            reveal_strlit("Length");
            reveal_strlit("Area");
            lemma_pow10_values();
            lemma_canon_1_em9();
            lemma_canon_1_em6();
            lemma_canon_1_em5();
            lemma_canon_16387064_em12();
            lemma_canon_1_em4();
            lemma_canon_1_em3();
            lemma_canon_28316846592_em12();
            lemma_canon_764554857984_em12();
            lemma_canon_1_e9();
            assert(compile_err(s) is None);
        }
        s
    }

    /// The compiled definition of `Volume`: the validated, sorted unit
    /// table the engine works on, holding exactly the declared units.
    #[verifier::rlimit(100)]
    pub fn definition() -> (d: QtyDef)
        ensures
            d.wf(),
            d.has_ref(),
            d.sym_at(d.ref_idx()) == "m³"@,
            d.ident@ == "Volume"@,
            der_matches(d.derived, "Length"@, DerivOp::Mul, "Area"@),
            d.units@.len() == 12,
            has_scaled_unit(d, "Cubic_Meter"@, "m³"@, Some(SIPrefix::NONE), Rat { n: 1, d: 1 }),
            has_scaled_unit(d, "Cubic_Millimeter"@, "mm³"@, Some(SIPrefix::NANO), Rat { n: 1, d: 1000000000 }),
            has_scaled_unit(d, "Cubic_Centimeter"@, "cm³"@, Some(SIPrefix::MICRO), Rat { n: 1, d: 1000000 }),
            has_scaled_unit(d, "Milliliter"@, "ml"@, Some(SIPrefix::MICRO), Rat { n: 1, d: 1000000 }),
            has_scaled_unit(d, "Centiliter"@, "cl"@, None, Rat { n: 1, d: 100000 }),
            has_scaled_unit(d, "Cubic_Inch"@, "in³"@, None, Rat { n: 2048383, d: 125000000000 }),
            has_scaled_unit(d, "Deciliter"@, "dl"@, None, Rat { n: 1, d: 10000 }),
            has_scaled_unit(d, "Cubic_Decimeter"@, "dm³"@, Some(SIPrefix::MILLI), Rat { n: 1, d: 1000 }),
            has_scaled_unit(d, "Liter"@, "l"@, Some(SIPrefix::MILLI), Rat { n: 1, d: 1000 }),
            has_scaled_unit(d, "Cubic_Foot"@, "ft³"@, None, Rat { n: 55306341, d: 1953125000 }),
            has_scaled_unit(d, "Cubic_Yard"@, "yd³"@, None, Rat { n: 1493271207, d: 1953125000 }),
            has_scaled_unit(d, "Cubic_Kilometer"@, "km³"@, Some(SIPrefix::GIGA), Rat { n: 1000000000, d: 1 }),
    {
        let s = Volume::declaration();
        match compile(&s) {
            Result::Ok(d) => {
                proof {
                    lemma_entry_unit(s, d, 0);
                    lemma_entry_unit(s, d, 1);
                    lemma_entry_unit(s, d, 2);
                    lemma_entry_unit(s, d, 3);
                    lemma_entry_unit(s, d, 4);
                    lemma_entry_unit(s, d, 5);
                    lemma_entry_unit(s, d, 6);
                    lemma_entry_unit(s, d, 7);
                    lemma_entry_unit(s, d, 8);
                    lemma_entry_unit(s, d, 9);
                    lemma_entry_unit(s, d, 10);
                    lemma_entry_unit(s, d, 11);
                }
                d
            },
            Result::Err(_) => {
                // Unreachable: the declaration is valid.
                proof {
                    assert(false);
                }
                QtyDef { ident: String::new(), derived: None, ref_unit: None, units: Vec::new() }
            },
        }
    }
}

} // verus!
