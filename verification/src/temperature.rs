//! Definition of basic quantity `Temperature`.

use crate::amount::{Amount, Rat};
use crate::converter::{ConversionTable, Mapping};
use crate::scales::{
    lemma_pow10_values, lemma_canon_18_em1, lemma_canon_1_e0, lemma_canon_255372222222222222222_em18, lemma_canon_27315_em2, lemma_canon_32_e0, lemma_canon_555555555555555556_em18, lemma_canon_neg17777777777777777778_em18, lemma_canon_neg27315_em2, lemma_canon_neg45967_em2,
};
use crate::define::{
    compile, compile_err, entry_is, has_plain_unit, lemma_entry_unit, lemma_no_refs, n_refs,
    QtySpec, UnitEntry,
};
use crate::qty::QtyDef;
use vstd::prelude::*;

verus! {

/// Measure of thermal energy.
pub struct Temperature {}

impl Temperature {
    /// The declarative specification of `Temperature`: its unit entries in
    /// declaration order, each pinned field for field, at most one of
    /// them marked as the reference unit.
    #[verifier::rlimit(100)]
    pub fn declaration() -> (s: QtySpec)
        ensures
            compile_err(s) is None,
            n_refs(s) == 0,
            s.ident@ == "Temperature"@,
            s.derived is None,
            s.entries@.len() == 3,
            entry_is(s.entries@[0], false, "Kelvin"@, "K"@, None, None),
            entry_is(s.entries@[1], false, "Degree_Celsius"@, "°C"@, None, None),
            entry_is(s.entries@[2], false, "Degree_Fahrenheit"@, "°F"@, None, None),
    {
        let mut entries: Vec<UnitEntry> = Vec::new();
        entries.push(
            UnitEntry {
                is_ref: false,
                ident: "Kelvin".to_owned(),
                symbol: "K".to_owned(),
                si_prefix: None,
                scale: None,
                doc: Some("K".to_owned()),
            },
        );
        entries.push(
            UnitEntry {
                is_ref: false,
                ident: "Degree_Celsius".to_owned(),
                symbol: "°C".to_owned(),
                si_prefix: None,
                scale: None,
                doc: Some("°C".to_owned()),
            },
        );
        entries.push(
            UnitEntry {
                is_ref: false,
                ident: "Degree_Fahrenheit".to_owned(),
                symbol: "°F".to_owned(),
                si_prefix: None,
                scale: None,
                doc: Some("°F".to_owned()),
            },
        );
        let s = QtySpec { ident: "Temperature".to_owned(), derived: None, entries };
        proof {
            let es = s.entries@;
            assert forall|j: int| 0 <= j < es.len() implies !(#[trigger] es[j]).is_ref by {}
            lemma_no_refs(es);
            assert forall|j: int|
                0 <= j < es.len() implies (#[trigger] es[j]).scale is None && es[j].si_prefix
                is None by {}
            assert(compile_err(s) is None);
        }
        s
    }

    /// The compiled definition of `Temperature`: the validated, sorted unit
    /// table the engine works on, holding exactly the declared units.
    #[verifier::rlimit(100)]
    pub fn definition() -> (d: QtyDef)
        ensures
            d.wf(),
            !d.has_ref(),
            d.ident@ == "Temperature"@,
            d.derived is None,
            d.units@.len() == 3,
            has_plain_unit(d, "Kelvin"@, "K"@),
            has_plain_unit(d, "Degree_Celsius"@, "°C"@),
            has_plain_unit(d, "Degree_Fahrenheit"@, "°F"@),
    {
        let s = Temperature::declaration();
        match compile(&s) {
            Result::Ok(d) => {
                proof {
                    lemma_entry_unit(s, d, 0);
                    lemma_entry_unit(s, d, 1);
                    lemma_entry_unit(s, d, 2);
                }
                d
            },
            Result::Err(_) => {
                // Unreachable: the declaration is valid.
                proof {
                    assert(false);
                }
                QtyDef { ident: String::new(), derived: None, ref_unit: None, units: Vec::new() }
            },
        }
    }
}

/// Temperature conversion table: the affine formulas between Kelvin,
/// degree Celsius and degree Fahrenheit, for every ordered pair.  Unit
/// indices follow the compiled `Temperature` definition, which sorts by
/// display name: degree Celsius, degree Fahrenheit, Kelvin.
pub fn temperature_converter() -> (t: ConversionTable)
    ensures
        t.wf(),
        t.mappings@.len() == 6,
        t.mappings@[0].from_unit == 2 && t.mappings@[0].to_unit == 0,
        t.mappings@[0].factor@ == (Rat { n: 1, d: 1 }),
        t.mappings@[0].offset@ == (Rat { n: -5463, d: 20 }),
        t.mappings@[1].from_unit == 0 && t.mappings@[1].to_unit == 2,
        t.mappings@[1].factor@ == (Rat { n: 1, d: 1 }),
        t.mappings@[1].offset@ == (Rat { n: 5463, d: 20 }),
        t.mappings@[2].from_unit == 2 && t.mappings@[2].to_unit == 1,
        t.mappings@[2].factor@ == (Rat { n: 9, d: 5 }),
        t.mappings@[2].offset@ == (Rat { n: -45967, d: 100 }),
        t.mappings@[3].from_unit == 1 && t.mappings@[3].to_unit == 2,
        t.mappings@[3].factor@ == (Rat { n: 138888888888888889, d: 250000000000000000 }),
        t.mappings@[3].offset@ == (Rat { n: 127686111111111111111, d: 500000000000000000 }),
        t.mappings@[4].from_unit == 0 && t.mappings@[4].to_unit == 1,
        t.mappings@[4].factor@ == (Rat { n: 9, d: 5 }),
        t.mappings@[4].offset@ == (Rat { n: 32, d: 1 }),
        t.mappings@[5].from_unit == 1 && t.mappings@[5].to_unit == 0,
        t.mappings@[5].factor@ == (Rat { n: 138888888888888889, d: 250000000000000000 }),
        t.mappings@[5].offset@ == (Rat { n: -8888888888888888889, d: 500000000000000000 }),
{
    proof {
        lemma_pow10_values();
        lemma_canon_1_e0();
        lemma_canon_neg27315_em2();
        lemma_canon_27315_em2();
        lemma_canon_18_em1();
        lemma_canon_neg45967_em2();
        lemma_canon_555555555555555556_em18();
        lemma_canon_255372222222222222222_em18();
        lemma_canon_32_e0();
        lemma_canon_neg17777777777777777778_em18();
    }
    let mut mappings: Vec<Mapping> = Vec::new();
    mappings.push(
        Mapping {
            from_unit: 2,
            to_unit: 0,
            factor: Amount::from_sci(1, 0),
            offset: Amount::from_sci(-27315, -2),
        },
    );
    mappings.push(
        Mapping {
            from_unit: 0,
            to_unit: 2,
            factor: Amount::from_sci(1, 0),
            offset: Amount::from_sci(27315, -2),
        },
    );
    mappings.push(
        Mapping {
            from_unit: 2,
            to_unit: 1,
            factor: Amount::from_sci(18, -1),
            offset: Amount::from_sci(-45967, -2),
        },
    );
    mappings.push(
        Mapping {
            from_unit: 1,
            to_unit: 2,
            factor: Amount::from_sci(555555555555555556, -18),
            offset: Amount::from_dec(255372222222222222222, 18),
        },
    );
    mappings.push(
        Mapping {
            from_unit: 0,
            to_unit: 1,
            factor: Amount::from_sci(18, -1),
            offset: Amount::from_sci(32, 0),
        },
    );
    mappings.push(
        Mapping {
            from_unit: 1,
            to_unit: 0,
            factor: Amount::from_sci(555555555555555556, -18),
            offset: Amount::from_dec(-17777777777777777778, 18),
        },
    );
    ConversionTable { mappings }
}

} // verus!
