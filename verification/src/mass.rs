//! Definition of basic quantity `Mass`.

use crate::amount::{Amount, Rat};
use crate::define::{
    compile, compile_err, entry_is, has_scaled_unit, lemma_entry_unit,
    lemma_single_leading_ref, n_refs, ref_entry_idx, scale_acceptable, QtySpec, UnitEntry,
};
use crate::qty::QtyDef;
use crate::scales::{
    lemma_pow10_values, lemma_canon_1898_e27, lemma_canon_1988435_e24, lemma_canon_1_e3, lemma_canon_1_em3, lemma_canon_1_em6, lemma_canon_28349523125_em12, lemma_canon_2_em4, lemma_canon_45359237_em8, lemma_canon_597_e22, lemma_canon_635029318_em8, lemma_canon_7342_e19,
};
use crate::si_prefixes::SIPrefix;
use vstd::prelude::*;

verus! {

/// The quantity of matter in a physical body.
pub struct Mass {}

impl Mass {
    /// The declarative specification of `Mass`: its unit entries in
    /// declaration order, each pinned field for field, at most one of
    /// them marked as the reference unit.
    #[verifier::rlimit(100)]
    pub fn declaration() -> (s: QtySpec)
        ensures
            compile_err(s) is None,
            n_refs(s) == 1,
            ref_entry_idx(s) == 0,
            s.entries@[0].symbol@ == "kg"@,
            s.ident@ == "Mass"@,
            s.derived is None,
            s.entries@.len() == 12,
            entry_is(s.entries@[0], true, "Kilogram"@, "kg"@, Some(SIPrefix::KILO), None),
            entry_is(s.entries@[1], false, "Milligram"@, "mg"@, Some(SIPrefix::MILLI), Some(Rat { n: 1, d: 1000000 })),
            entry_is(s.entries@[2], false, "Carat"@, "ct"@, None, Some(Rat { n: 1, d: 5000 })),
            entry_is(s.entries@[3], false, "Gram"@, "g"@, Some(SIPrefix::NONE), Some(Rat { n: 1, d: 1000 })),
            entry_is(s.entries@[4], false, "Ounce"@, "oz"@, None, Some(Rat { n: 45359237, d: 1600000000 })),
            entry_is(s.entries@[5], false, "Pound"@, "lb"@, None, Some(Rat { n: 45359237, d: 100000000 })),
            entry_is(s.entries@[6], false, "Stone"@, "st"@, None, Some(Rat { n: 317514659, d: 50000000 })),
            entry_is(s.entries@[7], false, "Tonne"@, "t"@, Some(SIPrefix::MEGA), Some(Rat { n: 1000, d: 1 })),
            entry_is(s.entries@[8], false, "Sol_Mass"@, "M☉"@, None, Some(Rat { n: 1988435000000000000000000000000, d: 1 })),
            entry_is(s.entries@[9], false, "Earth_Mass"@, "M🜨"@, None, Some(Rat { n: 5970000000000000000000000, d: 1 })),
            entry_is(s.entries@[10], false, "Luna_Mass"@, "M☾"@, None, Some(Rat { n: 73420000000000000000000, d: 1 })),
            entry_is(s.entries@[11], false, "Jupiter_Mass"@, "M♃"@, None, Some(Rat { n: 1898000000000000000000000000000, d: 1 })),
    {
        let mut entries: Vec<UnitEntry> = Vec::new();
        entries.push(
            UnitEntry {
                is_ref: true,
                ident: "Kilogram".to_owned(),
                symbol: "kg".to_owned(),
                si_prefix: Some(SIPrefix::KILO),
                scale: None,
                doc: Some("Reference unit of quantity `Mass`".to_owned()),
            },
        );
        entries.push(
            UnitEntry {
                is_ref: false,
                ident: "Milligram".to_owned(),
                symbol: "mg".to_owned(),
                si_prefix: Some(SIPrefix::MILLI),
                scale: Some(Amount::from_sci(1, -6)),
                doc: Some("0.001·g".to_owned()),
            },
        );
        entries.push(
            UnitEntry {
                is_ref: false,
                ident: "Carat".to_owned(),
                symbol: "ct".to_owned(),
                si_prefix: None,
                scale: Some(Amount::from_sci(2, -4)),
                doc: Some("0.2·g".to_owned()),
            },
        );
        entries.push(
            UnitEntry {
                is_ref: false,
                ident: "Gram".to_owned(),
                symbol: "g".to_owned(),
                si_prefix: Some(SIPrefix::NONE),
                scale: Some(Amount::from_sci(1, -3)),
                doc: Some("0.001·kg".to_owned()),
            },
        );
        entries.push(
            UnitEntry {
                is_ref: false,
                ident: "Ounce".to_owned(),
                symbol: "oz".to_owned(),
                si_prefix: None,
                scale: Some(Amount::from_sci(28349523125, -12)),
                doc: Some("0.0625·lb".to_owned()),
            },
        );
        entries.push(
            UnitEntry {
                is_ref: false,
                ident: "Pound".to_owned(),
                symbol: "lb".to_owned(),
                si_prefix: None,
                scale: Some(Amount::from_sci(45359237, -8)),
                doc: Some("0.45359237·kg".to_owned()),
            },
        );
        entries.push(
            UnitEntry {
                is_ref: false,
                ident: "Stone".to_owned(),
                symbol: "st".to_owned(),
                si_prefix: None,
                scale: Some(Amount::from_sci(635029318, -8)),
                doc: Some("14·lb".to_owned()),
            },
        );
        entries.push(
            UnitEntry {
                is_ref: false,
                ident: "Tonne".to_owned(),
                symbol: "t".to_owned(),
                si_prefix: Some(SIPrefix::MEGA),
                scale: Some(Amount::from_sci(1, 3)),
                doc: Some("1000·kg".to_owned()),
            },
        );
        entries.push(
            UnitEntry {
                is_ref: false,
                ident: "Sol_Mass".to_owned(),
                symbol: "M☉".to_owned(),
                si_prefix: None,
                scale: Some(Amount::from_sci(1988435, 24)),
                doc: Some("1.988435·10^30·kg".to_owned()),
            },
        );
        entries.push(
            UnitEntry {
                is_ref: false,
                ident: "Earth_Mass".to_owned(),
                symbol: "M🜨".to_owned(),
                si_prefix: None,
                scale: Some(Amount::from_sci(597, 22)),
                doc: Some("5.97·10^24·kg".to_owned()),
            },
        );
        entries.push(
            UnitEntry {
                is_ref: false,
                ident: "Luna_Mass".to_owned(),
                symbol: "M☾".to_owned(),
                si_prefix: None,
                scale: Some(Amount::from_sci(7342, 19)),
                doc: Some("7.342·10^22·kg".to_owned()),
            },
        );
        entries.push(
            UnitEntry {
                is_ref: false,
                ident: "Jupiter_Mass".to_owned(),
                symbol: "M♃".to_owned(),
                si_prefix: None,
                scale: Some(Amount::from_sci(1898, 27)),
                doc: Some("1898·10^24·kg".to_owned()),
            },
        );
        let s = QtySpec { ident: "Mass".to_owned(), derived: None, entries };
        proof {
            let es = s.entries@;
            assert forall|j: int| 1 <= j < es.len() implies !(#[trigger] es[j]).is_ref by {}
            lemma_single_leading_ref(es);
            assert forall|j: int|
                0 <= j < es.len() && !(#[trigger] es[j]).is_ref implies (#[trigger] es[j]).scale
                is Some && scale_acceptable(es[j].scale->Some_0) by {}
            lemma_pow10_values();
            lemma_canon_1_em6();
            lemma_canon_2_em4();
            lemma_canon_1_em3();
            lemma_canon_28349523125_em12();
            lemma_canon_45359237_em8();
            lemma_canon_635029318_em8();
            lemma_canon_1_e3();
            lemma_canon_1988435_e24();
            lemma_canon_597_e22();
            lemma_canon_7342_e19();
            lemma_canon_1898_e27();
            assert(compile_err(s) is None);
        }
        s
    }

    /// The compiled definition of `Mass`: the validated, sorted unit
    /// table the engine works on, holding exactly the declared units.
    #[verifier::rlimit(100)]
    pub fn definition() -> (d: QtyDef)
        ensures
            d.wf(),
            d.has_ref(),
            d.sym_at(d.ref_idx()) == "kg"@,
            d.ident@ == "Mass"@,
            d.derived is None,
            d.units@.len() == 12,
            has_scaled_unit(d, "Kilogram"@, "kg"@, Some(SIPrefix::KILO), Rat { n: 1, d: 1 }),
            has_scaled_unit(d, "Milligram"@, "mg"@, Some(SIPrefix::MILLI), Rat { n: 1, d: 1000000 }),
            has_scaled_unit(d, "Carat"@, "ct"@, None, Rat { n: 1, d: 5000 }),
            has_scaled_unit(d, "Gram"@, "g"@, Some(SIPrefix::NONE), Rat { n: 1, d: 1000 }),
            has_scaled_unit(d, "Ounce"@, "oz"@, None, Rat { n: 45359237, d: 1600000000 }),
            has_scaled_unit(d, "Pound"@, "lb"@, None, Rat { n: 45359237, d: 100000000 }),
            has_scaled_unit(d, "Stone"@, "st"@, None, Rat { n: 317514659, d: 50000000 }),
            has_scaled_unit(d, "Tonne"@, "t"@, Some(SIPrefix::MEGA), Rat { n: 1000, d: 1 }),
            has_scaled_unit(d, "Sol_Mass"@, "M☉"@, None, Rat { n: 1988435000000000000000000000000, d: 1 }),
            has_scaled_unit(d, "Earth_Mass"@, "M🜨"@, None, Rat { n: 5970000000000000000000000, d: 1 }),
            has_scaled_unit(d, "Luna_Mass"@, "M☾"@, None, Rat { n: 73420000000000000000000, d: 1 }),
            has_scaled_unit(d, "Jupiter_Mass"@, "M♃"@, None, Rat { n: 1898000000000000000000000000000, d: 1 }),
    {
        let s = Mass::declaration();
        match compile(&s) {
            Result::Ok(d) => {
                proof {
                    lemma_entry_unit(s, d, 0);
                    lemma_entry_unit(s, d, 1);
                    lemma_entry_unit(s, d, 2);
                    lemma_entry_unit(s, d, 3);
                    lemma_entry_unit(s, d, 4);
                    lemma_entry_unit(s, d, 5);
                    lemma_entry_unit(s, d, 6);
                    lemma_entry_unit(s, d, 7);
                    lemma_entry_unit(s, d, 8);
                    lemma_entry_unit(s, d, 9);
                    lemma_entry_unit(s, d, 10);
                    lemma_entry_unit(s, d, 11);
                }
                d
            },
            Result::Err(_) => {
                // Unreachable: the declaration is valid.
                proof {
                    assert(false);
                }
                QtyDef { ident: String::new(), derived: None, ref_unit: None, units: Vec::new() }
            },
        }
    }
}

} // verus!
