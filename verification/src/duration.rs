//! Definition of basic quantity `Duration`.

use crate::amount::{Amount, Rat};
use crate::define::{
    compile, compile_err, entry_is, has_scaled_unit, lemma_entry_unit,
    lemma_single_leading_ref, n_refs, ref_entry_idx, scale_acceptable, QtySpec, UnitEntry,
};
use crate::qty::QtyDef;
use crate::scales::{
    lemma_pow10_values, lemma_canon_1_em3, lemma_canon_1_em6, lemma_canon_1_em9, lemma_canon_31556952_e0, lemma_canon_315576_e2, lemma_canon_315581497635_em4, lemma_canon_36_e2, lemma_canon_6_e1, lemma_canon_86164_e0, lemma_canon_864_e2,
};
use crate::si_prefixes::SIPrefix;
use vstd::prelude::*;

verus! {

/// Duration: 'what a clock reads'.
pub struct Duration {}

impl Duration {
    /// The declarative specification of `Duration`: its unit entries in
    /// declaration order, each pinned field for field, at most one of
    /// them marked as the reference unit.
    #[verifier::rlimit(100)]
    pub fn declaration() -> (s: QtySpec)
        ensures
            compile_err(s) is None,
            n_refs(s) == 1,
            ref_entry_idx(s) == 0,
            s.entries@[0].symbol@ == "s"@,
            s.ident@ == "Duration"@,
            s.derived is None,
            s.entries@.len() == 11,
            entry_is(s.entries@[0], true, "Second"@, "s"@, Some(SIPrefix::NONE), None),
            entry_is(s.entries@[1], false, "Nanosecond"@, "ns"@, Some(SIPrefix::NANO), Some(Rat { n: 1, d: 1000000000 })),
            entry_is(s.entries@[2], false, "Microsecond"@, "µs"@, Some(SIPrefix::MICRO), Some(Rat { n: 1, d: 1000000 })),
            entry_is(s.entries@[3], false, "Millisecond"@, "ms"@, Some(SIPrefix::MILLI), Some(Rat { n: 1, d: 1000 })),
            entry_is(s.entries@[4], false, "Minute"@, "min"@, None, Some(Rat { n: 60, d: 1 })),
            entry_is(s.entries@[5], false, "Hour"@, "h"@, None, Some(Rat { n: 3600, d: 1 })),
            entry_is(s.entries@[6], false, "Day"@, "d"@, None, Some(Rat { n: 86400, d: 1 })),
            entry_is(s.entries@[7], false, "Gregorian_Year"@, "yr"@, None, Some(Rat { n: 31556952, d: 1 })),
            entry_is(s.entries@[8], false, "Julian_Year"@, "a"@, None, Some(Rat { n: 31557600, d: 1 })),
            entry_is(s.entries@[9], false, "Earth_Period"@, "T🜨"@, None, Some(Rat { n: 63116299527, d: 2000 })),
            entry_is(s.entries@[10], false, "Sideral_Day"@, "dₛ"@, None, Some(Rat { n: 86164, d: 1 })),
    {
        let mut entries: Vec<UnitEntry> = Vec::new();
        entries.push(
            UnitEntry {
                is_ref: true,
                ident: "Second".to_owned(),
                symbol: "s".to_owned(),
                si_prefix: Some(SIPrefix::NONE),
                scale: None,
                doc: Some("Reference unit of quantity `Duration`".to_owned()),
            },
        );
        entries.push(
            UnitEntry {
                is_ref: false,
                ident: "Nanosecond".to_owned(),
                symbol: "ns".to_owned(),
                si_prefix: Some(SIPrefix::NANO),
                scale: Some(Amount::from_sci(1, -9)),
                doc: Some("0.000000001·s".to_owned()),
            },
        );
        entries.push(
            UnitEntry {
                is_ref: false,
                ident: "Microsecond".to_owned(),
                symbol: "µs".to_owned(),
                si_prefix: Some(SIPrefix::MICRO),
                scale: Some(Amount::from_sci(1, -6)),
                doc: Some("0.000001·s".to_owned()),
            },
        );
        entries.push(
            UnitEntry {
                is_ref: false,
                ident: "Millisecond".to_owned(),
                symbol: "ms".to_owned(),
                si_prefix: Some(SIPrefix::MILLI),
                scale: Some(Amount::from_sci(1, -3)),
                doc: Some("0.001·s".to_owned()),
            },
        );
        entries.push(
            UnitEntry {
                is_ref: false,
                ident: "Minute".to_owned(),
                symbol: "min".to_owned(),
                si_prefix: None,
                scale: Some(Amount::from_sci(6, 1)),
                doc: Some("60·s".to_owned()),
            },
        );
        entries.push(
            UnitEntry {
                is_ref: false,
                ident: "Hour".to_owned(),
                symbol: "h".to_owned(),
                si_prefix: None,
                scale: Some(Amount::from_sci(36, 2)),
                doc: Some("60·min".to_owned()),
            },
        );
        entries.push(
            UnitEntry {
                is_ref: false,
                ident: "Day".to_owned(),
                symbol: "d".to_owned(),
                si_prefix: None,
                scale: Some(Amount::from_sci(864, 2)),
                doc: Some("24·h".to_owned()),
            },
        );
        entries.push(
            UnitEntry {
                is_ref: false,
                ident: "Gregorian_Year".to_owned(),
                symbol: "yr".to_owned(),
                si_prefix: None,
                scale: Some(Amount::from_sci(31556952, 0)),
                doc: Some("365.2425·d".to_owned()),
            },
        );
        entries.push(
            UnitEntry {
                is_ref: false,
                ident: "Julian_Year".to_owned(),
                symbol: "a".to_owned(),
                si_prefix: None,
                scale: Some(Amount::from_sci(315576, 2)),
                doc: Some("365.25·d".to_owned()),
            },
        );
        entries.push(
            UnitEntry {
                is_ref: false,
                ident: "Earth_Period".to_owned(),
                symbol: "T🜨".to_owned(),
                si_prefix: None,
                scale: Some(Amount::from_sci(315581497635, -4)),
                doc: Some("365.256363004·d".to_owned()),
            },
        );
        entries.push(
            UnitEntry {
                is_ref: false,
                ident: "Sideral_Day".to_owned(),
                symbol: "dₛ".to_owned(),
                si_prefix: None,
                scale: Some(Amount::from_sci(86164, 0)),
                doc: Some("(1·a)/ (1·a + 1·d) ·d".to_owned()),
            },
        );
        let s = QtySpec { ident: "Duration".to_owned(), derived: None, entries };
        proof {
            let es = s.entries@;
            assert forall|j: int| 1 <= j < es.len() implies !(#[trigger] es[j]).is_ref by {}
            lemma_single_leading_ref(es);
            assert forall|j: int|
                0 <= j < es.len() && !(#[trigger] es[j]).is_ref implies (#[trigger] es[j]).scale
                is Some && scale_acceptable(es[j].scale->Some_0) by {}
            lemma_pow10_values();
            lemma_canon_1_em9();
            lemma_canon_1_em6();
            lemma_canon_1_em3();
            lemma_canon_6_e1();
            lemma_canon_36_e2();
            lemma_canon_864_e2();
            lemma_canon_31556952_e0();
            lemma_canon_315576_e2();
            lemma_canon_315581497635_em4();
            lemma_canon_86164_e0();
            assert(compile_err(s) is None);
        }
        s
    }

    /// The compiled definition of `Duration`: the validated, sorted unit
    /// table the engine works on, holding exactly the declared units.
    #[verifier::rlimit(100)]
    pub fn definition() -> (d: QtyDef)
        ensures
            d.wf(),
            d.has_ref(),
            d.sym_at(d.ref_idx()) == "s"@,
            d.ident@ == "Duration"@,
            d.derived is None,
            d.units@.len() == 11,
            has_scaled_unit(d, "Second"@, "s"@, Some(SIPrefix::NONE), Rat { n: 1, d: 1 }),
            has_scaled_unit(d, "Nanosecond"@, "ns"@, Some(SIPrefix::NANO), Rat { n: 1, d: 1000000000 }),
            has_scaled_unit(d, "Microsecond"@, "µs"@, Some(SIPrefix::MICRO), Rat { n: 1, d: 1000000 }),
            has_scaled_unit(d, "Millisecond"@, "ms"@, Some(SIPrefix::MILLI), Rat { n: 1, d: 1000 }),
            has_scaled_unit(d, "Minute"@, "min"@, None, Rat { n: 60, d: 1 }),
            has_scaled_unit(d, "Hour"@, "h"@, None, Rat { n: 3600, d: 1 }),
            has_scaled_unit(d, "Day"@, "d"@, None, Rat { n: 86400, d: 1 }),
            has_scaled_unit(d, "Gregorian_Year"@, "yr"@, None, Rat { n: 31556952, d: 1 }),
            has_scaled_unit(d, "Julian_Year"@, "a"@, None, Rat { n: 31557600, d: 1 }),
            has_scaled_unit(d, "Earth_Period"@, "T🜨"@, None, Rat { n: 63116299527, d: 2000 }),
            has_scaled_unit(d, "Sideral_Day"@, "dₛ"@, None, Rat { n: 86164, d: 1 }),
    {
        let s = Duration::declaration();
        match compile(&s) {
            Result::Ok(d) => {
                proof {
                    lemma_entry_unit(s, d, 0);
                    lemma_entry_unit(s, d, 1);
                    lemma_entry_unit(s, d, 2);
                    lemma_entry_unit(s, d, 3);
                    lemma_entry_unit(s, d, 4);
                    lemma_entry_unit(s, d, 5);
                    lemma_entry_unit(s, d, 6);
                    lemma_entry_unit(s, d, 7);
                    lemma_entry_unit(s, d, 8);
                    lemma_entry_unit(s, d, 9);
                    lemma_entry_unit(s, d, 10);
                }
                d
            },
            Result::Err(_) => {
                // Unreachable: the declaration is valid.
                proof {
                    assert(false);
                }
                QtyDef { ident: String::new(), derived: None, ref_unit: None, units: Vec::new() }
            },
        }
    }
}

} // verus!
