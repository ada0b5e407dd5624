//! Definition of basic quantity `DataVolume`.

use crate::amount::{Amount, Rat};
use crate::define::{
    compile, compile_err, entry_is, has_scaled_unit, lemma_entry_unit,
    lemma_single_leading_ref, n_refs, ref_entry_idx, scale_acceptable, QtySpec, UnitEntry,
};
use crate::qty::QtyDef;
use crate::scales::{
    lemma_pow10_values, lemma_canon_1024_e0, lemma_canon_1048576_e0, lemma_canon_1073741824_e0, lemma_canon_1099511627776_e0, lemma_canon_125_e0, lemma_canon_125_e3, lemma_canon_125_e6, lemma_canon_125_e9, lemma_canon_125_em3, lemma_canon_128_e0, lemma_canon_131072_e0, lemma_canon_134217728_e0, lemma_canon_137438953472_e0, lemma_canon_1_e12, lemma_canon_1_e3, lemma_canon_1_e6, lemma_canon_1_e9,
};
use crate::si_prefixes::SIPrefix;
use vstd::prelude::*;

verus! {

/// DataVolume according to IEEE 1541-2002.
pub struct DataVolume {}

impl DataVolume {
    /// The declarative specification of `DataVolume`: its unit entries in
    /// declaration order, each pinned field for field, at most one of
    /// them marked as the reference unit.
    #[verifier::rlimit(100)]
    pub fn declaration() -> (s: QtySpec)
        ensures
            compile_err(s) is None,
            n_refs(s) == 1,
            ref_entry_idx(s) == 0,
            s.entries@[0].symbol@ == "B"@,
            s.ident@ == "DataVolume"@,
            s.derived is None,
            s.entries@.len() == 18,
            entry_is(s.entries@[0], true, "Byte"@, "B"@, Some(SIPrefix::NONE), None),
            entry_is(s.entries@[1], false, "Bit"@, "b"@, None, Some(Rat { n: 1, d: 8 })),
            entry_is(s.entries@[2], false, "Kilobit"@, "kb"@, None, Some(Rat { n: 125, d: 1 })),
            entry_is(s.entries@[3], false, "Kibibit"@, "Kib"@, None, Some(Rat { n: 128, d: 1 })),
            entry_is(s.entries@[4], false, "Kilobyte"@, "kB"@, Some(SIPrefix::KILO), Some(Rat { n: 1000, d: 1 })),
            entry_is(s.entries@[5], false, "Kibibyte"@, "KiB"@, None, Some(Rat { n: 1024, d: 1 })),
            entry_is(s.entries@[6], false, "Megabit"@, "Mb"@, None, Some(Rat { n: 125000, d: 1 })),
            entry_is(s.entries@[7], false, "Mebibit"@, "Mib"@, None, Some(Rat { n: 131072, d: 1 })),
            entry_is(s.entries@[8], false, "Megabyte"@, "MB"@, Some(SIPrefix::MEGA), Some(Rat { n: 1000000, d: 1 })),
            entry_is(s.entries@[9], false, "Mebibyte"@, "MiB"@, None, Some(Rat { n: 1048576, d: 1 })),
            entry_is(s.entries@[10], false, "Gigabit"@, "Gb"@, None, Some(Rat { n: 125000000, d: 1 })),
            entry_is(s.entries@[11], false, "Gibibit"@, "Gib"@, None, Some(Rat { n: 134217728, d: 1 })),
            entry_is(s.entries@[12], false, "Gigabyte"@, "GB"@, Some(SIPrefix::GIGA), Some(Rat { n: 1000000000, d: 1 })),
            entry_is(s.entries@[13], false, "Gibibyte"@, "GiB"@, None, Some(Rat { n: 1073741824, d: 1 })),
            entry_is(s.entries@[14], false, "Terabit"@, "Tb"@, None, Some(Rat { n: 125000000000, d: 1 })),
            entry_is(s.entries@[15], false, "Tebibit"@, "Tib"@, None, Some(Rat { n: 137438953472, d: 1 })),
            entry_is(s.entries@[16], false, "Terabyte"@, "TB"@, Some(SIPrefix::TERA), Some(Rat { n: 1000000000000, d: 1 })),
            entry_is(s.entries@[17], false, "Tebibyte"@, "TiB"@, None, Some(Rat { n: 1099511627776, d: 1 })),
    {
        let mut entries: Vec<UnitEntry> = Vec::new();
        entries.push(
            UnitEntry {
                is_ref: true,
                ident: "Byte".to_owned(),
                symbol: "B".to_owned(),
                si_prefix: Some(SIPrefix::NONE),
                scale: None,
                doc: Some("Reference unit of quantity `DataVolume`".to_owned()),
            },
        );
        entries.push(
            UnitEntry {
                is_ref: false,
                ident: "Bit".to_owned(),
                symbol: "b".to_owned(),
                si_prefix: None,
                scale: Some(Amount::from_sci(125, -3)),
                doc: Some("0.125·B".to_owned()),
            },
        );
        entries.push(
            UnitEntry {
                is_ref: false,
                ident: "Kilobit".to_owned(),
                symbol: "kb".to_owned(),
                si_prefix: None,
                scale: Some(Amount::from_sci(125, 0)),
                doc: Some("1000·b".to_owned()),
            },
        );
        entries.push(
            UnitEntry {
                is_ref: false,
                ident: "Kibibit".to_owned(),
                symbol: "Kib".to_owned(),
                si_prefix: None,
                scale: Some(Amount::from_sci(128, 0)),
                doc: Some("1024·b".to_owned()),
            },
        );
        entries.push(
            UnitEntry {
                is_ref: false,
                ident: "Kilobyte".to_owned(),
                symbol: "kB".to_owned(),
                si_prefix: Some(SIPrefix::KILO),
                scale: Some(Amount::from_sci(1, 3)),
                doc: Some("1000·B".to_owned()),
            },
        );
        entries.push(
            UnitEntry {
                is_ref: false,
                ident: "Kibibyte".to_owned(),
                symbol: "KiB".to_owned(),
                si_prefix: None,
                scale: Some(Amount::from_sci(1024, 0)),
                doc: Some("1024·B".to_owned()),
            },
        );
        entries.push(
            UnitEntry {
                is_ref: false,
                ident: "Megabit".to_owned(),
                symbol: "Mb".to_owned(),
                si_prefix: None,
                scale: Some(Amount::from_sci(125, 3)),
                doc: Some("1000000·b".to_owned()),
            },
        );
        entries.push(
            UnitEntry {
                is_ref: false,
                ident: "Mebibit".to_owned(),
                symbol: "Mib".to_owned(),
                si_prefix: None,
                scale: Some(Amount::from_sci(131072, 0)),
                doc: Some("1048576·b".to_owned()),
            },
        );
        entries.push(
            UnitEntry {
                is_ref: false,
                ident: "Megabyte".to_owned(),
                symbol: "MB".to_owned(),
                si_prefix: Some(SIPrefix::MEGA),
                scale: Some(Amount::from_sci(1, 6)),
                doc: Some("1000000·B".to_owned()),
            },
        );
        entries.push(
            UnitEntry {
                is_ref: false,
                ident: "Mebibyte".to_owned(),
                symbol: "MiB".to_owned(),
                si_prefix: None,
                scale: Some(Amount::from_sci(1048576, 0)),
                doc: Some("1048576·B".to_owned()),
            },
        );
        entries.push(
            UnitEntry {
                is_ref: false,
                ident: "Gigabit".to_owned(),
                symbol: "Gb".to_owned(),
                si_prefix: None,
                scale: Some(Amount::from_sci(125, 6)),
                doc: Some("1000000000·b".to_owned()),
            },
        );
        entries.push(
            UnitEntry {
                is_ref: false,
                ident: "Gibibit".to_owned(),
                symbol: "Gib".to_owned(),
                si_prefix: None,
                scale: Some(Amount::from_sci(134217728, 0)),
                doc: Some("1073741824·b".to_owned()),
            },
        );
        entries.push(
            UnitEntry {
                is_ref: false,
                ident: "Gigabyte".to_owned(),
                symbol: "GB".to_owned(),
                si_prefix: Some(SIPrefix::GIGA),
                scale: Some(Amount::from_sci(1, 9)),
                doc: Some("1000000000·B".to_owned()),
            },
        );
        entries.push(
            UnitEntry {
                is_ref: false,
                ident: "Gibibyte".to_owned(),
                symbol: "GiB".to_owned(),
                si_prefix: None,
                scale: Some(Amount::from_sci(1073741824, 0)),
                doc: Some("1073741824·B".to_owned()),
            },
        );
        entries.push(
            UnitEntry {
                is_ref: false,
                ident: "Terabit".to_owned(),
                symbol: "Tb".to_owned(),
                si_prefix: None,
                scale: Some(Amount::from_sci(125, 9)),
                doc: Some("1000000000000·b".to_owned()),
            },
        );
        entries.push(
            UnitEntry {
                is_ref: false,
                ident: "Tebibit".to_owned(),
                symbol: "Tib".to_owned(),
                si_prefix: None,
                scale: Some(Amount::from_sci(137438953472, 0)),
                doc: Some("1099511627776·b".to_owned()),
            },
        );
        entries.push(
            UnitEntry {
                is_ref: false,
                ident: "Terabyte".to_owned(),
                symbol: "TB".to_owned(),
                si_prefix: Some(SIPrefix::TERA),
                scale: Some(Amount::from_sci(1, 12)),
                doc: Some("1000000000000·B".to_owned()),
            },
        );
        entries.push(
            UnitEntry {
                is_ref: false,
                ident: "Tebibyte".to_owned(),
                symbol: "TiB".to_owned(),
                si_prefix: None,
                scale: Some(Amount::from_sci(1099511627776, 0)),
                doc: Some("1099511627776·B".to_owned()),
            },
        );
        let s = QtySpec { ident: "DataVolume".to_owned(), derived: None, entries };
        proof {
            let es = s.entries@;
            assert forall|j: int| 1 <= j < es.len() implies !(#[trigger] es[j]).is_ref by {}
            lemma_single_leading_ref(es);
            assert forall|j: int|
                0 <= j < es.len() && !(#[trigger] es[j]).is_ref implies (#[trigger] es[j]).scale
                is Some && scale_acceptable(es[j].scale->Some_0) by {}
            lemma_pow10_values();
            lemma_canon_125_em3();
            lemma_canon_125_e0();
            lemma_canon_128_e0();
            lemma_canon_1_e3();
            lemma_canon_1024_e0();
            lemma_canon_125_e3();
            lemma_canon_131072_e0();
            lemma_canon_1_e6();
            lemma_canon_1048576_e0();
            lemma_canon_125_e6();
            lemma_canon_134217728_e0();
            lemma_canon_1_e9();
            lemma_canon_1073741824_e0();
            lemma_canon_125_e9();
            lemma_canon_137438953472_e0();
            lemma_canon_1_e12();
            lemma_canon_1099511627776_e0();
            assert(compile_err(s) is None);
        }
        s
    }

    /// The compiled definition of `DataVolume`: the validated, sorted unit
    /// table the engine works on, holding exactly the declared units.
    #[verifier::rlimit(100)]
    pub fn definition() -> (d: QtyDef)
        ensures
            d.wf(),
            d.has_ref(),
            d.sym_at(d.ref_idx()) == "B"@,
            d.ident@ == "DataVolume"@,
            d.derived is None,
            d.units@.len() == 18,
            has_scaled_unit(d, "Byte"@, "B"@, Some(SIPrefix::NONE), Rat { n: 1, d: 1 }),
            has_scaled_unit(d, "Bit"@, "b"@, None, Rat { n: 1, d: 8 }),
            has_scaled_unit(d, "Kilobit"@, "kb"@, None, Rat { n: 125, d: 1 }),
            has_scaled_unit(d, "Kibibit"@, "Kib"@, None, Rat { n: 128, d: 1 }),
            has_scaled_unit(d, "Kilobyte"@, "kB"@, Some(SIPrefix::KILO), Rat { n: 1000, d: 1 }),
            has_scaled_unit(d, "Kibibyte"@, "KiB"@, None, Rat { n: 1024, d: 1 }),
            has_scaled_unit(d, "Megabit"@, "Mb"@, None, Rat { n: 125000, d: 1 }),
            has_scaled_unit(d, "Mebibit"@, "Mib"@, None, Rat { n: 131072, d: 1 }),
            has_scaled_unit(d, "Megabyte"@, "MB"@, Some(SIPrefix::MEGA), Rat { n: 1000000, d: 1 }),
            has_scaled_unit(d, "Mebibyte"@, "MiB"@, None, Rat { n: 1048576, d: 1 }),
            has_scaled_unit(d, "Gigabit"@, "Gb"@, None, Rat { n: 125000000, d: 1 }),
            has_scaled_unit(d, "Gibibit"@, "Gib"@, None, Rat { n: 134217728, d: 1 }),
            has_scaled_unit(d, "Gigabyte"@, "GB"@, Some(SIPrefix::GIGA), Rat { n: 1000000000, d: 1 }),
            has_scaled_unit(d, "Gibibyte"@, "GiB"@, None, Rat { n: 1073741824, d: 1 }),
            has_scaled_unit(d, "Terabit"@, "Tb"@, None, Rat { n: 125000000000, d: 1 }),
            has_scaled_unit(d, "Tebibit"@, "Tib"@, None, Rat { n: 137438953472, d: 1 }),
            has_scaled_unit(d, "Terabyte"@, "TB"@, Some(SIPrefix::TERA), Rat { n: 1000000000000, d: 1 }),
            has_scaled_unit(d, "Tebibyte"@, "TiB"@, None, Rat { n: 1099511627776, d: 1 }),
    {
        let s = DataVolume::declaration();
        match compile(&s) {
            Result::Ok(d) => {
                proof {
                    lemma_entry_unit(s, d, 0);
                    lemma_entry_unit(s, d, 1);
                    lemma_entry_unit(s, d, 2);
                    lemma_entry_unit(s, d, 3);
                    lemma_entry_unit(s, d, 4);
                    lemma_entry_unit(s, d, 5);
                    lemma_entry_unit(s, d, 6);
                    lemma_entry_unit(s, d, 7);
                    lemma_entry_unit(s, d, 8);
                    lemma_entry_unit(s, d, 9);
                    lemma_entry_unit(s, d, 10);
                    lemma_entry_unit(s, d, 11);
                    lemma_entry_unit(s, d, 12);
                    lemma_entry_unit(s, d, 13);
                    lemma_entry_unit(s, d, 14);
                    lemma_entry_unit(s, d, 15);
                    lemma_entry_unit(s, d, 16);
                    lemma_entry_unit(s, d, 17);
                }
                d
            },
            Result::Err(_) => {
                // Unreachable: the declaration is valid.
                proof {
                    assert(false);
                }
                QtyDef { ident: String::new(), derived: None, ref_unit: None, units: Vec::new() }
            },
        }
    }
}

} // verus!
