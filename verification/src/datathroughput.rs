//! Definition of derived quantity `DataThroughput`.

use crate::algebra::der_matches;
use crate::amount::{Amount, Rat};
use crate::define::{
    compile, compile_err, entry_is, has_scaled_unit, lemma_entry_unit,
    lemma_single_leading_ref, n_refs, ref_entry_idx, scale_acceptable, QtySpec, UnitEntry,
};
use crate::qty::QtyDef;
use crate::qty::{DerivOp, Derivation};
use crate::scales::{
    lemma_pow10_values, lemma_canon_1024_e0, lemma_canon_1048576_e0, lemma_canon_1073741824_e0, lemma_canon_1099511627776_e0, lemma_canon_125_e0, lemma_canon_125_e3, lemma_canon_125_e6, lemma_canon_125_e9, lemma_canon_125_em3, lemma_canon_128_e0, lemma_canon_131072_e0, lemma_canon_134217728_e0, lemma_canon_137438953472_e0, lemma_canon_1_e12, lemma_canon_1_e3, lemma_canon_1_e6, lemma_canon_1_e9,
};
use crate::si_prefixes::SIPrefix;
use vstd::prelude::*;

verus! {

/// Amount of data transferred per unit of time.
pub struct DataThroughput {}

impl DataThroughput {
    /// The declarative specification of `DataThroughput`: its unit entries in
    /// declaration order, each pinned field for field, at most one of
    /// them marked as the reference unit.
    #[verifier::rlimit(100)]
    pub fn declaration() -> (s: QtySpec)
        ensures
            compile_err(s) is None,
            n_refs(s) == 1,
            ref_entry_idx(s) == 0,
            s.entries@[0].symbol@ == "B/s"@,
            s.ident@ == "DataThroughput"@,
            der_matches(s.derived, "DataVolume"@, DerivOp::Div, "Duration"@),
            s.entries@.len() == 18,
            entry_is(s.entries@[0], true, "Byte_per_Second"@, "B/s"@, Some(SIPrefix::NONE), None),
            entry_is(s.entries@[1], false, "Bit_per_Second"@, "b/s"@, None, Some(Rat { n: 1, d: 8 })),
            entry_is(s.entries@[2], false, "Kilobit_per_Second"@, "kb/s"@, None, Some(Rat { n: 125, d: 1 })),
            entry_is(s.entries@[3], false, "Kibibit_per_Second"@, "Kib/s"@, None, Some(Rat { n: 128, d: 1 })),
            entry_is(s.entries@[4], false, "Kilobyte_per_Second"@, "kB/s"@, Some(SIPrefix::KILO), Some(Rat { n: 1000, d: 1 })),
            entry_is(s.entries@[5], false, "Kibibyte_per_Second"@, "KiB/s"@, None, Some(Rat { n: 1024, d: 1 })),
            entry_is(s.entries@[6], false, "Megabit_per_Second"@, "Mb/s"@, None, Some(Rat { n: 125000, d: 1 })),
            entry_is(s.entries@[7], false, "Mebibit_per_Second"@, "Mib/s"@, None, Some(Rat { n: 131072, d: 1 })),
            entry_is(s.entries@[8], false, "Megabyte_per_Second"@, "MB/s"@, Some(SIPrefix::MEGA), Some(Rat { n: 1000000, d: 1 })),
            entry_is(s.entries@[9], false, "Mebibyte_per_Second"@, "MiB/s"@, None, Some(Rat { n: 1048576, d: 1 })),
            entry_is(s.entries@[10], false, "Gigabit_per_Second"@, "Gb/s"@, None, Some(Rat { n: 125000000, d: 1 })),
            entry_is(s.entries@[11], false, "Gibibit_per_Second"@, "Gib/s"@, None, Some(Rat { n: 134217728, d: 1 })),
            entry_is(s.entries@[12], false, "Gigabyte_per_Second"@, "GB/s"@, Some(SIPrefix::GIGA), Some(Rat { n: 1000000000, d: 1 })),
            entry_is(s.entries@[13], false, "Gibibyte_per_Second"@, "GiB/s"@, None, Some(Rat { n: 1073741824, d: 1 })),
            entry_is(s.entries@[14], false, "Terabit_per_Second"@, "Tb/s"@, None, Some(Rat { n: 125000000000, d: 1 })),
            entry_is(s.entries@[15], false, "Tebibit_per_Second"@, "Tib/s"@, None, Some(Rat { n: 137438953472, d: 1 })),
            entry_is(s.entries@[16], false, "Terabyte_per_Second"@, "TB/s"@, Some(SIPrefix::TERA), Some(Rat { n: 1000000000000, d: 1 })),
            entry_is(s.entries@[17], false, "Tebibyte_per_Second"@, "TiB/s"@, None, Some(Rat { n: 1099511627776, d: 1 })),
    {
        let mut entries: Vec<UnitEntry> = Vec::new();
        entries.push(
            UnitEntry {
                is_ref: true,
                ident: "Byte_per_Second".to_owned(),
                symbol: "B/s".to_owned(),
                si_prefix: Some(SIPrefix::NONE),
                scale: None,
                doc: Some("Reference unit of quantity `DataThroughput`".to_owned()),
            },
        );
        entries.push(
            UnitEntry {
                is_ref: false,
                ident: "Bit_per_Second".to_owned(),
                symbol: "b/s".to_owned(),
                si_prefix: None,
                scale: Some(Amount::from_sci(125, -3)),
                doc: Some("b/s".to_owned()),
            },
        );
        entries.push(
            UnitEntry {
                is_ref: false,
                ident: "Kilobit_per_Second".to_owned(),
                symbol: "kb/s".to_owned(),
                si_prefix: None,
                scale: Some(Amount::from_sci(125, 0)),
                doc: Some("1000·b/s".to_owned()),
            },
        );
        entries.push(
            UnitEntry {
                is_ref: false,
                ident: "Kibibit_per_Second".to_owned(),
                symbol: "Kib/s".to_owned(),
                si_prefix: None,
                scale: Some(Amount::from_sci(128, 0)),
                doc: Some("1024·b/s".to_owned()),
            },
        );
        entries.push(
            UnitEntry {
                is_ref: false,
                ident: "Kilobyte_per_Second".to_owned(),
                symbol: "kB/s".to_owned(),
                si_prefix: Some(SIPrefix::KILO),
                scale: Some(Amount::from_sci(1, 3)),
                doc: Some("1000·B/s".to_owned()),
            },
        );
        entries.push(
            UnitEntry {
                is_ref: false,
                ident: "Kibibyte_per_Second".to_owned(),
                symbol: "KiB/s".to_owned(),
                si_prefix: None,
                scale: Some(Amount::from_sci(1024, 0)),
                doc: Some("1024·B/s".to_owned()),
            },
        );
        entries.push(
            UnitEntry {
                is_ref: false,
                ident: "Megabit_per_Second".to_owned(),
                symbol: "Mb/s".to_owned(),
                si_prefix: None,
                scale: Some(Amount::from_sci(125, 3)),
                doc: Some("1000000·b/s".to_owned()),
            },
        );
        entries.push(
            UnitEntry {
                is_ref: false,
                ident: "Mebibit_per_Second".to_owned(),
                symbol: "Mib/s".to_owned(),
                si_prefix: None,
                scale: Some(Amount::from_sci(131072, 0)),
                doc: Some("1048576·b/s".to_owned()),
            },
        );
        entries.push(
            UnitEntry {
                is_ref: false,
                ident: "Megabyte_per_Second".to_owned(),
                symbol: "MB/s".to_owned(),
                si_prefix: Some(SIPrefix::MEGA),
                scale: Some(Amount::from_sci(1, 6)),
                doc: Some("1000000·B/s".to_owned()),
            },
        );
        entries.push(
            UnitEntry {
                is_ref: false,
                ident: "Mebibyte_per_Second".to_owned(),
                symbol: "MiB/s".to_owned(),
                si_prefix: None,
                scale: Some(Amount::from_sci(1048576, 0)),
                doc: Some("1048576·B/s".to_owned()),
            },
        );
        entries.push(
            UnitEntry {
                is_ref: false,
                ident: "Gigabit_per_Second".to_owned(),
                symbol: "Gb/s".to_owned(),
                si_prefix: None,
                scale: Some(Amount::from_sci(125, 6)),
                doc: Some("1000000000·b/s".to_owned()),
            },
        );
        entries.push(
            UnitEntry {
                is_ref: false,
                ident: "Gibibit_per_Second".to_owned(),
                symbol: "Gib/s".to_owned(),
                si_prefix: None,
                scale: Some(Amount::from_sci(134217728, 0)),
                doc: Some("1073741824·b/s".to_owned()),
            },
        );
        entries.push(
            UnitEntry {
                is_ref: false,
                ident: "Gigabyte_per_Second".to_owned(),
                symbol: "GB/s".to_owned(),
                si_prefix: Some(SIPrefix::GIGA),
                scale: Some(Amount::from_sci(1, 9)),
                doc: Some("1000000000·B/s".to_owned()),
            },
        );
        entries.push(
            UnitEntry {
                is_ref: false,
                ident: "Gibibyte_per_Second".to_owned(),
                symbol: "GiB/s".to_owned(),
                si_prefix: None,
                scale: Some(Amount::from_sci(1073741824, 0)),
                doc: Some("1073741824·B/s".to_owned()),
            },
        );
        entries.push(
            UnitEntry {
                is_ref: false,
                ident: "Terabit_per_Second".to_owned(),
                symbol: "Tb/s".to_owned(),
                si_prefix: None,
                scale: Some(Amount::from_sci(125, 9)),
                doc: Some("1000000000000·b/s".to_owned()),
            },
        );
        entries.push(
            UnitEntry {
                is_ref: false,
                ident: "Tebibit_per_Second".to_owned(),
                symbol: "Tib/s".to_owned(),
                si_prefix: None,
                scale: Some(Amount::from_sci(137438953472, 0)),
                doc: Some("1099511627776·b/s".to_owned()),
            },
        );
        entries.push(
            UnitEntry {
                is_ref: false,
                ident: "Terabyte_per_Second".to_owned(),
                symbol: "TB/s".to_owned(),
                si_prefix: Some(SIPrefix::TERA),
                scale: Some(Amount::from_sci(1, 12)),
                doc: Some("1000000000000·B/s".to_owned()),
            },
        );
        entries.push(
            UnitEntry {
                is_ref: false,
                ident: "Tebibyte_per_Second".to_owned(),
                symbol: "TiB/s".to_owned(),
                si_prefix: None,
                scale: Some(Amount::from_sci(1099511627776, 0)),
                doc: Some("1099511627776·B/s".to_owned()),
            },
        );
        let s = QtySpec { ident: "DataThroughput".to_owned(), derived: Some(
            Derivation { lhs: "DataVolume".to_owned(), op: DerivOp::Div, rhs: "Duration".to_owned() },
        ), entries };
        proof {
            let es = s.entries@;
            assert forall|j: int| 1 <= j < es.len() implies !(#[trigger] es[j]).is_ref by {}
            lemma_single_leading_ref(es);
            assert forall|j: int|
                0 <= j < es.len() && !(#[trigger] es[j]).is_ref implies (#[trigger] es[j]).scale
                is Some && scale_acceptable(es[j].scale->Some_0) by {}
            reveal_strlit("DataVolume");
            reveal_strlit("Duration");
            lemma_pow10_values();
            lemma_canon_125_em3();
            lemma_canon_125_e0();
            lemma_canon_128_e0();
            lemma_canon_1_e3();
            lemma_canon_1024_e0();
            lemma_canon_125_e3();
            lemma_canon_131072_e0();
            lemma_canon_1_e6();
            lemma_canon_1048576_e0();
            lemma_canon_125_e6();
            lemma_canon_134217728_e0();
            lemma_canon_1_e9();
            lemma_canon_1073741824_e0();
            lemma_canon_125_e9();
            lemma_canon_137438953472_e0();
            lemma_canon_1_e12();
            lemma_canon_1099511627776_e0();
            assert(compile_err(s) is None);
        }
        s
    }

    /// The compiled definition of `DataThroughput`: the validated, sorted unit
    /// table the engine works on, holding exactly the declared units.
    #[verifier::rlimit(100)]
    pub fn definition() -> (d: QtyDef)
        ensures
            d.wf(),
            d.has_ref(),
            d.sym_at(d.ref_idx()) == "B/s"@,
            d.ident@ == "DataThroughput"@,
            der_matches(d.derived, "DataVolume"@, DerivOp::Div, "Duration"@),
            d.units@.len() == 18,
            has_scaled_unit(d, "Byte_per_Second"@, "B/s"@, Some(SIPrefix::NONE), Rat { n: 1, d: 1 }),
            has_scaled_unit(d, "Bit_per_Second"@, "b/s"@, None, Rat { n: 1, d: 8 }),
            has_scaled_unit(d, "Kilobit_per_Second"@, "kb/s"@, None, Rat { n: 125, d: 1 }),
            has_scaled_unit(d, "Kibibit_per_Second"@, "Kib/s"@, None, Rat { n: 128, d: 1 }),
            has_scaled_unit(d, "Kilobyte_per_Second"@, "kB/s"@, Some(SIPrefix::KILO), Rat { n: 1000, d: 1 }),
            has_scaled_unit(d, "Kibibyte_per_Second"@, "KiB/s"@, None, Rat { n: 1024, d: 1 }),
            has_scaled_unit(d, "Megabit_per_Second"@, "Mb/s"@, None, Rat { n: 125000, d: 1 }),
            has_scaled_unit(d, "Mebibit_per_Second"@, "Mib/s"@, None, Rat { n: 131072, d: 1 }),
            has_scaled_unit(d, "Megabyte_per_Second"@, "MB/s"@, Some(SIPrefix::MEGA), Rat { n: 1000000, d: 1 }),
            has_scaled_unit(d, "Mebibyte_per_Second"@, "MiB/s"@, None, Rat { n: 1048576, d: 1 }),
            has_scaled_unit(d, "Gigabit_per_Second"@, "Gb/s"@, None, Rat { n: 125000000, d: 1 }),
            has_scaled_unit(d, "Gibibit_per_Second"@, "Gib/s"@, None, Rat { n: 134217728, d: 1 }),
            has_scaled_unit(d, "Gigabyte_per_Second"@, "GB/s"@, Some(SIPrefix::GIGA), Rat { n: 1000000000, d: 1 }),
            has_scaled_unit(d, "Gibibyte_per_Second"@, "GiB/s"@, None, Rat { n: 1073741824, d: 1 }),
            has_scaled_unit(d, "Terabit_per_Second"@, "Tb/s"@, None, Rat { n: 125000000000, d: 1 }),
            has_scaled_unit(d, "Tebibit_per_Second"@, "Tib/s"@, None, Rat { n: 137438953472, d: 1 }),
            has_scaled_unit(d, "Terabyte_per_Second"@, "TB/s"@, Some(SIPrefix::TERA), Rat { n: 1000000000000, d: 1 }),
            has_scaled_unit(d, "Tebibyte_per_Second"@, "TiB/s"@, None, Rat { n: 1099511627776, d: 1 }),
    {
        let s = DataThroughput::declaration();
        match compile(&s) {
            Result::Ok(d) => {
                proof {
                    lemma_entry_unit(s, d, 0);
                    lemma_entry_unit(s, d, 1);
                    lemma_entry_unit(s, d, 2);
                    lemma_entry_unit(s, d, 3);
                    lemma_entry_unit(s, d, 4);
                    lemma_entry_unit(s, d, 5);
                    lemma_entry_unit(s, d, 6);
                    lemma_entry_unit(s, d, 7);
                    lemma_entry_unit(s, d, 8);
                    lemma_entry_unit(s, d, 9);
                    lemma_entry_unit(s, d, 10);
                    lemma_entry_unit(s, d, 11);
                    lemma_entry_unit(s, d, 12);
                    lemma_entry_unit(s, d, 13);
                    lemma_entry_unit(s, d, 14);
                    lemma_entry_unit(s, d, 15);
                    lemma_entry_unit(s, d, 16);
                    lemma_entry_unit(s, d, 17);
                }
                d
            },
            Result::Err(_) => {
                // Unreachable: the declaration is valid.
                proof {
                    assert(false);
                }
                QtyDef { ident: String::new(), derived: None, ref_unit: None, units: Vec::new() }
            },
        }
    }
}

} // verus!
