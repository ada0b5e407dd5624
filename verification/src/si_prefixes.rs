//! The SI prefix table: the canonical magnitude prefixes from 10^-24 to
//! 10^24, with name, abbreviation and exponent lookups in both directions.

use vstd::prelude::*;

verus! {

/// Enum of unit prefixes defined for the System of Units (SI).
///
/// These prefixes can be added to unit names to name multiples and
/// submultiples of the original unit.
#[allow(non_camel_case_types)]
#[derive(Copy, Clone, Debug, PartialEq, Eq, Structural)]
pub enum SIPrefix {
    /// 10^-24
    YOCTO,
    /// 10^-21
    ZEPTO,
    /// 10^-18
    ATTO,
    /// 10^-15
    FEMTO,
    /// 10^-12
    PICO,
    /// 10^-9
    NANO,
    /// 10^-6
    MICRO,
    /// 10^-3
    MILLI,
    /// 10^-2
    CENTI,
    /// 10^-1
    DECI,
    /// 10^0
    NONE,
    /// 10^1
    DECA,
    /// 10^2
    HECTO,
    /// 10^3
    KILO,
    /// 10^6
    MEGA,
    /// 10^9
    GIGA,
    /// 10^12
    TERA,
    /// 10^15
    PETA,
    /// 10^18
    EXA,
    /// 10^21
    ZETTA,
    /// 10^24
    YOTTA,
}

impl SIPrefix {
    /// The exponent of base 10 this prefix stands for.
    pub open spec fn exp_spec(self) -> int {
        match self {
            SIPrefix::YOCTO => -24,
            SIPrefix::ZEPTO => -21,
            SIPrefix::ATTO => -18,
            SIPrefix::FEMTO => -15,
            SIPrefix::PICO => -12,
            SIPrefix::NANO => -9,
            SIPrefix::MICRO => -6,
            SIPrefix::MILLI => -3,
            SIPrefix::CENTI => -2,
            SIPrefix::DECI => -1,
            SIPrefix::NONE => 0,
            SIPrefix::DECA => 1,
            SIPrefix::HECTO => 2,
            SIPrefix::KILO => 3,
            SIPrefix::MEGA => 6,
            SIPrefix::GIGA => 9,
            SIPrefix::TERA => 12,
            SIPrefix::PETA => 15,
            SIPrefix::EXA => 18,
            SIPrefix::ZETTA => 21,
            SIPrefix::YOTTA => 24,
        }
    }

    /// The name of this prefix.
    pub open spec fn name_spec(self) -> Seq<char> {
        match self {
            SIPrefix::YOCTO => "Yocto"@,
            SIPrefix::ZEPTO => "Zepto"@,
            SIPrefix::ATTO => "Atto"@,
            SIPrefix::FEMTO => "Femto"@,
            SIPrefix::PICO => "Pico"@,
            SIPrefix::NANO => "Nano"@,
            SIPrefix::MICRO => "Micro"@,
            SIPrefix::MILLI => "Milli"@,
            SIPrefix::CENTI => "Centi"@,
            SIPrefix::DECI => "Deci"@,
            SIPrefix::NONE => ""@,
            SIPrefix::DECA => "Deca"@,
            SIPrefix::HECTO => "Hecto"@,
            SIPrefix::KILO => "Kilo"@,
            SIPrefix::MEGA => "Mega"@,
            SIPrefix::GIGA => "Giga"@,
            SIPrefix::TERA => "Tera"@,
            SIPrefix::PETA => "Peta"@,
            SIPrefix::EXA => "Exa"@,
            SIPrefix::ZETTA => "Zetta"@,
            SIPrefix::YOTTA => "Yotta"@,
        }
    }

    /// The abbreviation of this prefix.
    pub open spec fn abbr_spec(self) -> Seq<char> {
        match self {
            SIPrefix::YOCTO => "y"@,
            SIPrefix::ZEPTO => "z"@,
            SIPrefix::ATTO => "a"@,
            SIPrefix::FEMTO => "f"@,
            SIPrefix::PICO => "p"@,
            SIPrefix::NANO => "n"@,
            SIPrefix::MICRO => "µ"@,
            SIPrefix::MILLI => "m"@,
            SIPrefix::CENTI => "c"@,
            SIPrefix::DECI => "d"@,
            SIPrefix::NONE => ""@,
            SIPrefix::DECA => "da"@,
            SIPrefix::HECTO => "h"@,
            SIPrefix::KILO => "k"@,
            SIPrefix::MEGA => "M"@,
            SIPrefix::GIGA => "G"@,
            SIPrefix::TERA => "T"@,
            SIPrefix::PETA => "P"@,
            SIPrefix::EXA => "E"@,
            SIPrefix::ZETTA => "Z"@,
            SIPrefix::YOTTA => "Y"@,
        }
    }

    /// Returns the name of `self`.
    pub fn name(&self) -> (r: &'static str)
        ensures
            r@ == self.name_spec(),
    {
        match self {
            SIPrefix::YOCTO => "Yocto",
            SIPrefix::ZEPTO => "Zepto",
            SIPrefix::ATTO => "Atto",
            SIPrefix::FEMTO => "Femto",
            SIPrefix::PICO => "Pico",
            SIPrefix::NANO => "Nano",
            SIPrefix::MICRO => "Micro",
            SIPrefix::MILLI => "Milli",
            SIPrefix::CENTI => "Centi",
            SIPrefix::DECI => "Deci",
            SIPrefix::NONE => "",
            SIPrefix::DECA => "Deca",
            SIPrefix::HECTO => "Hecto",
            SIPrefix::KILO => "Kilo",
            SIPrefix::MEGA => "Mega",
            SIPrefix::GIGA => "Giga",
            SIPrefix::TERA => "Tera",
            SIPrefix::PETA => "Peta",
            SIPrefix::EXA => "Exa",
            SIPrefix::ZETTA => "Zetta",
            SIPrefix::YOTTA => "Yotta",
        }
    }

    /// Returns the abbreviation used to represent `self`.
    pub fn abbr(&self) -> (r: &'static str)
        ensures
            r@ == self.abbr_spec(),
    {
        match self {
            SIPrefix::YOCTO => "y",
            SIPrefix::ZEPTO => "z",
            SIPrefix::ATTO => "a",
            SIPrefix::FEMTO => "f",
            SIPrefix::PICO => "p",
            SIPrefix::NANO => "n",
            SIPrefix::MICRO => "µ",
            SIPrefix::MILLI => "m",
            SIPrefix::CENTI => "c",
            SIPrefix::DECI => "d",
            SIPrefix::NONE => "",
            SIPrefix::DECA => "da",
            SIPrefix::HECTO => "h",
            SIPrefix::KILO => "k",
            SIPrefix::MEGA => "M",
            SIPrefix::GIGA => "G",
            SIPrefix::TERA => "T",
            SIPrefix::PETA => "P",
            SIPrefix::EXA => "E",
            SIPrefix::ZETTA => "Z",
            SIPrefix::YOTTA => "Y",
        }
    }

    /// Returns the exponent of base 10 represented by `self`.
    pub fn exp(&self) -> (r: i8)
        ensures
            r as int == self.exp_spec(),
    {
        match self {
            SIPrefix::YOCTO => -24,
            SIPrefix::ZEPTO => -21,
            SIPrefix::ATTO => -18,
            SIPrefix::FEMTO => -15,
            SIPrefix::PICO => -12,
            SIPrefix::NANO => -9,
            SIPrefix::MICRO => -6,
            SIPrefix::MILLI => -3,
            SIPrefix::CENTI => -2,
            SIPrefix::DECI => -1,
            SIPrefix::NONE => 0,
            SIPrefix::DECA => 1,
            SIPrefix::HECTO => 2,
            SIPrefix::KILO => 3,
            SIPrefix::MEGA => 6,
            SIPrefix::GIGA => 9,
            SIPrefix::TERA => 12,
            SIPrefix::PETA => 15,
            SIPrefix::EXA => 18,
            SIPrefix::ZETTA => 21,
            SIPrefix::YOTTA => 24,
        }
    }

    /// The prefix with the given exponent, if the table has one.
    pub open spec fn exp_to_prefix(e: int) -> Option<SIPrefix> {
        if e == -24 {
            Some(SIPrefix::YOCTO)
        } else if e == -21 {
            Some(SIPrefix::ZEPTO)
        } else if e == -18 {
            Some(SIPrefix::ATTO)
        } else if e == -15 {
            Some(SIPrefix::FEMTO)
        } else if e == -12 {
            Some(SIPrefix::PICO)
        } else if e == -9 {
            Some(SIPrefix::NANO)
        } else if e == -6 {
            Some(SIPrefix::MICRO)
        } else if e == -3 {
            Some(SIPrefix::MILLI)
        } else if e == -2 {
            Some(SIPrefix::CENTI)
        } else if e == -1 {
            Some(SIPrefix::DECI)
        } else if e == 0 {
            Some(SIPrefix::NONE)
        } else if e == 1 {
            Some(SIPrefix::DECA)
        } else if e == 2 {
            Some(SIPrefix::HECTO)
        } else if e == 3 {
            Some(SIPrefix::KILO)
        } else if e == 6 {
            Some(SIPrefix::MEGA)
        } else if e == 9 {
            Some(SIPrefix::GIGA)
        } else if e == 12 {
            Some(SIPrefix::TERA)
        } else if e == 15 {
            Some(SIPrefix::PETA)
        } else if e == 18 {
            Some(SIPrefix::EXA)
        } else if e == 21 {
            Some(SIPrefix::ZETTA)
        } else if e == 24 {
            Some(SIPrefix::YOTTA)
        } else {
            None
        }
    }

    /// Returns the SI prefix with the exponent `exp`, or `None` if there is
    /// no such SI prefix.
    pub fn from_exp(exp: i8) -> (r: Option<SIPrefix>)
        ensures
            r == SIPrefix::exp_to_prefix(exp as int),
            r is Some ==> r->Some_0.exp_spec() == exp as int,
    {
        match exp {
            -24 => Some(SIPrefix::YOCTO),
            -21 => Some(SIPrefix::ZEPTO),
            -18 => Some(SIPrefix::ATTO),
            -15 => Some(SIPrefix::FEMTO),
            -12 => Some(SIPrefix::PICO),
            -9 => Some(SIPrefix::NANO),
            -6 => Some(SIPrefix::MICRO),
            -3 => Some(SIPrefix::MILLI),
            -2 => Some(SIPrefix::CENTI),
            -1 => Some(SIPrefix::DECI),
            0 => Some(SIPrefix::NONE),
            1 => Some(SIPrefix::DECA),
            2 => Some(SIPrefix::HECTO),
            3 => Some(SIPrefix::KILO),
            6 => Some(SIPrefix::MEGA),
            9 => Some(SIPrefix::GIGA),
            12 => Some(SIPrefix::TERA),
            15 => Some(SIPrefix::PETA),
            18 => Some(SIPrefix::EXA),
            21 => Some(SIPrefix::ZETTA),
            24 => Some(SIPrefix::YOTTA),
            _ => None,
        }
    }

    /// The prefix with the given abbreviation, if the table has one.
    pub open spec fn abbr_to_prefix(s: Seq<char>) -> Option<SIPrefix> {
        if s == "y"@ {
            Some(SIPrefix::YOCTO)
        } else if s == "z"@ {
            Some(SIPrefix::ZEPTO)
        } else if s == "a"@ {
            Some(SIPrefix::ATTO)
        } else if s == "f"@ {
            Some(SIPrefix::FEMTO)
        } else if s == "p"@ {
            Some(SIPrefix::PICO)
        } else if s == "n"@ {
            Some(SIPrefix::NANO)
        } else if s == "µ"@ {
            Some(SIPrefix::MICRO)
        } else if s == "m"@ {
            Some(SIPrefix::MILLI)
        } else if s == "c"@ {
            Some(SIPrefix::CENTI)
        } else if s == "d"@ {
            Some(SIPrefix::DECI)
        } else if s == ""@ {
            Some(SIPrefix::NONE)
        } else if s == "da"@ {
            Some(SIPrefix::DECA)
        } else if s == "h"@ {
            Some(SIPrefix::HECTO)
        } else if s == "k"@ {
            Some(SIPrefix::KILO)
        } else if s == "M"@ {
            Some(SIPrefix::MEGA)
        } else if s == "G"@ {
            Some(SIPrefix::GIGA)
        } else if s == "T"@ {
            Some(SIPrefix::TERA)
        } else if s == "P"@ {
            Some(SIPrefix::PETA)
        } else if s == "E"@ {
            Some(SIPrefix::EXA)
        } else if s == "Z"@ {
            Some(SIPrefix::ZETTA)
        } else if s == "Y"@ {
            Some(SIPrefix::YOTTA)
        } else {
            None
        }
    }

    /// Returns the SI prefix with the abbreviation `abbr`, or `None` if
    /// there is no such SI prefix.
    pub fn from_abbr(abbr: &str) -> (r: Option<SIPrefix>)
        ensures
            r == SIPrefix::abbr_to_prefix(abbr@),
    {
        let a = abbr.to_owned();
        if a == "y".to_owned() {
            Some(SIPrefix::YOCTO)
        } else if a == "z".to_owned() {
            Some(SIPrefix::ZEPTO)
        } else if a == "a".to_owned() {
            Some(SIPrefix::ATTO)
        } else if a == "f".to_owned() {
            Some(SIPrefix::FEMTO)
        } else if a == "p".to_owned() {
            Some(SIPrefix::PICO)
        } else if a == "n".to_owned() {
            Some(SIPrefix::NANO)
        } else if a == "µ".to_owned() {
            Some(SIPrefix::MICRO)
        } else if a == "m".to_owned() {
            Some(SIPrefix::MILLI)
        } else if a == "c".to_owned() {
            Some(SIPrefix::CENTI)
        } else if a == "d".to_owned() {
            Some(SIPrefix::DECI)
        } else if a == "".to_owned() {
            Some(SIPrefix::NONE)
        } else if a == "da".to_owned() {
            Some(SIPrefix::DECA)
        } else if a == "h".to_owned() {
            Some(SIPrefix::HECTO)
        } else if a == "k".to_owned() {
            Some(SIPrefix::KILO)
        } else if a == "M".to_owned() {
            Some(SIPrefix::MEGA)
        } else if a == "G".to_owned() {
            Some(SIPrefix::GIGA)
        } else if a == "T".to_owned() {
            Some(SIPrefix::TERA)
        } else if a == "P".to_owned() {
            Some(SIPrefix::PETA)
        } else if a == "E".to_owned() {
            Some(SIPrefix::EXA)
        } else if a == "Z".to_owned() {
            Some(SIPrefix::ZETTA)
        } else if a == "Y".to_owned() {
            Some(SIPrefix::YOTTA)
        } else {
            None
        }
    }

    /// All prefixes in ascending order of exponent.
    pub open spec fn variants_seq() -> Seq<SIPrefix> {
        seq![
            SIPrefix::YOCTO,
            SIPrefix::ZEPTO,
            SIPrefix::ATTO,
            SIPrefix::FEMTO,
            SIPrefix::PICO,
            SIPrefix::NANO,
            SIPrefix::MICRO,
            SIPrefix::MILLI,
            SIPrefix::CENTI,
            SIPrefix::DECI,
            SIPrefix::NONE,
            SIPrefix::DECA,
            SIPrefix::HECTO,
            SIPrefix::KILO,
            SIPrefix::MEGA,
            SIPrefix::GIGA,
            SIPrefix::TERA,
            SIPrefix::PETA,
            SIPrefix::EXA,
            SIPrefix::ZETTA,
            SIPrefix::YOTTA,
        ]
    }

    /// Returns all variants of `Self`, in ascending order of exponent.
    pub fn variants() -> (r: Vec<SIPrefix>)
        ensures
            r@ =~= SIPrefix::variants_seq(),
    {
        let r: Vec<SIPrefix> = vec![
            SIPrefix::YOCTO,
            SIPrefix::ZEPTO,
            SIPrefix::ATTO,
            SIPrefix::FEMTO,
            SIPrefix::PICO,
            SIPrefix::NANO,
            SIPrefix::MICRO,
            SIPrefix::MILLI,
            SIPrefix::CENTI,
            SIPrefix::DECI,
            SIPrefix::NONE,
            SIPrefix::DECA,
            SIPrefix::HECTO,
            SIPrefix::KILO,
            SIPrefix::MEGA,
            SIPrefix::GIGA,
            SIPrefix::TERA,
            SIPrefix::PETA,
            SIPrefix::EXA,
            SIPrefix::ZETTA,
            SIPrefix::YOTTA,
        ];
        r
    }
}

} // verus!
