//! The quantity-definition compiler.
//!
//! A quantity is declared as a [`QtySpec`]: an identifier, an optional
//! derivation expression, and a list of unit entries of which at most one
//! is marked as the reference unit.  [`compile`] validates the declaration
//! and produces the runtime [`QtyDef`] table: display names are derived
//! from the identifiers, the reference unit receives scale one, and the
//! units are sorted by ascending scale (with a reference unit) or by
//! display name (without one).

use crate::amount::{rat_int, rat_inv, rat_le, rat_lt, Amount, Rat};
use crate::qty::{bytes_lt, bytes_of, lex_lt, lex_lt_from, Derivation, QtyDef, UnitDef};
use crate::si_prefixes::SIPrefix;
use vstd::prelude::*;

verus! {

/// One unit entry of a quantity declaration.
pub struct UnitEntry {
    /// This entry declares the reference unit.
    pub is_ref: bool,
    /// Identifier of the unit; underscores read as spaces in the display
    /// name.
    pub ident: String,
    /// Symbol used to render values of this unit.
    pub symbol: String,
    /// SI prefix, for units that carry one.
    pub si_prefix: Option<SIPrefix>,
    /// Scale relative to the reference unit.  Mandatory for every
    /// non-reference unit of a quantity with a reference unit; not allowed
    /// anywhere else.
    pub scale: Option<Amount>,
    /// Documentation for the unit.
    pub doc: Option<String>,
}

/// A declarative quantity specification, the compiler's input.
pub struct QtySpec {
    /// Identifier of the quantity.
    pub ident: String,
    /// Derivation expression, for derived quantities.
    pub derived: Option<Derivation>,
    /// The declared units, in declaration order.
    pub entries: Vec<UnitEntry>,
}

/// The ways a quantity declaration can be malformed.
#[derive(Clone, Copy, Debug, PartialEq, Eq, Structural)]
pub enum SpecError {
    /// More than one entry is marked as the reference unit.
    MultipleRefUnits,
    /// No non-reference unit entry is present.
    NoUnits,
    /// The reference-unit entry carries a scale.
    ScaleOnRefUnit,
    /// A non-reference unit of a reference-unit quantity has no scale.
    MissingScale,
    /// A unit of a quantity without a reference unit carries a scale or an
    /// SI prefix.
    UnexpectedScaleOrPrefix,
    /// A declared scale is zero, negative or malformed.
    NonPositiveScale,
    /// A derivation expression names an empty operand.
    EmptyDerivationOperand,
}

/// The display name of an identifier: underscores become spaces.
pub open spec fn map_underscores(s: Seq<char>) -> Seq<char> {
    s.map_values(|c: char| if c == '_' { ' ' } else { c })
}

/// What `convert_case` turns a string into for UPPER_SNAKE constants.
pub uninterp spec fn upper_snake_of(s: Seq<char>) -> Seq<char>;

/// What `convert_case` turns a string into for UpperCamel identifiers.
pub uninterp spec fn upper_camel_of(s: Seq<char>) -> Seq<char>;

/// Relies on `str::replace` with a single-character pattern: every
/// underscore is replaced by a space and all other characters are kept.
#[verifier::external_body]
fn display_name(ident: &str) -> (r: String)
    ensures
        r@ == map_underscores(ident@),
{
    ident.replace('_', " ")
}

/// Relies on `convert_case::Casing::to_case` with `Case::UpperSnake`: the
/// result depends on the characters of the input alone.
#[verifier::external_body]
fn to_upper_snake(s: &str) -> (r: String)
    ensures
        r@ == upper_snake_of(s@),
{
    convert_case::Casing::to_case(&s, convert_case::Case::UpperSnake)
}

/// Relies on `convert_case::Casing::to_case` with `Case::UpperCamel`: the
/// result depends on the characters of the input alone.
#[verifier::external_body]
fn to_upper_camel(s: &str) -> (r: String)
    ensures
        r@ == upper_camel_of(s@),
{
    convert_case::Casing::to_case(&s, convert_case::Case::UpperCamel)
}

/// The constant name derived for each variant identifier, in order: the
/// UPPER_SNAKE form of the identifier.
pub fn variants_as_constants(idents: &Vec<String>) -> (r: Vec<String>)
    ensures
        r@.len() == idents@.len(),
        forall|i: int| 0 <= i < r@.len() ==> (#[trigger] r@[i])@ == upper_snake_of(idents@[i]@),
{
    let n = idents.len();
    let mut r: Vec<String> = Vec::new();
    let mut k: usize = 0;
    while k < n
        invariant
            n as int == idents@.len(),
            k as int == r@.len() <= n as int,
            forall|i: int| 0 <= i < r@.len() ==> (#[trigger] r@[i])@ == upper_snake_of(idents@[i]@),
        decreases n - k,
    {
        let c = to_upper_snake(idents[k].as_str());
        r.push(c);
        k = k + 1;
    }
    r
}

/// Number of reference-unit entries among the first `k`.
pub open spec fn count_refs(s: Seq<UnitEntry>, k: int) -> int
    decreases k,
{
    if k <= 0 {
        0
    } else {
        count_refs(s, k - 1) + if s[k - 1].is_ref {
            1int
        } else {
            0int
        }
    }
}

/// Number of reference-unit entries of the declaration.
pub open spec fn n_refs(s: QtySpec) -> int {
    count_refs(s.entries@, s.entries@.len() as int)
}

/// Number of non-reference unit entries of the declaration.
pub open spec fn n_nonref(s: QtySpec) -> int {
    s.entries@.len() - n_refs(s)
}

/// Index of the first reference-unit entry at or after `i`.
pub open spec fn ref_idx_from(s: Seq<UnitEntry>, i: int) -> int
    decreases s.len() - i,
{
    if i >= s.len() {
        i
    } else if s[i].is_ref {
        i
    } else {
        ref_idx_from(s, i + 1)
    }
}

/// Index of the reference-unit entry of the declaration.
pub open spec fn ref_entry_idx(s: QtySpec) -> int {
    ref_idx_from(s.entries@, 0)
}

/// A declared scale is acceptable: a well-formed, strictly positive
/// fraction.
pub open spec fn scale_acceptable(a: Amount) -> bool {
    a.inv() && a@.n >= 1
}

/// The error `compile` reports for a declaration, or `None` if the
/// declaration is valid.  The checks run in the order the compiler makes
/// them.
pub open spec fn compile_err(s: QtySpec) -> Option<SpecError> {
    let len = s.entries@.len() as int;
    if n_refs(s) >= 2 {
        Some(SpecError::MultipleRefUnits)
    } else if n_nonref(s) == 0 {
        Some(SpecError::NoUnits)
    } else if n_refs(s) == 1 && s.entries@[ref_entry_idx(s)].scale is Some {
        Some(SpecError::ScaleOnRefUnit)
    } else if n_refs(s) == 1 && (exists|j: int|
        0 <= j < len && !(#[trigger] s.entries@[j]).is_ref && s.entries@[j].scale is None) {
        Some(SpecError::MissingScale)
    } else if n_refs(s) == 1 && (exists|j: int|
        0 <= j < len && !(#[trigger] s.entries@[j]).is_ref && !scale_acceptable(
            s.entries@[j].scale->Some_0,
        )) {
        Some(SpecError::NonPositiveScale)
    } else if n_refs(s) == 0 && (exists|j: int|
        0 <= j < len && ((#[trigger] s.entries@[j]).scale is Some || s.entries@[j].si_prefix
            is Some)) {
        Some(SpecError::UnexpectedScaleOrPrefix)
    } else if match s.derived {
        Some(d) => d.lhs@.len() == 0 || d.rhs@.len() == 0,
        None => false,
    } {
        Some(SpecError::EmptyDerivationOperand)
    } else {
        None
    }
}

/// The entry declares exactly these fields: reference marker, identifier,
/// symbol, SI prefix, and scale (as a fraction in lowest terms).
pub open spec fn entry_is(
    e: UnitEntry,
    is_ref: bool,
    ident: Seq<char>,
    symbol: Seq<char>,
    si_prefix: Option<SIPrefix>,
    scale: Option<Rat>,
) -> bool {
    &&& e.is_ref == is_ref
    &&& e.ident@ == ident
    &&& e.symbol@ == symbol
    &&& e.si_prefix == si_prefix
    &&& match (e.scale, scale) {
        (Some(a), Some(r)) => a@ == r,
        (None, None) => true,
        _ => false,
    }
}

/// The compiled table has a unit declared under this identifier, with
/// this symbol, SI prefix, and scale (as stored, in lowest terms).
pub open spec fn has_scaled_unit(
    d: QtyDef,
    ident: Seq<char>,
    symbol: Seq<char>,
    si_prefix: Option<SIPrefix>,
    scale: Rat,
) -> bool {
    exists|i: int|
        d.unit_ok(i) && #[trigger] d.sym_at(i) == symbol && d.name_at(i) == map_underscores(ident)
            && d.units@[i].variant@ == upper_camel_of(ident) && d.prefix_at(i) == si_prefix
            && d.scale_at(i) == scale
}

/// The compiled table has a unit declared under this identifier and
/// symbol, with neither scale nor SI prefix.
pub open spec fn has_plain_unit(d: QtyDef, ident: Seq<char>, symbol: Seq<char>) -> bool {
    exists|i: int|
        d.unit_ok(i) && #[trigger] d.sym_at(i) == symbol && d.name_at(i) == map_underscores(ident)
            && d.units@[i].variant@ == upper_camel_of(ident) && d.units@[i].scale is None
            && d.units@[i].si_prefix is None
}

/// The compiled unit was built from this entry: same symbol and prefix,
/// the display name and variant identifier derived from the identifier,
/// and the declared scale (scale one for the reference unit).  Units of a
/// quantity without a reference unit carry neither scale nor prefix.
pub open spec fn udef_matches_entry(u: UnitDef, e: UnitEntry, with_ref: bool) -> bool {
    &&& u.name@ == map_underscores(e.ident@)
    &&& u.variant@ == upper_camel_of(e.ident@)
    &&& u.symbol@ == e.symbol@
    &&& if with_ref {
        &&& u.si_prefix == e.si_prefix
        &&& u.scale is Some
        &&& if e.is_ref {
            u.scale->Some_0@ == rat_int(1)
        } else {
            e.scale is Some && u.scale->Some_0 == e.scale->Some_0
        }
    } else {
        u.scale is None && u.si_prefix is None
    }
}

/// The compiled definition `d` is what the declaration `s` describes:
/// same identifier and derivation, one unit per entry, each built from
/// one of the entries, and the whole table well formed (sorted, with the
/// reference unit resolved to scale one).
pub open spec fn compiled_from(s: QtySpec, d: QtyDef) -> bool {
    &&& d.ident@ == s.ident@
    &&& match (d.derived, s.derived) {
        (Some(a), Some(b)) => a.lhs@ == b.lhs@ && a.op == b.op && a.rhs@ == b.rhs@,
        (None, None) => true,
        _ => false,
    }
    &&& d.wf()
    &&& d.units@.len() == s.entries@.len()
    &&& (d.has_ref() <==> n_refs(s) == 1)
    &&& d.has_ref() ==> udef_matches_entry(
        d.units@[d.ref_idx()],
        s.entries@[ref_entry_idx(s)],
        true,
    )
    &&& forall|i: int|
        0 <= i < d.units@.len() ==> exists|j: int|
            0 <= j < s.entries@.len() && udef_matches_entry(
                #[trigger] d.units@[i],
                s.entries@[j],
                d.has_ref(),
            )
    &&& forall|j: int|
        0 <= j < s.entries@.len() ==> exists|i: int|
            0 <= i < d.units@.len() && udef_matches_entry(
                d.units@[i],
                #[trigger] s.entries@[j],
                d.has_ref(),
            )
}

/// Every unit of the sequence carries an acceptable scale.
pub open spec fn units_scales_wf(s: Seq<UnitDef>) -> bool {
    forall|i: int|
        0 <= i < s.len() ==> (#[trigger] s[i]).scale is Some && rat_inv(s[i].scale->Some_0@)
            && s[i].scale->Some_0@.n >= 1
}

/// The sequence is sorted by ascending scale.
pub open spec fn units_scale_sorted(s: Seq<UnitDef>) -> bool {
    forall|i: int, j: int|
        0 <= i <= j < s.len() ==> rat_le(
            (#[trigger] s[i]).scale->Some_0@,
            (#[trigger] s[j]).scale->Some_0@,
        )
}

/// The sequence is sorted by ascending display name.
pub open spec fn units_name_sorted(s: Seq<UnitDef>) -> bool {
    forall|i: int, j: int|
        0 <= i < j < s.len() ==> !lex_lt(
            bytes_of((#[trigger] s[j]).name@),
            bytes_of((#[trigger] s[i]).name@),
        )
}

/// Strict lexicographic order is asymmetric.
proof fn lemma_lex_asym(a: Seq<u8>, b: Seq<u8>, k: int)
    requires
        0 <= k,
        lex_lt_from(a, b, k),
    ensures
        !lex_lt_from(b, a, k),
    decreases b.len() - k,
{
    if k < b.len() && k < a.len() && a[k] == b[k] {
        lemma_lex_asym(a, b, k + 1);
    }
}

/// Strict lexicographic order is transitive.
proof fn lemma_lex_trans(a: Seq<u8>, b: Seq<u8>, c: Seq<u8>, k: int)
    requires
        0 <= k,
        lex_lt_from(a, b, k),
        lex_lt_from(b, c, k),
    ensures
        lex_lt_from(a, c, k),
    decreases c.len() - k,
{
    if k < a.len() && k < b.len() && k < c.len() && a[k] == b[k] && b[k] == c[k] {
        lemma_lex_trans(a, b, c, k + 1);
    }
}

/// The position where a unit of scale `su` is inserted to keep the table
/// sorted: after every unit of no greater scale.
fn scale_pos(out: &Vec<UnitDef>, su: &Amount) -> (p: usize)
    requires
        units_scales_wf(out@),
        su.inv(),
    ensures
        p as int <= out@.len(),
        forall|i: int| 0 <= i < p as int ==> !rat_lt(su@, (#[trigger] out@[i]).scale->Some_0@),
        (p as int) < out@.len() ==> rat_lt(su@, out@[p as int].scale->Some_0@),
{
    let n = out.len();
    let mut p: usize = 0;
    while p < n
        invariant
            units_scales_wf(out@),
            n as int == out@.len(),
            p <= n,
            su.inv(),
            forall|i: int|
                0 <= i < p as int ==> !rat_lt(su@, (#[trigger] out@[i]).scale->Some_0@),
        decreases n - p,
    {
        let so = match &out[p].scale {
            Some(s) => *s,
            None => Amount::from_int(1),  // cannot happen: the scale is present
        };
        if su.lt(&so) {
            return p;
        }
        p = p + 1;
    }
    p
}

/// The position where a unit of display name `name` is inserted to keep
/// the table sorted: after every unit whose name is no greater.
fn name_pos(out: &Vec<UnitDef>, name: &String) -> (p: usize)
    ensures
        p as int <= out@.len(),
        forall|i: int|
            0 <= i < p as int ==> !lex_lt(bytes_of(name@), bytes_of((#[trigger] out@[i]).name@)),
        (p as int) < out@.len() ==> lex_lt(bytes_of(name@), bytes_of(out@[p as int].name@)),
{
    let n = out.len();
    let mut p: usize = 0;
    while p < n
        invariant
            n as int == out@.len(),
            p <= n,
            forall|i: int|
                0 <= i < p as int ==> !lex_lt(
                    bytes_of(name@),
                    bytes_of((#[trigger] out@[i]).name@),
                ),
        decreases n - p,
    {
        if bytes_lt(name.as_str().as_bytes(), out[p].name.as_str().as_bytes()) {
            return p;
        }
        p = p + 1;
    }
    p
}

/// Inserts a unit into a scale-sorted table, after any unit of equal
/// scale, and reports where it landed.
fn insert_by_scale(out: &mut Vec<UnitDef>, u: UnitDef) -> (p: usize)
    requires
        units_scale_sorted(old(out)@),
        units_scales_wf(old(out)@),
        u.scale is Some,
        rat_inv(u.scale->Some_0@),
        u.scale->Some_0@.n >= 1,
        old(out)@.len() < usize::MAX as int,
    ensures
        final(out)@ == old(out)@.insert(p as int, u),
        p as int <= old(out)@.len(),
        units_scale_sorted(final(out)@),
        units_scales_wf(final(out)@),
        forall|i: int| 0 <= i < p as int ==> final(out)@[i] == old(out)@[i],
        forall|i: int| (p as int) < i < final(out)@.len() ==> final(out)@[i] == old(out)@[i - 1],
        final(out)@[p as int] == u,
        forall|j: int|
            0 <= j < old(out)@.len() ==> exists|i: int|
                0 <= i < final(out)@.len() && final(out)@[i] == #[trigger] old(out)@[j],
        forall|i: int|
            0 <= i < final(out)@.len() ==> (exists|j: int|
                0 <= j < old(out)@.len() && #[trigger] final(out)@[i] == old(out)@[j]) || final(
            out)@[i] == u,
{
    let su = match &u.scale {
        Some(s) => *s,
        None => Amount::from_int(1),  // cannot happen: the scale is present
    };
    let p = scale_pos(out, &su);
    let ghost pre = out@;
    out.insert(p, u);
    proof {
        assert forall|i: int, j: int| 0 <= i <= j < out@.len() implies rat_le(
            (#[trigger] out@[i]).scale->Some_0@,
            (#[trigger] out@[j]).scale->Some_0@,
        ) by {
            let pi = p as int;
            if i < pi && j == pi {
                assert(!rat_lt(su@, pre[i].scale->Some_0@));
            } else if i == pi && j > pi {
                if pi < pre.len() {
                    assert(rat_lt(su@, pre[pi].scale->Some_0@));
                    assert(rat_le(pre[pi].scale->Some_0@, pre[j - 1].scale->Some_0@));
                    crate::amount::lemma_rat_le_trans(
                        su@,
                        pre[pi].scale->Some_0@,
                        pre[j - 1].scale->Some_0@,
                    );
                }
            }
        }
        assert forall|i: int| 0 <= i < out@.len() implies (#[trigger] out@[i]).scale is Some
            && rat_inv(out@[i].scale->Some_0@) && out@[i].scale->Some_0@.n >= 1 by {
            if i < p as int {
                assert(out@[i] == pre[i]);
            } else if i > p as int {
                assert(out@[i] == pre[i - 1]);
            }
        }
        assert forall|j: int| 0 <= j < pre.len() implies exists|i: int|
            0 <= i < out@.len() && out@[i] == #[trigger] pre[j] by {
            if j < p as int {
                assert(out@[j] == pre[j]);
            } else {
                assert(out@[j + 1] == pre[j]);
            }
        }
        assert forall|i: int| 0 <= i < out@.len() implies (exists|j: int|
            0 <= j < pre.len() && #[trigger] out@[i] == pre[j]) || out@[i] == u by {
            if i < p as int {
                assert(out@[i] == pre[i]);
            } else if i > p as int {
                assert(out@[i] == pre[i - 1]);
            }
        }
    }
    p
}

/// Inserts a unit into a name-sorted table, after any unit of equal name.
fn insert_by_name(out: &mut Vec<UnitDef>, u: UnitDef)
    requires
        units_name_sorted(old(out)@),
        old(out)@.len() < usize::MAX as int,
    ensures
        final(out)@.len() == old(out)@.len() + 1,
        units_name_sorted(final(out)@),
        forall|i: int|
            0 <= i < final(out)@.len() ==> (exists|j: int|
                0 <= j < old(out)@.len() && #[trigger] final(out)@[i] == old(out)@[j]) || final(
            out)@[i] == u,
        forall|j: int|
            0 <= j < old(out)@.len() ==> exists|i: int|
                0 <= i < final(out)@.len() && final(out)@[i] == #[trigger] old(out)@[j],
        exists|i: int| 0 <= i < final(out)@.len() && final(out)@[i] == u,
{
    let p = name_pos(out, &u.name);
    let ghost pre = out@;
    let ghost un = bytes_of(u.name@);
    out.insert(p, u);
    proof {
        assert forall|i: int, j: int| 0 <= i < j < out@.len() implies !lex_lt(
            bytes_of((#[trigger] out@[j]).name@),
            bytes_of((#[trigger] out@[i]).name@),
        ) by {
            let pi = p as int;
            if i < pi && j == pi {
                assert(!lex_lt(un, bytes_of(pre[i].name@)));
            } else if i == pi && j > pi {
                if pi < pre.len() {
                    assert(lex_lt(un, bytes_of(pre[pi].name@)));
                    lemma_lex_asym(un, bytes_of(pre[pi].name@), 0);
                    if lex_lt(bytes_of(pre[j - 1].name@), un) {
                        lemma_lex_trans(bytes_of(pre[j - 1].name@), un, bytes_of(pre[pi].name@), 0);
                        assert(!lex_lt(bytes_of(pre[j - 1].name@), bytes_of(pre[pi].name@)));
                        assert(false);
                    }
                }
            }
        }
        assert forall|i: int| 0 <= i < out@.len() implies (exists|j: int|
            0 <= j < pre.len() && #[trigger] out@[i] == pre[j]) || out@[i] == u by {
            if i < p as int {
                assert(out@[i] == pre[i]);
            } else if i > p as int {
                assert(out@[i] == pre[i - 1]);
            }
        }
        assert forall|j: int| 0 <= j < pre.len() implies exists|i: int|
            0 <= i < out@.len() && out@[i] == #[trigger] pre[j] by {
            if j < p as int {
                assert(out@[j] == pre[j]);
            } else {
                assert(out@[j + 1] == pre[j]);
            }
        }
        assert(out@[p as int] == u);
    }
}

/// The UPPER_SNAKE constant name for each unit of a compiled definition,
/// derived from its variant identifier, in table order.
pub fn unit_constants(d: &QtyDef) -> (r: Vec<String>)
    ensures
        r@.len() == d.units@.len(),
        forall|i: int|
            0 <= i < r@.len() ==> (#[trigger] r@[i])@ == upper_snake_of(d.units@[i].variant@),
{
    let n = d.units.len();
    let mut r: Vec<String> = Vec::new();
    let mut k: usize = 0;
    while k < n
        invariant
            n as int == d.units@.len(),
            k as int == r@.len() <= n as int,
            forall|i: int|
                0 <= i < r@.len() ==> (#[trigger] r@[i])@ == upper_snake_of(d.units@[i].variant@),
        decreases n - k,
    {
        let c = to_upper_snake(d.units[k].variant.as_str());
        r.push(c);
        k = k + 1;
    }
    r
}

/// Every entry of a valid declaration stands in the compiled table: the
/// matching unit carries the entry's identifier-derived names, symbol,
/// prefix, and scale (scale one for the reference entry).
pub proof fn lemma_entry_unit(s: QtySpec, d: QtyDef, j: int)
    requires
        compiled_from(s, d),
        0 <= j < s.entries@.len(),
    ensures
        d.has_ref() && s.entries@[j].is_ref ==> has_scaled_unit(
            d,
            s.entries@[j].ident@,
            s.entries@[j].symbol@,
            s.entries@[j].si_prefix,
            rat_int(1),
        ),
        d.has_ref() && !s.entries@[j].is_ref ==> has_scaled_unit(
            d,
            s.entries@[j].ident@,
            s.entries@[j].symbol@,
            s.entries@[j].si_prefix,
            s.entries@[j].scale->Some_0@,
        ),
        !d.has_ref() ==> has_plain_unit(d, s.entries@[j].ident@, s.entries@[j].symbol@),
{
    let i = choose|i: int|
        0 <= i < d.units@.len() && #[trigger] udef_matches_entry(
            d.units@[i],
            s.entries@[j],
            d.has_ref(),
        );
    assert(d.unit_ok(i) && d.sym_at(i) == s.entries@[j].symbol@);
}

/// Reference entries in a suffix without any do not change the count.
pub proof fn lemma_count_tail(es: Seq<UnitEntry>, i: int)
    requires
        0 <= i <= es.len(),
        forall|j: int| i <= j < es.len() ==> !(#[trigger] es[j]).is_ref,
    ensures
        count_refs(es, es.len() as int) == count_refs(es, i),
    decreases es.len() - i,
{
    if i < es.len() {
        lemma_count_tail(es, i + 1);
    }
}

/// A declaration whose first entry is the only reference entry has
/// exactly one.
pub proof fn lemma_single_leading_ref(es: Seq<UnitEntry>)
    requires
        es.len() >= 1,
        es[0].is_ref,
        forall|j: int| 1 <= j < es.len() ==> !(#[trigger] es[j]).is_ref,
    ensures
        count_refs(es, es.len() as int) == 1,
        ref_idx_from(es, 0) == 0,
{
    lemma_count_tail(es, 1);
    assert(count_refs(es, 1) == count_refs(es, 0) + 1);
}

/// A declaration with no reference entry counts zero.
pub proof fn lemma_no_refs(es: Seq<UnitEntry>)
    requires
        forall|j: int| 0 <= j < es.len() ==> !(#[trigger] es[j]).is_ref,
    ensures
        count_refs(es, es.len() as int) == 0,
{
    lemma_count_tail(es, 0);
}

/// Counting reference entries is monotone in the prefix length.
proof fn lemma_count_mono(s: Seq<UnitEntry>, a: int, b: int)
    requires
        0 <= a <= b,
    ensures
        count_refs(s, a) <= count_refs(s, b) <= count_refs(s, a) + (b - a),
    decreases b - a,
{
    if a < b {
        lemma_count_mono(s, a, b - 1);
    }
}

/// The first-reference search finds a known reference entry with no
/// earlier one.
proof fn lemma_ref_idx_from(s: Seq<UnitEntry>, i: int, w: int)
    requires
        0 <= i <= w < s.len(),
        s[w].is_ref,
        forall|j: int| i <= j < w ==> !(#[trigger] s[j]).is_ref,
    ensures
        ref_idx_from(s, i) == w,
    decreases w - i,
{
    if i < w {
        lemma_ref_idx_from(s, i + 1, w);
    }
}

/// Validates a declaration: reports the first problem, in the order
/// `compile_err` lists the checks, or `None` for a valid declaration.
fn validate(s: &QtySpec) -> (r: Option<SpecError>)
    ensures
        r == compile_err(*s),
{
    let len = s.entries.len();
    let mut cnt: usize = 0;
    let mut ref_i: usize = 0;
    let mut k: usize = 0;
    while k < len
        invariant
            len as int == s.entries@.len(),
            k <= len,
            cnt <= k,
            cnt as int == count_refs(s.entries@, k as int),
            cnt >= 1 ==> ref_i < k && s.entries@[ref_i as int].is_ref && ref_entry_idx(*s)
                == ref_i as int,
            cnt <= 1,
        decreases len - k,
    {
        if s.entries[k].is_ref {
            if cnt == 1 {
                proof {
                    lemma_count_mono(s.entries@, k as int + 1, len as int);
                }
                return Some(SpecError::MultipleRefUnits);
            }
            proof {
                assert forall|j: int| 0 <= j < k as int implies !(#[trigger] s.entries@[j]).is_ref
                    by {
                    lemma_count_mono(s.entries@, 0, j);
                    lemma_count_mono(s.entries@, j + 1, k as int);
                    assert(count_refs(s.entries@, j + 1) == count_refs(s.entries@, j) + if s.entries@[j].is_ref {
                        1int
                    } else {
                        0int
                    });
                }
                lemma_ref_idx_from(s.entries@, 0, k as int);
            }
            ref_i = k;
            cnt = cnt + 1;
        }
        k = k + 1;
    }
    if len - cnt == 0 {
        return Some(SpecError::NoUnits);
    }
    if cnt == 1 {
        if s.entries[ref_i].scale.is_some() {
            return Some(SpecError::ScaleOnRefUnit);
        }
        let mut j: usize = 0;
        while j < len
            invariant
                len as int == s.entries@.len(),
                j <= len,
                n_refs(*s) == 1,
                n_nonref(*s) >= 1,
                ref_i < len,
                ref_entry_idx(*s) == ref_i as int,
                s.entries@[ref_i as int].scale is None,
                forall|i: int|
                    0 <= i < j as int && !(#[trigger] s.entries@[i]).is_ref ==> s.entries@[i].scale
                        is Some,
            decreases len - j,
        {
            if !s.entries[j].is_ref && s.entries[j].scale.is_none() {
                proof {
                    assert(!s.entries@[j as int].is_ref && s.entries@[j as int].scale is None);
                }
                return Some(SpecError::MissingScale);
            }
            j = j + 1;
        }
        let mut j: usize = 0;
        while j < len
            invariant
                len as int == s.entries@.len(),
                j <= len,
                n_refs(*s) == 1,
                n_nonref(*s) >= 1,
                ref_i < len,
                ref_entry_idx(*s) == ref_i as int,
                s.entries@[ref_i as int].scale is None,
                forall|i: int|
                    0 <= i < len as int && !(#[trigger] s.entries@[i]).is_ref ==> s.entries@[i].scale
                        is Some,
                forall|i: int|
                    0 <= i < j as int && !(#[trigger] s.entries@[i]).is_ref ==> scale_acceptable(
                        s.entries@[i].scale->Some_0,
                    ),
            decreases len - j,
        {
            if !s.entries[j].is_ref {
                let ok = match &s.entries[j].scale {
                    Some(a) => a.valid_scale(),
                    None => false,
                };
                if !ok {
                    proof {
                        assert(!s.entries@[j as int].is_ref && !scale_acceptable(
                            s.entries@[j as int].scale->Some_0,
                        ));
                    }
                    return Some(SpecError::NonPositiveScale);
                }
            }
            j = j + 1;
        }
    } else {
        let mut j: usize = 0;
        while j < len
            invariant
                len as int == s.entries@.len(),
                j <= len,
                n_refs(*s) == 0,
                n_nonref(*s) >= 1,
                forall|i: int|
                    0 <= i < j as int ==> (#[trigger] s.entries@[i]).scale is None
                        && s.entries@[i].si_prefix is None,
            decreases len - j,
        {
            if s.entries[j].scale.is_some() || s.entries[j].si_prefix.is_some() {
                proof {
                    assert(s.entries@[j as int].scale is Some || s.entries@[j as int].si_prefix
                        is Some);
                }
                return Some(SpecError::UnexpectedScaleOrPrefix);
            }
            j = j + 1;
        }
    }
    match &s.derived {
        Some(d) => {
            if d.lhs.as_str().is_empty() || d.rhs.as_str().is_empty() {
                return Some(SpecError::EmptyDerivationOperand);
            }
        },
        None => {},
    }
    None
}

/// The index of the reference entry of a declaration already known to
/// have at most one.
fn find_ref(entries: &Vec<UnitEntry>) -> (r: Option<usize>)
    requires
        count_refs(entries@, entries@.len() as int) <= 1,
    ensures
        match r {
            Some(i) => count_refs(entries@, entries@.len() as int) == 1 && (i as int) < entries@.len()
                && entries@[i as int].is_ref && ref_idx_from(entries@, 0) == i as int,
            None => count_refs(entries@, entries@.len() as int) == 0,
        },
{
    let len = entries.len();
    let mut k: usize = 0;
    while k < len
        invariant
            len as int == entries@.len(),
            count_refs(entries@, len as int) <= 1,
            k <= len,
            count_refs(entries@, k as int) == 0,
            forall|j: int| 0 <= j < k as int ==> !(#[trigger] entries@[j]).is_ref,
        decreases len - k,
    {
        if entries[k].is_ref {
            proof {
                lemma_ref_idx_from(entries@, 0, k as int);
                assert(count_refs(entries@, k as int + 1) == 1);
                lemma_count_mono(entries@, k as int + 1, len as int);
                assert(count_refs(entries@, len as int) >= 1);
            }
            return Some(k);
        }
        k = k + 1;
    }
    None
}

/// Builds the compiled unit for one entry of a reference-unit quantity.
fn build_unit_with_ref(e: &UnitEntry) -> (u: UnitDef)
    requires
        e.is_ref || (e.scale is Some && scale_acceptable(e.scale->Some_0)),
    ensures
        udef_matches_entry(u, *e, true),
        u.scale is Some,
        rat_inv(u.scale->Some_0@),
        u.scale->Some_0@.n >= 1,
{
    let scale = if e.is_ref {
        Amount::from_int(1)
    } else {
        match &e.scale {
            Some(a) => *a,
            None => Amount::from_int(1),  // cannot happen: validation demands a scale
        }
    };
    UnitDef {
        name: display_name(e.ident.as_str()),
        variant: to_upper_camel(e.ident.as_str()),
        symbol: e.symbol.clone(),
        si_prefix: e.si_prefix,
        scale: Some(scale),
    }
}

/// Builds the compiled unit for one entry of a quantity without a
/// reference unit.
fn build_unit_no_ref(e: &UnitEntry) -> (u: UnitDef)
    ensures
        udef_matches_entry(u, *e, false),
{
    UnitDef {
        name: display_name(e.ident.as_str()),
        variant: to_upper_camel(e.ident.as_str()),
        symbol: e.symbol.clone(),
        si_prefix: None,
        scale: None,
    }
}

/// Compiles a quantity declaration into its runtime definition.
///
/// Fails, with the reported reason, exactly when the declaration has more
/// than one reference unit, no units, a scale on the reference unit, a
/// missing or non-positive scale where a reference unit demands one, a
/// scale or SI prefix where no reference unit allows one, or an empty
/// derivation operand.  On success the definition is well formed and
/// carries one unit per declared entry, in sorted order.
pub fn compile(s: &QtySpec) -> (r: Result<QtyDef, SpecError>)
    ensures
        match r {
            Result::Err(e) => compile_err(*s) == Some(e),
            Result::Ok(d) => compile_err(*s) is None && compiled_from(*s, d),
        },
{
    match validate(s) {
        Some(e) => Result::Err(e),
        None => {
            let ident = s.ident.clone();
            let derived = match &s.derived {
                Some(d) => Some(
                    Derivation { lhs: d.lhs.clone(), op: d.op, rhs: d.rhs.clone() },
                ),
                None => None,
            };
            match find_ref(&s.entries) {
                Some(ri) => Result::Ok(compile_with_ref(s, ident, derived, ri)),
                None => Result::Ok(compile_no_ref(s, ident, derived)),
            }
        },
    }
}

/// After inserting a unit matching entry `k` into a table whose elements
/// all survived the insertion, every entry matched before is still
/// matched, and so is entry `k`.
proof fn lemma_matched_after_insert(
    pre: Seq<UnitDef>,
    cur: Seq<UnitDef>,
    es: Seq<UnitEntry>,
    with_ref: bool,
    k: int,
    ri: int,
    u: UnitDef,
)
    requires
        0 <= k < es.len(),
        udef_matches_entry(u, es[k], with_ref),
        exists|i: int| 0 <= i < cur.len() && cur[i] == u,
        forall|jj: int|
            0 <= jj < pre.len() ==> exists|i: int| 0 <= i < cur.len() && cur[i] == #[trigger] pre[jj],
        forall|j: int|
            (0 <= j < k || j == ri) && j != k ==> exists|i: int|
                0 <= i < pre.len() && udef_matches_entry(pre[i], #[trigger] es[j], with_ref),
    ensures
        forall|j: int|
            (0 <= j < k + 1 || j == ri) ==> exists|i: int|
                0 <= i < cur.len() && udef_matches_entry(cur[i], #[trigger] es[j], with_ref),
{
    assert forall|j: int| (0 <= j < k + 1 || j == ri) implies exists|i: int|
        0 <= i < cur.len() && udef_matches_entry(cur[i], #[trigger] es[j], with_ref) by {
        if j == k {
            let wn = choose|i: int| 0 <= i < cur.len() && cur[i] == u;
            assert(udef_matches_entry(cur[wn], es[j], with_ref));
        } else {
            let w = choose|i: int|
                0 <= i < pre.len() && udef_matches_entry(pre[i], es[j], with_ref);
            let wn = choose|i: int| 0 <= i < cur.len() && cur[i] == #[trigger] pre[w];
            assert(udef_matches_entry(cur[wn], es[j], with_ref));
        }
    }
}

/// After an insertion whose every element is an old element or the new
/// unit, every element still matches some entry when the old ones did
/// and the new unit matches entry `k`.
proof fn lemma_all_match_after_insert(
    pre: Seq<UnitDef>,
    cur: Seq<UnitDef>,
    es: Seq<UnitEntry>,
    with_ref: bool,
    k: int,
    u: UnitDef,
)
    requires
        0 <= k < es.len(),
        udef_matches_entry(u, es[k], with_ref),
        forall|i: int|
            0 <= i < cur.len() ==> (exists|jj: int|
                0 <= jj < pre.len() && #[trigger] cur[i] == pre[jj]) || cur[i] == u,
        forall|i: int|
            0 <= i < pre.len() ==> exists|j: int|
                0 <= j < es.len() && udef_matches_entry(#[trigger] pre[i], es[j], with_ref),
    ensures
        forall|i: int|
            0 <= i < cur.len() ==> exists|j: int|
                0 <= j < es.len() && udef_matches_entry(#[trigger] cur[i], es[j], with_ref),
{
    assert forall|i: int| 0 <= i < cur.len() implies exists|j: int|
        0 <= j < es.len() && udef_matches_entry(#[trigger] cur[i], es[j], with_ref) by {
        if cur[i] == u {
            assert(udef_matches_entry(cur[i], es[k], with_ref));
        } else {
            let jj = choose|jj: int| 0 <= jj < pre.len() && cur[i] == #[trigger] pre[jj];
            let j = choose|j: int|
                0 <= j < es.len() && udef_matches_entry(pre[jj], #[trigger] es[j], with_ref);
            assert(udef_matches_entry(cur[i], es[j], with_ref));
        }
    }
}

/// Builds the sorted unit table of a reference-unit quantity.
#[verifier::rlimit(100)]
fn compile_with_ref(s: &QtySpec, ident: String, derived: Option<Derivation>, ri: usize) -> (d:
    QtyDef)
    requires
        compile_err(*s) is None,
        ident@ == s.ident@,
        match (derived, s.derived) {
            (Some(a), Some(b)) => a.lhs@ == b.lhs@ && a.op == b.op && a.rhs@ == b.rhs@,
            (None, None) => true,
            _ => false,
        },
        n_refs(*s) == 1,
        (ri as int) < s.entries@.len(),
        s.entries@[ri as int].is_ref,
        ref_idx_from(s.entries@, 0) == ri as int,
    ensures
        compiled_from(*s, d),
{
    let len = s.entries.len();
    let mut units: Vec<UnitDef> = Vec::new();
    let rdef = build_unit_with_ref(&s.entries[ri]);
    let mut ref_pos = insert_by_scale(&mut units, rdef);
    let mut k: usize = 0;
    while k < len
        invariant
            compile_err(*s) is None,
            n_refs(*s) == 1,
            len as int == s.entries@.len(),
            (ri as int) < s.entries@.len(),
            s.entries@[ri as int].is_ref,
            k <= len,
            units@.len() == 1 + k as int - (if (ri as int) < k as int {
                1int
            } else {
                0int
            }),
            units@.len() <= usize::MAX as int,
            units_scale_sorted(units@),
            units_scales_wf(units@),
            (ref_pos as int) < units@.len(),
            udef_matches_entry(units@[ref_pos as int], s.entries@[ri as int], true),
            forall|i: int|
                0 <= i < units@.len() ==> exists|j: int|
                    0 <= j < s.entries@.len() && udef_matches_entry(
                        #[trigger] units@[i],
                        s.entries@[j],
                        true,
                    ),
            forall|j: int|
                0 <= j < k as int || j == ri as int ==> exists|i: int|
                    0 <= i < units@.len() && udef_matches_entry(
                        units@[i],
                        #[trigger] s.entries@[j],
                        true,
                    ),
        decreases len - k,
    {
        if k != ri {
            let e = &s.entries[k];
            proof {
                assert(!s.entries@[k as int].is_ref) by {
                    if s.entries@[k as int].is_ref {
                        if (ri as int) < k as int {
                            lemma_two_refs(s.entries@, ri as int, k as int);
                        } else {
                            lemma_two_refs(s.entries@, k as int, ri as int);
                        }
                    }
                }
            }
            let udef = build_unit_with_ref(e);
            let ghost pre = units@;
            let ghost rp0 = ref_pos as int;
            let p = insert_by_scale(&mut units, udef);
            if p <= ref_pos {
                ref_pos = ref_pos + 1;
            }
            proof {
                if p as int <= rp0 {
                    assert(units@[rp0 + 1] == pre[rp0]);
                } else {
                    assert(units@[rp0] == pre[rp0]);
                }
                assert(units@[p as int] == udef);
                lemma_matched_after_insert(
                    pre,
                    units@,
                    s.entries@,
                    true,
                    k as int,
                    ri as int,
                    udef,
                );
                lemma_all_match_after_insert(pre, units@, s.entries@, true, k as int, udef);
            }
        }
        k = k + 1;
    }
    let d = QtyDef { ident, derived, ref_unit: Some(ref_pos), units };
    proof {
        lemma_wf_with_ref(*s, d, ri as int);
    }
    d
}

/// Two distinct reference entries contradict a single-reference count.
proof fn lemma_two_refs(s: Seq<UnitEntry>, a: int, b: int)
    requires
        0 <= a < b < s.len(),
        s[a].is_ref,
        s[b].is_ref,
    ensures
        count_refs(s, s.len() as int) >= 2,
{
    lemma_count_mono(s, 0, a);
    lemma_count_mono(s, a + 1, b);
    lemma_count_mono(s, b + 1, s.len() as int);
    assert(count_refs(s, a + 1) == count_refs(s, a) + 1);
    assert(count_refs(s, b + 1) == count_refs(s, b) + 1);
}

/// A scale-sorted table with the reference unit at scale one is a
/// well-formed reference-unit definition.
proof fn lemma_wf_with_ref(s: QtySpec, d: QtyDef, ri: int)
    requires
        d.ref_unit is Some,
        d.ref_idx() < d.units@.len(),
        1 <= d.units@.len() <= usize::MAX as int,
        units_scale_sorted(d.units@),
        units_scales_wf(d.units@),
        0 <= ri < s.entries@.len(),
        s.entries@[ri].is_ref,
        udef_matches_entry(d.units@[d.ref_idx()], s.entries@[ri], true),
    ensures
        d.wf(),
{
    assert forall|i: int| d.unit_ok(i) implies (#[trigger] d.units@[i].scale) is Some && rat_inv(
        d.scale_at(i),
    ) && d.scale_at(i).n >= 1 by {
        assert(d.units@[i].scale is Some);
    }
    assert(d.scale_at(d.ref_idx()) == rat_int(1));
    assert forall|i: int, j: int| 0 <= i <= j < d.units@.len() implies rat_le(
        #[trigger] d.scale_at(i),
        #[trigger] d.scale_at(j),
    ) by {
        assert(rat_le(d.units@[i].scale->Some_0@, d.units@[j].scale->Some_0@));
    }
}

/// Builds the sorted unit table of a quantity without a reference unit.
fn compile_no_ref(s: &QtySpec, ident: String, derived: Option<Derivation>) -> (d: QtyDef)
    requires
        compile_err(*s) is None,
        ident@ == s.ident@,
        match (derived, s.derived) {
            (Some(a), Some(b)) => a.lhs@ == b.lhs@ && a.op == b.op && a.rhs@ == b.rhs@,
            (None, None) => true,
            _ => false,
        },
        n_refs(*s) == 0,
    ensures
        compiled_from(*s, d),
{
    let len = s.entries.len();
    let mut units: Vec<UnitDef> = Vec::new();
    let mut k: usize = 0;
    while k < len
        invariant
            compile_err(*s) is None,
            n_refs(*s) == 0,
            len as int == s.entries@.len(),
            k <= len,
            units@.len() == k as int,
            units_name_sorted(units@),
            forall|i: int|
                0 <= i < units@.len() ==> exists|j: int|
                    0 <= j < s.entries@.len() && udef_matches_entry(
                        #[trigger] units@[i],
                        s.entries@[j],
                        false,
                    ),
            forall|j: int|
                0 <= j < k as int ==> exists|i: int|
                    0 <= i < units@.len() && udef_matches_entry(
                        units@[i],
                        #[trigger] s.entries@[j],
                        false,
                    ),
        decreases len - k,
    {
        let udef = build_unit_no_ref(&s.entries[k]);
        let ghost pre = units@;
        insert_by_name(&mut units, udef);
        proof {
            lemma_matched_after_insert(
                pre,
                units@,
                s.entries@,
                false,
                k as int,
                k as int,
                udef,
            );
            lemma_all_match_after_insert(pre, units@, s.entries@, false, k as int, udef);
        }
        k = k + 1;
    }
    let d = QtyDef { ident, derived, ref_unit: None, units };
    proof {
        assert forall|i: int| d.unit_ok(i) implies (#[trigger] d.units@[i].scale) is None by {
            let j = choose|j: int|
                0 <= j < s.entries@.len() && udef_matches_entry(d.units@[i], s.entries@[j], false);
        }
        assert forall|i: int| d.unit_ok(i) implies (#[trigger] d.units@[i].si_prefix) is None by {
            let j = choose|j: int|
                0 <= j < s.entries@.len() && udef_matches_entry(d.units@[i], s.entries@[j], false);
        }
        assert forall|i: int, j: int| 0 <= i < j < d.units@.len() implies !lex_lt(
            bytes_of(#[trigger] d.name_at(j)),
            bytes_of(#[trigger] d.name_at(i)),
        ) by {
            assert(!lex_lt(bytes_of(d.units@[j].name@), bytes_of(d.units@[i].name@)));
        }
    }
    d
}

} // verus!
