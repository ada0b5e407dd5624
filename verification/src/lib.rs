//! Unit-aware quantities: a definition compiler and a runtime
//! conversion/arithmetic engine.
//!
//! A quantity (Mass, Length, Speed, ...) is declared as a reference unit plus
//! a set of related units with fixed scale factors.  The definition compiler
//! validates such a declaration and produces a unit table; the engine then
//! offers exact conversion between units, unit-aware arithmetic and
//! comparison, best-fit unit selection, derived-quantity algebra
//! (Length / Duration -> Speed), ratios between quantities, and affine
//! conversion tables for quantities such as temperature.
//!
//! Amounts are exact rationals, so every conversion law proved here is exact
//! rational arithmetic rather than an approximation.

mod amount;
mod si_prefixes;
mod qty;
mod define;
mod algebra;
mod rate;
mod converter;
mod acceleration;
mod area;
mod datathroughput;
mod datavolume;
mod duration;
mod energy;
mod force;
mod frequency;
mod length;
mod mass;
mod power;
mod speed;
mod temperature;
mod volume;
mod unitless;
mod laws;
mod scales;

pub use amount::Amount;
pub use si_prefixes::SIPrefix;
pub use qty::{DerivOp, Derivation, Qty, QtyDef, UnitDef};
pub use define::{
    compile, entry_is, has_plain_unit, has_scaled_unit, lemma_entry_unit, unit_constants,
    variants_as_constants, QtySpec, SpecError, UnitEntry,
};
pub use algebra::{qty_div, qty_mul};
pub use rate::Rate;
pub use converter::{ConversionTable, Converter, Mapping};
pub use acceleration::Acceleration;
pub use area::Area;
pub use datathroughput::DataThroughput;
pub use datavolume::DataVolume;
pub use duration::Duration;
pub use energy::Energy;
pub use force::Force;
pub use frequency::Frequency;
pub use length::Length;
pub use mass::Mass;
pub use power::Power;
pub use speed::Speed;
pub use temperature::Temperature;
pub use volume::Volume;
pub use unitless::{unitless, One};
pub use temperature::temperature_converter;
pub use laws::{lemma_best_fit_exact, lemma_convert_round_trip, lemma_derived_closure, lemma_rate_applies, lemma_rate_one_step, lemma_ratio_round_trip, lemma_reciprocal_involution, lemma_unit_order};
