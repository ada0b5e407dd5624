//! Affine converters for quantities whose units are not related by pure
//! scale factors.
//!
//! A [`ConversionTable`] holds entries `(from_unit, to_unit, factor,
//! offset)` defining `to_amount = from_amount * factor + offset`.  The
//! table is searched linearly for the exact `(from, to)` pair; there is
//! no transitive chaining, so a caller must supply every pair it needs.
//! Converting a value to its own unit always succeeds unchanged.

use crate::amount::{
    add_fits, mul_fits, rat_add_norm, rat_canon, rat_mul, Amount, Rat,
};
use crate::qty::Qty;
use vstd::prelude::*;

verus! {

/// One mapping of a conversion table.
pub struct Mapping {
    /// Unit the conversion starts from.
    pub from_unit: usize,
    /// Unit the conversion leads to.
    pub to_unit: usize,
    /// Multiplicative factor.
    pub factor: Amount,
    /// Additive offset.
    pub offset: Amount,
}

/// Trait for quantity converters.
pub trait Converter {
    /// The inputs on which this converter is meant to be called.
    spec fn ok_to_convert(&self, qty: Qty, to_unit: int) -> bool;

    /// Whether a conversion is defined for this value and target unit.
    spec fn converts(&self, qty: Qty, to_unit: int) -> bool;

    /// What a successful conversion yields.
    spec fn result_ok(&self, qty: Qty, to_unit: int, r: Qty) -> bool;

    /// Returns `conv` where `conv` corresponds to `qty` and
    /// `conv.unit()` is `to_unit`, or `None` if conversion is not
    /// possible.
    fn convert(&self, qty: &Qty, to_unit: usize) -> (r: Option<Qty>)
        requires
            self.ok_to_convert(*qty, to_unit as int),
        ensures
            r is Some <==> self.converts(*qty, to_unit as int),
            match r {
                Some(q) => self.result_ok(*qty, to_unit as int, q),
                None => true,
            },
    ;
}

/// A table defining the conversion between values of one quantity having
/// different units, by `to_amount = from_amount * factor + offset`.
pub struct ConversionTable {
    /// The mappings, searched in order.
    pub mappings: Vec<Mapping>,
}

/// The first mapping converting `from` to `to`, or the table length if
/// there is none.
pub open spec fn find_mapping(m: Seq<Mapping>, from: int, to: int, i: int) -> int
    decreases m.len() - i,
{
    if i >= m.len() {
        i
    } else if m[i].from_unit as int == from && m[i].to_unit as int == to {
        i
    } else {
        find_mapping(m, from, to, i + 1)
    }
}

/// The amount an affine mapping produces, in lowest terms.
pub open spec fn affine_amount(a: Rat, factor: Rat, offset: Rat) -> Rat {
    rat_canon(rat_add_norm(rat_canon(rat_mul(a, factor)), offset))
}

impl ConversionTable {
    /// Every factor and offset of the table is a well-formed amount.
    pub open spec fn wf(self) -> bool {
        forall|i: int|
            0 <= i < self.mappings@.len() ==> (#[trigger] self.mappings@[i]).factor.inv()
                && self.mappings@[i].offset.inv()
    }

    /// The machine-word bounds converting `a` through any entry of the
    /// table needs.
    pub open spec fn fits(self, a: Rat) -> bool {
        forall|i: int|
            0 <= i < self.mappings@.len() ==> mul_fits(a, (#[trigger] self.mappings@[i]).factor@)
                && add_fits(rat_canon(rat_mul(a, self.mappings@[i].factor@)), self.mappings@[i].offset@)
    }
}

impl Converter for ConversionTable {
    /// The table is well formed, the value's amount is well formed, and
    /// the affine arithmetic stays within the machine word.
    open spec fn ok_to_convert(&self, qty: Qty, to_unit: int) -> bool {
        self.wf() && qty.amount.inv() && self.fits(qty.amount@)
    }

    /// A conversion is defined for the value's own unit and for any pair
    /// the table maps.
    open spec fn converts(&self, qty: Qty, to_unit: int) -> bool {
        qty.unit as int == to_unit || find_mapping(self.mappings@, qty.unit as int, to_unit, 0)
            < self.mappings@.len()
    }

    /// Converting to the value's own unit returns the value unchanged;
    /// otherwise the first matching mapping's affine image, in the target
    /// unit.
    open spec fn result_ok(&self, qty: Qty, to_unit: int, r: Qty) -> bool {
        if qty.unit as int == to_unit {
            r == qty
        } else {
            let k = find_mapping(self.mappings@, qty.unit as int, to_unit, 0);
            &&& r.unit as int == to_unit
            &&& r.amount.inv()
            &&& r.amount@ == affine_amount(
                qty.amount@,
                self.mappings@[k].factor@,
                self.mappings@[k].offset@,
            )
        }
    }

    fn convert(&self, qty: &Qty, to_unit: usize) -> (r: Option<Qty>) {
        if qty.unit == to_unit {
            return Some(*qty);
        }
        let n = self.mappings.len();
        let mut k: usize = 0;
        while k < n
            invariant
                self.wf(),
                qty.unit != to_unit,
                qty.amount.inv(),
                self.fits(qty.amount@),
                n as int == self.mappings@.len(),
                k <= n,
                find_mapping(self.mappings@, qty.unit as int, to_unit as int, 0) == find_mapping(
                    self.mappings@,
                    qty.unit as int,
                    to_unit as int,
                    k as int,
                ),
            decreases n - k,
        {
            let m = &self.mappings[k];
            if m.from_unit == qty.unit && m.to_unit == to_unit {
                let scaled = qty.amount.mul(&m.factor);
                let shifted = scaled.add(&m.offset);
                return Some(Qty::new(shifted, to_unit));
            }
            k = k + 1;
        }
        None
    }
}

} // verus!
