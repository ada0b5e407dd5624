//! The dimensionless quantity.
//!
//! Dividing two values of the same quantity yields a bare amount; the
//! [`One`] singleton serves as its "unit", with an empty symbol and scale
//! one.

use crate::amount::{rat_int, Amount};
use crate::qty::{QtyDef, UnitDef};
use crate::si_prefixes::SIPrefix;
use vstd::prelude::*;

verus! {

/// The "unit" of the dimensionless quantity.
#[derive(Copy, Clone, Debug, Eq, PartialEq, Structural)]
pub enum One {
    /// Special singleton used as "unit" for the dimensionless quantity.
    One,
}

impl One {
    /// Returns the name of `self`.
    pub fn name(&self) -> (r: &'static str)
        ensures
            r@ == "One"@,
    {
        "One"
    }

    /// Returns the symbol used to represent `self`: the empty string.
    pub fn symbol(&self) -> (r: &'static str)
        ensures
            r@ == ""@,
    {
        ""
    }

    /// Returns the SI prefix of `self`: none.
    pub fn si_prefix(&self) -> (r: Option<SIPrefix>)
        ensures
            r is None,
    {
        None
    }

    /// Returns the scale of `self`: one.
    pub fn scale(&self) -> (r: Amount)
        ensures
            r.inv(),
            r@ == rat_int(1),
    {
        Amount::from_int(1)
    }
}

/// The definition of the dimensionless quantity: a single reference unit
/// of scale one with an empty symbol.  Its identifier names the bare
/// amount type, as derivation expressions over it do.
pub fn unitless() -> (d: QtyDef)
    ensures
        d.wf(),
        d.has_ref(),
        d.ref_idx() == 0,
        d.units@.len() == 1,
        d.ident@ == "AmountT"@,
        d.derived is None,
        d.sym_at(0) == ""@,
        d.name_at(0) == "One"@,
        d.scale_at(0) == rat_int(1),
        d.prefix_at(0) is None,
{
    let mut units: Vec<UnitDef> = Vec::new();
    units.push(
        UnitDef {
            name: "One".to_owned(),
            variant: "One".to_owned(),
            symbol: "".to_owned(),
            si_prefix: None,
            scale: Some(Amount::from_int(1)),
        },
    );
    let d = QtyDef { ident: "AmountT".to_owned(), derived: None, ref_unit: Some(0), units };
    proof {
        assert forall|i: int| d.unit_ok(i) implies (#[trigger] d.units@[i].scale) is Some
            && crate::amount::rat_inv(d.scale_at(i)) && d.scale_at(i).n >= 1 by {
            assert(i == 0);
        }
        assert(d.scale_at(0) == rat_int(1));
        assert(d.sorted_by_scale());
    }
    d
}

} // verus!
