use quantities::{compile, unitless, Amount, Qty, QtyDef, QtySpec, Rate, UnitEntry};

fn rate_entry(is_ref: bool, ident: &str, symbol: &str, scale: Option<Amount>) -> UnitEntry {
    UnitEntry {
        is_ref,
        ident: ident.to_string(),
        symbol: symbol.to_string(),
        si_prefix: None,
        scale,
        doc: None,
    }
}

fn rate_amnt(m: i64, e: i32) -> Amount {
    Amount::from_sci(m, e)
}

/// Foo with reference unit Flop ('f'), Kiloflop (1000), Centiflop (0.01).
fn rate_foo_def() -> QtyDef {
    compile(&QtySpec {
        ident: "Foo".to_string(),
        derived: None,
        entries: vec![
            rate_entry(true, "Flop", "f", None),
            rate_entry(false, "Kiloflop", "kf", Some(rate_amnt(1, 3))),
            rate_entry(false, "Centiflop", "cf", Some(rate_amnt(1, -2))),
        ],
    })
    .unwrap()
}

/// Bar with reference unit Emil ('e') and three scaled units.
fn rate_bar_def() -> QtyDef {
    compile(&QtySpec {
        ident: "Bar".to_string(),
        derived: None,
        entries: vec![
            rate_entry(true, "Emil", "e", None),
            rate_entry(false, "Milliemil", "me", Some(rate_amnt(1, -3))),
            rate_entry(false, "Microemil", "µe", Some(rate_amnt(1, -6))),
            rate_entry(false, "Kiloemil", "ke", Some(rate_amnt(1, 3))),
        ],
    })
    .unwrap()
}

#[test]
fn test_rate() {
    let foo = rate_foo_def();
    let bar = rate_bar_def();
    let flop = foo.unit_from_symbol("f").unwrap();
    let milliemil = bar.unit_from_symbol("me").unwrap();
    let r = Rate::new(rate_amnt(3294, -1), flop, rate_amnt(100, 0), milliemil);
    assert_eq!(r.term_amount(), rate_amnt(3294, -1));
    assert_eq!(r.term_unit(), flop);
    assert_eq!(r.per_unit_multiple(), rate_amnt(100, 0));
    assert_eq!(r.per_unit(), milliemil);
}

#[test]
fn test_rate_from_qty_vals() {
    let foo = rate_foo_def();
    let bar = rate_bar_def();
    let flop = foo.unit_from_symbol("f").unwrap();
    let milliemil = bar.unit_from_symbol("me").unwrap();
    let r = Rate::from_qty_vals(
        &Qty::new(rate_amnt(3294, -1), flop),
        &Qty::new(rate_amnt(100, 0), milliemil),
    );
    assert_eq!(r.term_amount(), rate_amnt(3294, -1));
    assert_eq!(r.term_unit(), flop);
    assert_eq!(r.per_unit_multiple(), rate_amnt(100, 0));
    assert_eq!(r.per_unit(), milliemil);
}

#[test]
fn test_rate_dimless() {
    let one = unitless();
    assert_eq!(one.n_units(), 1);
    let r = Rate::from_qty_vals(
        &Qty::new(rate_amnt(292, -1), 0),
        &Qty::new(rate_amnt(100, 0), 0),
    );
    assert_eq!(r.term_amount(), rate_amnt(292, -1));
    assert_eq!(r.term_unit(), 0);
    assert_eq!(r.per_unit_multiple(), rate_amnt(100, 0));
    assert_eq!(r.per_unit(), 0);
}

#[test]
fn test_rate_reciprocal() {
    let foo = rate_foo_def();
    let bar = rate_bar_def();
    let flop = foo.unit_from_symbol("f").unwrap();
    let milliemil = bar.unit_from_symbol("me").unwrap();
    let r = Rate::from_qty_vals(
        &Qty::new(rate_amnt(3294, -1), flop),
        &Qty::new(rate_amnt(100, 0), milliemil),
    );
    let r = r.reciprocal();
    assert_eq!(r.term_amount(), rate_amnt(100, 0));
    assert_eq!(r.term_unit(), milliemil);
    assert_eq!(r.per_unit_multiple(), rate_amnt(3294, -1));
    assert_eq!(r.per_unit(), flop);
}

#[test]
fn test_rate_reciprocal_involution() {
    let foo = rate_foo_def();
    let bar = rate_bar_def();
    let flop = foo.unit_from_symbol("f").unwrap();
    let milliemil = bar.unit_from_symbol("me").unwrap();
    let r = Rate::new(rate_amnt(3294, -1), flop, rate_amnt(100, 0), milliemil);
    let rr = r.reciprocal().reciprocal();
    assert_eq!(rr.term_amount(), r.term_amount());
    assert_eq!(rr.term_unit(), r.term_unit());
    assert_eq!(rr.per_unit_multiple(), r.per_unit_multiple());
    assert_eq!(rr.per_unit(), r.per_unit());
}

#[test]
fn test_rate_mul_qty() {
    let foo = rate_foo_def();
    let bar = rate_bar_def();
    let flop = foo.unit_from_symbol("f").unwrap();
    let milliemil = bar.unit_from_symbol("me").unwrap();
    let emil = bar.unit_from_symbol("e").unwrap();
    let r = Rate::from_qty_vals(
        &Qty::new(rate_amnt(3294, -1), flop),
        &Qty::new(rate_amnt(100, 0), milliemil),
    );
    let b = Qty::new(rate_amnt(75, -1), emil);
    let f = r.mul_qty(&b, &bar);
    assert_eq!(f.unit(), r.term_unit());
    assert_eq!(f.amount(), rate_amnt(24705, 0));
}

#[test]
fn test_rate_one_step_applies() {
    // A value of exactly one rate step maps to exactly the term amount.
    let foo = rate_foo_def();
    let bar = rate_bar_def();
    let flop = foo.unit_from_symbol("f").unwrap();
    let milliemil = bar.unit_from_symbol("me").unwrap();
    let r = Rate::new(rate_amnt(3294, -1), flop, rate_amnt(100, 0), milliemil);
    let p = Qty::new(rate_amnt(100, 0), milliemil);
    let t = r.mul_qty(&p, &bar);
    assert_eq!(t.amount(), rate_amnt(3294, -1));
    assert_eq!(t.unit(), flop);
}

#[test]
fn test_qty_div_rate() {
    let foo = rate_foo_def();
    let bar = rate_bar_def();
    let flop = foo.unit_from_symbol("f").unwrap();
    let kiloflop = foo.unit_from_symbol("kf").unwrap();
    let milliemil = bar.unit_from_symbol("me").unwrap();
    let f = Qty::new(rate_amnt(75, -1), kiloflop);
    let r = Rate::from_qty_vals(
        &Qty::new(rate_amnt(25, 0), flop),
        &Qty::new(rate_amnt(100, 0), milliemil),
    );
    let b = r.div_qty(&f, &foo);
    assert_eq!(b.unit(), r.per_unit());
    assert_eq!(b.amount(), rate_amnt(30000, 0));
}

#[test]
fn test_unitless() {
    let one = unitless();
    assert!(one.is_ref_unit(0));
    assert_eq!(one.unit_name(0), "One");
    assert_eq!(one.unit_symbol(0), "");
    assert!(one.unit_si_prefix(0).is_none());
    let amnt = rate_amnt(174, -1);
    let qty = Qty::new(amnt, 0);
    assert_eq!(qty.amount(), amnt);
    assert_eq!(qty.unit(), 0);
    let u = quantities::One::One;
    assert_eq!(u.name(), "One");
    assert_eq!(u.symbol(), "");
    assert!(u.si_prefix().is_none());
    assert_eq!(u.scale(), Amount::from_int(1));
}
