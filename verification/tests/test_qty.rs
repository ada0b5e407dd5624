use quantities::{compile, Amount, DerivOp, Derivation, Qty, QtyDef, QtySpec, SIPrefix, UnitEntry};

fn qty_entry(
    is_ref: bool,
    ident: &str,
    symbol: &str,
    si_prefix: Option<SIPrefix>,
    scale: Option<Amount>,
) -> UnitEntry {
    UnitEntry {
        is_ref,
        ident: ident.to_string(),
        symbol: symbol.to_string(),
        si_prefix,
        scale,
        doc: None,
    }
}

fn amnt(m: i64, e: i32) -> Amount {
    Amount::from_sci(m, e)
}

/// Foo, a completely useless quantity: reference unit A ('a', MEGA),
/// B ('b', 0.4), C ('c', CENTI, 0.01).  Sorted: C, B, A.
fn foo_def() -> QtyDef {
    compile(&QtySpec {
        ident: "Foo".to_string(),
        derived: None,
        entries: vec![
            qty_entry(true, "A", "a", Some(SIPrefix::MEGA), None),
            qty_entry(false, "B", "b", None, Some(amnt(4, -1))),
            qty_entry(false, "C", "c", Some(SIPrefix::CENTI), Some(amnt(1, -2))),
        ],
    })
    .unwrap()
}

/// Foo without a reference unit: units A, B, C.  Sorted by name: A, B, C.
fn foo_noref_def() -> QtyDef {
    compile(&QtySpec {
        ident: "Foo".to_string(),
        derived: None,
        entries: vec![
            qty_entry(false, "A", "a", None, None),
            qty_entry(false, "B", "b", None, None),
            qty_entry(false, "C", "c", None, None),
        ],
    })
    .unwrap()
}

#[test]
fn test_qty_test_unit() {
    let d = foo_def();
    let a = d.unit_from_symbol("a").unwrap();
    let b = d.unit_from_symbol("b").unwrap();
    assert_eq!(d.unit_name(a), "A");
    assert_eq!(d.unit_symbol(a), "a");
    assert_eq!(d.unit_si_prefix(a), Some(SIPrefix::MEGA));
    assert_eq!(d.scale(a), amnt(1, 0));
    assert_eq!(d.unit_name(b), "B");
    assert_eq!(d.unit_symbol(b), "b");
    assert_eq!(d.unit_si_prefix(b), None);
    assert_eq!(d.scale(b), amnt(4, -1));
    assert_eq!(d.ratio(b, a), amnt(4, -1));
    assert_eq!(d.ratio(a, b), amnt(25, -1));
    // Without a reference unit there are no scales and no prefixes.
    let n = foo_noref_def();
    let nb = n.unit_from_symbol("b").unwrap();
    assert_eq!(n.unit_name(nb), "B");
    assert_eq!(n.unit_symbol(nb), "b");
    assert!(n.unit_si_prefix(nb).is_none());
}

#[test]
fn test_qty_test_unit_iter() {
    let d = foo_def();
    assert_eq!(d.n_units(), 3);
    assert_eq!(d.unit_symbol(0), "c");
    assert_eq!(d.unit_symbol(1), "b");
    assert_eq!(d.unit_symbol(2), "a");
    // Without a reference unit the units are ordered by name.
    let n = foo_noref_def();
    assert_eq!(n.unit_name(0), "A");
    assert_eq!(n.unit_name(1), "B");
    assert_eq!(n.unit_name(2), "C");
}

#[test]
fn test_unit_from_symbol() {
    let d = foo_def();
    assert_eq!(d.unit_from_symbol("a"), Some(2));
    assert_eq!(d.unit_from_symbol("b"), Some(1));
    assert_eq!(d.unit_from_symbol("c"), Some(0));
    assert_eq!(d.unit_from_symbol("x"), None);
}

#[test]
fn test_unit_from_scale() {
    let d = foo_def();
    assert_eq!(d.unit_from_scale(&amnt(1, 0)), Some(2));
    assert_eq!(d.unit_from_scale(&amnt(4, -1)), Some(1));
    assert_eq!(d.unit_from_scale(&amnt(1, -2)), Some(0));
    assert_eq!(d.unit_from_scale(&amnt(10, 0)), None);
}

#[test]
fn test_fit() {
    let d = foo_def();
    let c = d.unit_from_symbol("c").unwrap();
    let a = d.unit_from_symbol("a").unwrap();
    let cases: Vec<(Amount, usize)> = vec![
        (amnt(7, -3), c),
        (amnt(7, -2), c),
        (amnt(7, -1), c),
        (amnt(7, 0), a),
    ];
    for (raw, unit) in cases {
        let foo = d._fit(&raw);
        assert_eq!(foo.unit(), unit);
        assert_eq!(foo.amount(), raw.div(&d.scale(unit)));
    }
}

#[test]
fn test_qty_test_qty() {
    let d = foo_def();
    let amount = amnt(174, -1);
    let unit = d.unit_from_symbol("b").unwrap();
    let qty = Qty::new(amount, unit);
    assert_eq!(qty.amount(), amount);
    assert_eq!(qty.unit(), unit);
}

#[test]
fn test_qty_test_convert() {
    let d = foo_def();
    let a = d.unit_from_symbol("a").unwrap();
    let b = d.unit_from_symbol("b").unwrap();
    let qty = Qty::new(amnt(174, -1), b);
    let equiv = d.convert(&qty, a);
    assert_eq!(equiv.amount(), amnt(696, -2));
    assert_eq!(equiv.unit(), a);
    let back = d.convert(&equiv, b);
    assert_eq!(back.amount(), amnt(174, -1));
    assert_eq!(back.unit(), b);
}

#[test]
fn test_qty_test_cmp_same_unit() {
    let d = foo_def();
    let a = d.unit_from_symbol("a").unwrap();
    let qty1 = Qty::new(amnt(174, -1), a);
    let qty2 = Qty::new(amnt(37, -2), a);
    let qty3 = qty1;
    assert!(d.qty_eq(&qty1, &qty3));
    assert!(d.qty_eq(&qty3, &qty1));
    assert!(!d.qty_eq(&qty1, &qty2));
    assert!(!d.qty_eq(&qty2, &qty1));
    assert_eq!(d.qty_cmp(&qty2, &qty1), Some(-1));
    assert_eq!(d.qty_cmp(&qty1, &qty2), Some(1));
    assert!(d.qty_cmp(&qty2, &qty3) != Some(1));
    assert!(d.qty_cmp(&qty3, &qty2) != Some(-1));
    // Same-unit comparison of a quantity without a reference unit.
    let n = foo_noref_def();
    let na = 0;
    let nq1 = Qty::new(amnt(174, -1), na);
    let nq2 = Qty::new(amnt(37, -2), na);
    assert!(n.qty_eq(&nq1, &nq1));
    assert!(!n.qty_eq(&nq1, &nq2));
    assert_eq!(n.qty_cmp(&nq2, &nq1), Some(-1));
}

#[test]
fn test_qty_test_cmp_diff_unit() {
    let d = foo_def();
    let a = d.unit_from_symbol("a").unwrap();
    let b = d.unit_from_symbol("b").unwrap();
    let c = d.unit_from_symbol("c").unwrap();
    let qty1 = Qty::new(amnt(174, -1), a);
    let qty2 = Qty::new(amnt(37, -2), b);
    let qty3 = d.convert(&qty1, c);
    assert!(d.qty_eq(&qty1, &qty3));
    assert!(d.qty_eq(&qty3, &qty1));
    assert!(!d.qty_eq(&qty1, &qty2));
    assert!(!d.qty_eq(&qty2, &qty1));
    assert_eq!(d.qty_cmp(&qty2, &qty1), Some(-1));
    assert_eq!(d.qty_cmp(&qty1, &qty2), Some(1));
    assert!(d.qty_cmp(&qty2, &qty3) != Some(1));
    assert!(d.qty_cmp(&qty3, &qty2) != Some(-1));
    // Different units of a quantity without a reference unit never
    // compare.
    let n = foo_noref_def();
    let nq1 = Qty::new(amnt(174, -1), 0);
    let nq2 = Qty::new(amnt(37, -2), 1);
    let nq3 = Qty::new(amnt(174, -1), 0);
    assert!(n.qty_eq(&nq1, &nq3));
    assert!(!n.qty_eq(&nq1, &nq2));
    assert_eq!(n.qty_cmp(&nq2, &nq1), None);
    assert_eq!(n.qty_cmp(&nq1, &nq2), None);
}

#[test]
fn test_qty_test_add_same_unit() {
    let d = foo_def();
    let a = d.unit_from_symbol("a").unwrap();
    let amnt1 = amnt(1, -1);
    let amnt2 = amnt(-2, -1);
    let qty1 = Qty::new(amnt1, a);
    let qty2 = Qty::new(amnt2, a);
    let res = d.add(&qty1, &qty2);
    assert_eq!(res.amount(), amnt1.add(&amnt2));
    assert_eq!(res.unit(), a);
    let res = d.add(&qty2, &qty1);
    assert_eq!(res.amount(), amnt1.add(&amnt2));
    assert_eq!(res.unit(), a);
}

#[test]
fn test_qty_test_add_diff_unit() {
    let d = foo_def();
    let a = d.unit_from_symbol("a").unwrap();
    let b = d.unit_from_symbol("b").unwrap();
    let amnt1 = amnt(174, -1);
    let amnt2 = amnt(37, -2);
    let qty1 = Qty::new(amnt1, a);
    let qty2 = Qty::new(amnt2, b);
    let res = d.add(&qty1, &qty2);
    assert_eq!(res.amount(), amnt1.add(&amnt2.mul(&amnt(4, -1))));
    assert_eq!(res.unit(), a);
    let res = d.add(&qty2, &qty1);
    assert_eq!(res.amount(), amnt1.mul(&amnt(25, -1)).add(&amnt2));
    assert_eq!(res.unit(), b);
}

#[test]
#[should_panic]
fn test_add_diff_unit() {
    let n = foo_noref_def();
    let qty1 = Qty::new(amnt(174, -1), 0);
    let qty2 = Qty::new(amnt(37, -2), 1);
    let _res = n.try_add(&qty1, &qty2).unwrap();
}

#[test]
fn test_qty_test_sub_same_unit() {
    let d = foo_def();
    let a = d.unit_from_symbol("a").unwrap();
    let amnt1 = amnt(174, -1);
    let amnt2 = amnt(37, -2);
    let qty1 = Qty::new(amnt1, a);
    let qty2 = Qty::new(amnt2, a);
    let res = d.sub(&qty1, &qty2);
    assert_eq!(res.amount(), amnt1.sub(&amnt2));
    assert_eq!(res.unit(), a);
    let res = d.sub(&qty2, &qty1);
    assert_eq!(res.amount(), amnt2.sub(&amnt1));
    assert_eq!(res.unit(), a);
}

#[test]
fn test_qty_test_sub_diff_unit() {
    let d = foo_def();
    let a = d.unit_from_symbol("a").unwrap();
    let b = d.unit_from_symbol("b").unwrap();
    let amnt1 = amnt(174, -1);
    let amnt2 = amnt(3, -1);
    let qty1 = Qty::new(amnt1, a);
    let qty2 = Qty::new(amnt2, b);
    let res = d.sub(&qty1, &qty2);
    assert_eq!(res.amount(), amnt1.sub(&amnt2.mul(&amnt(4, -1))));
    assert_eq!(res.unit(), a);
    let res = d.sub(&qty2, &qty1);
    assert_eq!(res.amount(), amnt2.sub(&amnt1.mul(&amnt(25, -1))));
    assert_eq!(res.unit(), b);
}

#[test]
#[should_panic]
fn test_sub_diff_unit() {
    let n = foo_noref_def();
    let qty1 = Qty::new(amnt(174, -1), 0);
    let qty2 = Qty::new(amnt(37, -2), 1);
    let _res = n.try_sub(&qty1, &qty2).unwrap();
}

#[test]
fn test_qty_test_div_same_unit() {
    let d = foo_def();
    let a = d.unit_from_symbol("a").unwrap();
    let amnt1 = amnt(174, -1);
    let amnt2 = amnt(3, -1);
    let qty1 = Qty::new(amnt1, a);
    let qty2 = Qty::new(amnt2, a);
    let res = d.div(&qty1, &qty2);
    assert_eq!(res, amnt1.div(&amnt2));
}

#[test]
fn test_qty_test_div_diff_unit() {
    let d = foo_def();
    let a = d.unit_from_symbol("a").unwrap();
    let b = d.unit_from_symbol("b").unwrap();
    let amnt1 = amnt(174, -1);
    let amnt2 = amnt(3, -1);
    let qty1 = Qty::new(amnt1, a);
    let qty2 = Qty::new(amnt2, b);
    let res = d.div(&qty1, &qty2);
    assert_eq!(res, amnt1.div(&amnt2.mul(&amnt(4, -1))));
}

#[test]
#[should_panic]
fn test_div_diff_unit() {
    let n = foo_noref_def();
    let qty1 = Qty::new(amnt(174, -1), 0);
    let qty2 = Qty::new(amnt(3, -1), 1);
    let _res = n.try_div(&qty1, &qty2).unwrap();
}

#[test]
fn test_mul_amnt() {
    let d = foo_def();
    let a = d.unit_from_symbol("a").unwrap();
    let amnt1 = amnt(174, -1);
    let amnt2 = amnt(37, -2);
    let qty1 = Qty::new(amnt1, a);
    let res = qty1.mul_amnt(&amnt2);
    assert_eq!(res.amount(), amnt1.mul(&amnt2));
    assert_eq!(res.unit(), qty1.unit());
}

#[test]
fn test_div_amnt() {
    let d = foo_def();
    let a = d.unit_from_symbol("a").unwrap();
    let amnt1 = amnt(1554, -2);
    let amnt2 = amnt(37, -1);
    let qty1 = Qty::new(amnt1, a);
    let res = qty1.div_amnt(&amnt2);
    assert_eq!(res.amount(), amnt1.div(&amnt2));
    assert_eq!(res.unit(), qty1.unit());
}

#[test]
fn test_single_unit_qty() {
    let d = compile(&QtySpec {
        ident: "Foo".to_string(),
        derived: None,
        entries: vec![qty_entry(false, "Pop", "p", None, None)],
    })
    .unwrap();
    assert_eq!(d.n_units(), 1);
    assert!(!d.is_ref_unit(0));
    let amount = amnt(174, -1);
    let qty = Qty::new(amount, 0);
    assert_eq!(qty.amount(), amount);
    assert_eq!(qty.unit(), 0);
    let sum = d.add(&qty, &qty);
    assert_eq!(sum.amount(), amount.add(&amount));
}

#[test]
fn test_qty_test_qty_iter_units() {
    let d = foo_def();
    let symbols: Vec<&str> = (0..d.n_units()).map(|i| d.unit_symbol(i).as_str()).collect();
    assert_eq!(symbols, vec!["c", "b", "a"]);
    let n = foo_noref_def();
    let names: Vec<&str> = (0..n.n_units()).map(|i| n.unit_name(i).as_str()).collect();
    assert_eq!(names, vec!["A", "B", "C"]);
}

#[test]
fn test_qty_unit_from_symbol() {
    let d = foo_def();
    assert_eq!(d.unit_from_symbol("a"), Some(2));
    assert_eq!(d.unit_from_symbol("b"), Some(1));
    assert_eq!(d.unit_from_symbol("c"), Some(0));
    assert_eq!(d.unit_from_symbol("x"), None);
}

#[test]
fn test_qty_unit_from_scale() {
    let d = foo_def();
    assert_eq!(d.unit_from_scale(&amnt(1, 0)), Some(2));
    assert_eq!(d.unit_from_scale(&amnt(4, -1)), Some(1));
    assert_eq!(d.unit_from_scale(&amnt(1, -2)), Some(0));
    assert_eq!(d.unit_from_scale(&amnt(10, 0)), None);
}

/// Foo with reference unit Flop ('f'), Kiloflop (1000), Centiflop (0.01).
fn derived_foo_def() -> QtyDef {
    compile(&QtySpec {
        ident: "Foo".to_string(),
        derived: None,
        entries: vec![
            qty_entry(true, "Flop", "f", None, None),
            qty_entry(false, "Kiloflop", "kf", None, Some(amnt(1, 3))),
            qty_entry(false, "Centiflop", "cf", None, Some(amnt(1, -2))),
        ],
    })
    .unwrap()
}

/// Bar with reference unit Emil ('e') and three scaled units.
fn derived_bar_def() -> QtyDef {
    compile(&QtySpec {
        ident: "Bar".to_string(),
        derived: None,
        entries: vec![
            qty_entry(true, "Emil", "e", None, None),
            qty_entry(false, "Milliemil", "me", None, Some(amnt(1, -3))),
            qty_entry(false, "Microemil", "µe", None, Some(amnt(1, -6))),
            qty_entry(false, "Kiloemil", "ke", None, Some(amnt(1, 3))),
        ],
    })
    .unwrap()
}

/// Baz = Foo * Bar, with reference unit Bazoo ('b').
fn derived_baz_def() -> QtyDef {
    compile(&QtySpec {
        ident: "Baz".to_string(),
        derived: Some(Derivation {
            lhs: "Foo".to_string(),
            op: DerivOp::Mul,
            rhs: "Bar".to_string(),
        }),
        entries: vec![
            qty_entry(true, "Bazoo", "b", None, None),
            qty_entry(false, "Millibazoo", "mb", None, Some(amnt(1, -3))),
            qty_entry(false, "Microbazoo", "µb", None, Some(amnt(1, -6))),
            qty_entry(false, "Kilobazoo", "kb", None, Some(amnt(1, 3))),
        ],
    })
    .unwrap()
}

/// Qoo = Foo / Bar, with reference unit Qoox ('Q').
fn derived_qoo_def() -> QtyDef {
    compile(&QtySpec {
        ident: "Qoo".to_string(),
        derived: Some(Derivation {
            lhs: "Foo".to_string(),
            op: DerivOp::Div,
            rhs: "Bar".to_string(),
        }),
        entries: vec![
            qty_entry(true, "Qoox", "Q", None, None),
            qty_entry(false, "Five_Flops_per_Emil", "ff/e", None, Some(amnt(5, 0))),
            qty_entry(false, "Milliqoox", "mQ", None, Some(amnt(1, -3))),
            qty_entry(false, "Microqoox", "µQ", None, Some(amnt(1, -6))),
            qty_entry(false, "Kiloqoox", "kQ", None, Some(amnt(1, 3))),
        ],
    })
    .unwrap()
}

fn check_qty_mul_qty(x: Qty, y: Qty, r: Qty) {
    let foo = derived_foo_def();
    let bar = derived_bar_def();
    let baz = derived_baz_def();
    let z = quantities::qty_mul(&x, &foo, &y, &bar, &baz);
    assert_eq!(z.amount(), r.amount());
    assert_eq!(z.unit(), r.unit());
    let z = quantities::qty_mul(&y, &bar, &x, &foo, &baz);
    assert_eq!(z.amount(), r.amount());
    assert_eq!(z.unit(), r.unit());
    // reverse divs
    let z = quantities::qty_div(&r, &baz, &x, &foo, &bar);
    let z = bar.convert(&z, y.unit());
    assert_eq!(z.amount(), y.amount());
    assert_eq!(z.unit(), y.unit());
    let z = quantities::qty_div(&r, &baz, &y, &bar, &foo);
    let z = foo.convert(&z, x.unit());
    assert_eq!(z.amount(), x.amount());
    assert_eq!(z.unit(), x.unit());
}

#[test]
fn test_qty_mul_qty() {
    let foo = derived_foo_def();
    let bar = derived_bar_def();
    let baz = derived_baz_def();
    let flop = foo.unit_from_symbol("f").unwrap();
    let kiloflop = foo.unit_from_symbol("kf").unwrap();
    let centiflop = foo.unit_from_symbol("cf").unwrap();
    let emil = bar.unit_from_symbol("e").unwrap();
    let microemil = bar.unit_from_symbol("µe").unwrap();
    let bazoo = baz.unit_from_symbol("b").unwrap();
    let millibazoo = baz.unit_from_symbol("mb").unwrap();
    let microbazoo = baz.unit_from_symbol("µb").unwrap();
    check_qty_mul_qty(
        Qty::new(amnt(174, -1), flop),
        Qty::new(amnt(3, 0), emil),
        Qty::new(amnt(174, -1).mul(&amnt(3, 0)), bazoo),
    );
    check_qty_mul_qty(
        Qty::new(amnt(1452, -2), kiloflop),
        Qty::new(amnt(47, -2), microemil),
        Qty::new(amnt(1452, -2).mul(&amnt(47, -2)), millibazoo),
    );
    check_qty_mul_qty(
        Qty::new(amnt(1452, -2), centiflop),
        Qty::new(amnt(47, -2), microemil),
        Qty::new(amnt(1452, -2).mul(&amnt(47, -2)).mul(&amnt(1, -2)), microbazoo),
    );
}

fn check_qty_div_qty(x: Qty, y: Qty, r: Qty) {
    let foo = derived_foo_def();
    let bar = derived_bar_def();
    let qoo = derived_qoo_def();
    let z = quantities::qty_div(&x, &foo, &y, &bar, &qoo);
    assert_eq!(z.amount(), r.amount());
    assert_eq!(z.unit(), r.unit());
    // reverse mul
    let z = quantities::qty_mul(&r, &qoo, &y, &bar, &foo);
    let z = foo.convert(&z, x.unit());
    assert_eq!(z.amount(), x.amount());
    assert_eq!(z.unit(), x.unit());
}

#[test]
fn test_qty_div_qty() {
    let foo = derived_foo_def();
    let bar = derived_bar_def();
    let qoo = derived_qoo_def();
    let flop = foo.unit_from_symbol("f").unwrap();
    let kiloflop = foo.unit_from_symbol("kf").unwrap();
    let centiflop = foo.unit_from_symbol("cf").unwrap();
    let emil = bar.unit_from_symbol("e").unwrap();
    let milliemil = bar.unit_from_symbol("me").unwrap();
    let kiloemil = bar.unit_from_symbol("ke").unwrap();
    let qoox = qoo.unit_from_symbol("Q").unwrap();
    let microqoox = qoo.unit_from_symbol("µQ").unwrap();
    let kiloqoox = qoo.unit_from_symbol("kQ").unwrap();
    check_qty_div_qty(
        Qty::new(amnt(174, -1), flop),
        Qty::new(amnt(3, 0), emil),
        Qty::new(amnt(174, -1).div(&amnt(3, 0)), qoox),
    );
    check_qty_div_qty(
        Qty::new(amnt(1452, -2), kiloflop),
        Qty::new(amnt(33, -1), milliemil),
        Qty::new(amnt(1452, -2).div(&amnt(33, -1)).mul(&amnt(1, 3)), kiloqoox),
    );
    check_qty_div_qty(
        Qty::new(amnt(1452, -2), centiflop),
        Qty::new(amnt(33, -1), kiloemil),
        Qty::new(amnt(1452, -2).div(&amnt(33, -1)).mul(&amnt(1, 1)), microqoox),
    );
}
