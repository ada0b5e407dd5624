use quantities::{compile, Amount, QtySpec, SIPrefix, SpecError, UnitEntry};

fn entry(
    is_ref: bool,
    ident: &str,
    symbol: &str,
    si_prefix: Option<SIPrefix>,
    scale: Option<Amount>,
) -> UnitEntry {
    UnitEntry {
        is_ref,
        ident: ident.to_string(),
        symbol: symbol.to_string(),
        si_prefix,
        scale,
        doc: None,
    }
}

#[test]
fn test_derive_constants() {
    let idents = vec![
        "MultiCamelCase".to_string(),
        "snake_case".to_string(),
        "simple".to_string(),
        "ALL_UPPER".to_string(),
    ];
    let consts = quantities::variants_as_constants(&idents);
    assert_eq!(consts.len(), 4);
    assert_eq!(consts[0], "MULTI_CAMEL_CASE");
    assert_eq!(consts[1], "SNAKE_CASE");
    assert_eq!(consts[2], "SIMPLE");
    assert_eq!(consts[3], "ALL_UPPER");
}

#[test]
fn test_derive_enum_iter() {
    // Variants keep their declared order when their scales ascend.
    let spec = QtySpec {
        ident: "Color".to_string(),
        derived: None,
        entries: vec![
            entry(true, "Red", "r", None, None),
            entry(false, "Green", "g", None, Some(Amount::from_int(2))),
            entry(false, "Blue", "b", None, Some(Amount::from_int(3))),
        ],
    };
    let d = compile(&spec).unwrap();
    assert_eq!(d.n_units(), 3);
    assert_eq!(d.unit_name(0), "Red");
    assert_eq!(d.unit_name(1), "Green");
    assert_eq!(d.unit_name(2), "Blue");
}

#[test]
fn test_macro_attr_quantity() {
    let spec = QtySpec {
        ident: "Mass".to_string(),
        derived: None,
        entries: vec![
            entry(true, "Kilogram", "kg", Some(SIPrefix::KILO), None),
            entry(
                false,
                "Milligram",
                "mg",
                Some(SIPrefix::MILLI),
                Some(Amount::from_sci(1, -6)),
            ),
            entry(false, "Gram", "g", Some(SIPrefix::NONE), Some(Amount::from_sci(1, -3))),
            entry(false, "Ounce", "oz", None, Some(Amount::from_sci(28349523125, -12))),
            entry(false, "Pound", "lb", None, Some(Amount::from_sci(45359237, -8))),
            entry(false, "Tonne", "t", Some(SIPrefix::MEGA), Some(Amount::from_sci(1, 3))),
        ],
    };
    let d = compile(&spec).unwrap();
    assert_eq!(d.n_units(), 6);
    assert!(d.is_ref_unit(d.unit_from_symbol("kg").unwrap()));
}

#[test]
fn macro_tests_ui() {
    // Declarations the compiler must refuse, with the reason.
    let no_unit = QtySpec {
        ident: "Foo".to_string(),
        derived: None,
        entries: vec![entry(true, "A", "a", Some(SIPrefix::MEGA), None)],
    };
    assert_eq!(compile(&no_unit).unwrap_err(), SpecError::NoUnits);

    let two_refs = QtySpec {
        ident: "Foo".to_string(),
        derived: None,
        entries: vec![
            entry(true, "A", "a", None, None),
            entry(true, "B", "b", None, None),
            entry(false, "C", "c", None, Some(Amount::from_int(2))),
        ],
    };
    assert_eq!(compile(&two_refs).unwrap_err(), SpecError::MultipleRefUnits);

    let ref_with_scale = QtySpec {
        ident: "Foo".to_string(),
        derived: None,
        entries: vec![
            entry(true, "A", "a", None, Some(Amount::from_int(1))),
            entry(false, "B", "b", None, Some(Amount::from_int(2))),
        ],
    };
    assert_eq!(compile(&ref_with_scale).unwrap_err(), SpecError::ScaleOnRefUnit);

    let missing_scale = QtySpec {
        ident: "Foo".to_string(),
        derived: None,
        entries: vec![
            entry(true, "A", "a", None, None),
            entry(false, "B", "b", None, None),
        ],
    };
    assert_eq!(compile(&missing_scale).unwrap_err(), SpecError::MissingScale);

    let zero_scale = QtySpec {
        ident: "Foo".to_string(),
        derived: None,
        entries: vec![
            entry(true, "A", "a", None, None),
            entry(false, "B", "b", None, Some(Amount::from_int(0))),
        ],
    };
    assert_eq!(compile(&zero_scale).unwrap_err(), SpecError::NonPositiveScale);

    let stray_scale = QtySpec {
        ident: "Foo".to_string(),
        derived: None,
        entries: vec![
            entry(false, "A", "a", None, None),
            entry(false, "B", "b", None, Some(Amount::from_int(2))),
        ],
    };
    assert_eq!(
        compile(&stray_scale).unwrap_err(),
        SpecError::UnexpectedScaleOrPrefix
    );

    let empty_operand = QtySpec {
        ident: "Baz".to_string(),
        derived: Some(quantities::Derivation {
            lhs: "".to_string(),
            op: quantities::DerivOp::Mul,
            rhs: "Bar".to_string(),
        }),
        entries: vec![
            entry(true, "A", "a", None, None),
            entry(false, "B", "b", None, Some(Amount::from_int(2))),
        ],
    };
    assert_eq!(
        compile(&empty_operand).unwrap_err(),
        SpecError::EmptyDerivationOperand
    );
}

#[test]
fn test_analyze_basic_qty() {
    let spec = QtySpec {
        ident: "Foo".to_string(),
        derived: None,
        entries: vec![
            UnitEntry {
                is_ref: true,
                ident: "Megapop".to_string(),
                symbol: "Mp".to_string(),
                si_prefix: Some(SIPrefix::MEGA),
                scale: None,
                doc: Some("1000000·p\nFoo's reference unit".to_string()),
            },
            UnitEntry {
                is_ref: false,
                ident: "Gigapop".to_string(),
                symbol: "Gp".to_string(),
                si_prefix: Some(SIPrefix::GIGA),
                scale: Some(Amount::from_int(1000)),
                doc: Some("1000000000·p".to_string()),
            },
            UnitEntry {
                is_ref: false,
                ident: "Pop".to_string(),
                symbol: "p".to_string(),
                si_prefix: None,
                scale: Some(Amount::from_sci(1, -6)),
                doc: None,
            },
        ],
    };
    let d = compile(&spec).unwrap();
    assert_eq!(d.n_units(), 3);
    assert_eq!(d.unit_name(0), "Pop");
    assert_eq!(d.unit_symbol(0), "p");
    assert_eq!(d.unit_si_prefix(0), None);
    assert_eq!(d.scale(0), Amount::from_sci(1, -6));
    assert_eq!(d.unit_name(1), "Megapop");
    assert_eq!(d.unit_symbol(1), "Mp");
    assert_eq!(d.unit_si_prefix(1), Some(SIPrefix::MEGA));
    assert_eq!(d.scale(1), Amount::from_int(1));
    assert!(d.is_ref_unit(1));
    assert_eq!(d.unit_name(2), "Gigapop");
    assert_eq!(d.unit_symbol(2), "Gp");
    assert_eq!(d.unit_si_prefix(2), Some(SIPrefix::GIGA));
    assert_eq!(d.scale(2), Amount::from_int(1000));
}
