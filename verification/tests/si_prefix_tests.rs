use quantities::SIPrefix;

#[test]
fn test_iter() {
    let variants = SIPrefix::variants();
    let mut it = variants.iter();
    assert_eq!(it.next(), Some(&SIPrefix::YOCTO));
    assert_eq!(it.next(), Some(&SIPrefix::ZEPTO));
    assert_eq!(it.next(), Some(&SIPrefix::ATTO));
    assert_eq!(it.next(), Some(&SIPrefix::FEMTO));
    assert_eq!(it.next(), Some(&SIPrefix::PICO));
    assert_eq!(it.next(), Some(&SIPrefix::NANO));
    assert_eq!(it.next(), Some(&SIPrefix::MICRO));
    assert_eq!(it.next(), Some(&SIPrefix::MILLI));
    assert_eq!(it.next(), Some(&SIPrefix::CENTI));
    assert_eq!(it.next(), Some(&SIPrefix::DECI));
    assert_eq!(it.next(), Some(&SIPrefix::NONE));
    assert_eq!(it.next(), Some(&SIPrefix::DECA));
    assert_eq!(it.next(), Some(&SIPrefix::HECTO));
    assert_eq!(it.next(), Some(&SIPrefix::KILO));
    assert_eq!(it.next(), Some(&SIPrefix::MEGA));
    assert_eq!(it.next(), Some(&SIPrefix::GIGA));
    assert_eq!(it.next(), Some(&SIPrefix::TERA));
    assert_eq!(it.next(), Some(&SIPrefix::PETA));
    assert_eq!(it.next(), Some(&SIPrefix::EXA));
    assert_eq!(it.next(), Some(&SIPrefix::ZETTA));
    assert_eq!(it.next(), Some(&SIPrefix::YOTTA));
    assert_eq!(it.next(), None);
}

#[test]
fn test_si_prefix_attrs() {
    let m = SIPrefix::MILLI;
    assert_eq!(m.name(), "Milli");
    assert_eq!(m.abbr(), "m");
    assert_eq!(m.exp(), -3);
}

#[test]
fn test_from_abbr() {
    assert_eq!(SIPrefix::from_abbr("M").unwrap(), SIPrefix::MEGA);
    assert_eq!(SIPrefix::from_abbr("µ").unwrap(), SIPrefix::MICRO);
    assert_eq!(SIPrefix::from_abbr("Z").unwrap(), SIPrefix::ZETTA);
    assert!(SIPrefix::from_abbr("x").is_none());
}

#[test]
fn test_from_exp() {
    assert_eq!(SIPrefix::from_exp(-18).unwrap(), SIPrefix::ATTO);
    assert_eq!(SIPrefix::from_exp(0).unwrap(), SIPrefix::NONE);
    assert_eq!(SIPrefix::from_exp(9).unwrap(), SIPrefix::GIGA);
    assert!(SIPrefix::from_exp(7).is_none());
}

#[test]
fn test_prefix_exponents_ascend() {
    let variants = SIPrefix::variants();
    for k in 1..variants.len() {
        assert!(variants[k - 1].exp() < variants[k].exp());
    }
}

#[test]
fn test_abbr_round_trip() {
    let variants = SIPrefix::variants();
    for p in variants.iter() {
        assert_eq!(SIPrefix::from_abbr(p.abbr()), Some(*p));
        assert_eq!(SIPrefix::from_exp(p.exp()), Some(*p));
    }
}
