use quantities::{
    qty_div, qty_mul, temperature_converter, unitless, Acceleration, Amount, Area, Converter,
    DataThroughput, DataVolume, Duration, Energy, Force, Frequency, Length, Mass, Power, Qty,
    Speed, Temperature, Volume,
};

fn qv(m: i64, e: i32) -> Amount {
    Amount::from_sci(m, e)
}

/// The two amounts differ by less than 10^-9.
fn almost_eq(a: &Amount, b: &Amount) -> bool {
    let diff = a.sub(b);
    let eps = qv(1, -9);
    let neg_eps = qv(-1, -9);
    neg_eps.lt(&diff) && diff.lt(&eps)
}

#[test]
fn test_mass() {
    let d = Mass::definition();
    let kilogram = d.unit_from_symbol("kg").unwrap();
    assert!(d.is_ref_unit(kilogram));
    let amnt = qv(2935, -2);
    let m = Qty::new(amnt, kilogram);
    assert_eq!(m.amount(), amnt);
    assert_eq!(m.unit(), kilogram);
}

#[test]
fn test_0_9_1() {
    let d = Mass::definition();
    let earth_mass = d.unit_from_symbol("M🜨").unwrap();
    let ammount = qv(1234, -2);
    let m = Qty::new(ammount, earth_mass);
    assert_eq!(m.amount(), ammount);
    assert_eq!(m.unit(), earth_mass);
}

#[test]
fn test_length() {
    let d = Length::definition();
    let meter = d.unit_from_symbol("m").unwrap();
    let centimeter = d.unit_from_symbol("cm").unwrap();
    assert!(d.is_ref_unit(meter));
    let amnt = qv(2935, -2);
    let l = Qty::new(amnt, centimeter);
    assert_eq!(l.amount(), amnt);
    assert_eq!(l.unit(), centimeter);
}

#[test]
fn test_duration() {
    let d = Duration::definition();
    let millisecond = d.unit_from_symbol("ms").unwrap();
    let amnt = qv(2935, -2);
    let t = Qty::new(amnt, millisecond);
    assert_eq!(t.amount(), amnt);
    assert_eq!(t.unit(), millisecond);
}

#[test]
fn test_area() {
    let d = Area::definition();
    let square_meter = d.unit_from_symbol("m²").unwrap();
    let square_centimeter = d.unit_from_symbol("cm²").unwrap();
    assert!(d.is_ref_unit(square_meter));
    let amnt = qv(2935, -2);
    let a = Qty::new(amnt, square_centimeter);
    assert_eq!(a.amount(), amnt);
    assert_eq!(a.unit(), square_centimeter);
}

#[test]
fn test_length_mul_length() {
    let len = Length::definition();
    let area = Area::definition();
    let centimeter = len.unit_from_symbol("cm").unwrap();
    let kilometer = len.unit_from_symbol("km").unwrap();
    let square_centimeter = area.unit_from_symbol("cm²").unwrap();
    let are = area.unit_from_symbol("a").unwrap();
    let amnt = qv(293, -1);
    let l = Qty::new(amnt, centimeter);
    let a = qty_mul(&l, &len, &l, &len, &area);
    assert_eq!(a.amount(), amnt.mul(&amnt));
    assert_eq!(a.unit(), square_centimeter);
    let w = Qty::new(qv(2, 0), kilometer);
    let h = Qty::new(amnt, centimeter);
    let a = qty_mul(&w, &len, &h, &len, &area);
    assert_eq!(a.amount(), qv(2, -1).mul(&amnt));
    assert_eq!(a.unit(), are);
}

#[test]
fn test_aera_div_length() {
    let len = Length::definition();
    let area = Area::definition();
    let hectare = area.unit_from_symbol("ha").unwrap();
    let kilometer = len.unit_from_symbol("km").unwrap();
    let meter = len.unit_from_symbol("m").unwrap();
    let a = Qty::new(qv(294, -1), hectare);
    let w = Qty::new(qv(7, -1), kilometer);
    let h = qty_div(&a, &area, &w, &len, &len);
    assert_eq!(h.amount(), qv(420, 0));
    assert_eq!(h.unit(), meter);
}

#[test]
fn test_speed() {
    let d = Speed::definition();
    let meter_per_second = d.unit_from_symbol("m/s").unwrap();
    let kilometer_per_hour = d.unit_from_symbol("km/h").unwrap();
    assert!(d.is_ref_unit(meter_per_second));
    let amnt = qv(2354, -1);
    let v = Qty::new(amnt, kilometer_per_hour);
    assert_eq!(v.amount(), amnt);
    assert_eq!(v.unit(), kilometer_per_hour);
}

#[test]
fn test_length_div_duration() {
    let len = Length::definition();
    let dur = Duration::definition();
    let speed = Speed::definition();
    let mile = len.unit_from_symbol("mi").unwrap();
    let minute = dur.unit_from_symbol("min").unwrap();
    let meter_per_second = speed.unit_from_symbol("m/s").unwrap();
    let al = qv(351, -1);
    let l = Qty::new(al, mile);
    let at = qv(13, 0);
    let t = Qty::new(at, minute);
    let v = qty_div(&l, &len, &t, &dur, &speed);
    assert_eq!(
        v.amount(),
        al.div(&at).mul(&qv(44704, -5)).mul(&qv(60, 0)),
    );
    assert_eq!(v.unit(), meter_per_second);
}

#[test]
fn test_speed_mul_duration() {
    let len = Length::definition();
    let dur = Duration::definition();
    let speed = Speed::definition();
    let meter_per_second = speed.unit_from_symbol("m/s").unwrap();
    let minute = dur.unit_from_symbol("min").unwrap();
    let meter = len.unit_from_symbol("m").unwrap();
    let av = qv(294, -2);
    let v = Qty::new(av, meter_per_second);
    let at = qv(7, -1);
    let t = Qty::new(at, minute);
    let l = qty_mul(&v, &speed, &t, &dur, &len);
    assert_eq!(l.amount(), av.mul(&at).mul(&qv(60, 0)));
    assert_eq!(l.unit(), meter);
}

#[test]
fn test_length_div_speed() {
    let len = Length::definition();
    let dur = Duration::definition();
    let speed = Speed::definition();
    let kilometer = len.unit_from_symbol("km").unwrap();
    let meter_per_second = speed.unit_from_symbol("m/s").unwrap();
    let second = dur.unit_from_symbol("s").unwrap();
    let al = qv(7, -1);
    let l = Qty::new(al, kilometer);
    let av = qv(294, -2);
    let v = Qty::new(av, meter_per_second);
    let t = qty_div(&l, &len, &v, &speed, &dur);
    assert_eq!(t.amount(), al.mul(&qv(1, 3)).div(&av));
    assert_eq!(t.unit(), second);
}

#[test]
fn test_speed_div_duration() {
    let speed = Speed::definition();
    let dur = Duration::definition();
    let acc = Acceleration::definition();
    let meter_per_second = speed.unit_from_symbol("m/s").unwrap();
    let millisecond = dur.unit_from_symbol("ms").unwrap();
    let meter_per_second_squared = acc.unit_from_symbol("m/s²").unwrap();
    let av = qv(294, -2);
    let v = Qty::new(av, meter_per_second);
    let at = qv(7, 0);
    let t = Qty::new(at, millisecond);
    let a = qty_div(&v, &speed, &t, &dur, &acc);
    assert_eq!(a.amount(), av.div(&at).mul(&qv(1, 3)));
    assert_eq!(a.amount(), qv(420, 0));
    assert_eq!(a.unit(), meter_per_second_squared);
}

#[test]
fn test_datavolume() {
    let d = DataVolume::definition();
    let gibibyte = d.unit_from_symbol("GiB").unwrap();
    let terabyte = d.unit_from_symbol("TB").unwrap();
    let kibibyte = d.unit_from_symbol("KiB").unwrap();
    let amnt = qv(375, 0);
    let v = Qty::new(amnt, gibibyte);
    assert_eq!(v.amount(), amnt);
    assert_eq!(v.unit(), gibibyte);
    let v = d.convert(&v, terabyte);
    assert_eq!(v.unit(), terabyte);
    assert_eq!(v.amount(), qv(402653184, -9));
    let v = d.convert(&v, kibibyte);
    assert_eq!(v.unit(), kibibyte);
    assert_eq!(v.amount(), qv(393216000, 0));
}

#[test]
fn test_data_conversion_exact() {
    let d = DataVolume::definition();
    let byte = d.unit_from_symbol("B").unwrap();
    let kibibyte = d.unit_from_symbol("KiB").unwrap();
    let terabyte = d.unit_from_symbol("TB").unwrap();
    // 1 KiB == 1024 B.
    let one_kib = Qty::new(qv(1, 0), kibibyte);
    let kib_in_b = Qty::new(qv(1024, 0), byte);
    assert!(d.qty_eq(&one_kib, &kib_in_b));
    // 1 TB in KiB is exactly 976562500.
    let one_tb = Qty::new(qv(1, 0), terabyte);
    let in_kib = d.convert(&one_tb, kibibyte);
    assert_eq!(in_kib.amount(), qv(976562500, 0));
}

#[test]
fn test_datavolume_div_duration() {
    let vol = DataVolume::definition();
    let dur = Duration::definition();
    let thr = DataThroughput::definition();
    let mebibyte = vol.unit_from_symbol("MiB").unwrap();
    let millisecond = dur.unit_from_symbol("ms").unwrap();
    let gigabyte_per_second = thr.unit_from_symbol("GB/s").unwrap();
    let ad = qv(8375, -1);
    let d = Qty::new(ad, mebibyte);
    let at = qv(25, -1);
    let t = Qty::new(at, millisecond);
    let r = qty_div(&d, &vol, &t, &dur, &thr);
    assert_eq!(r.amount(), ad.div(&at).mul(&qv(1048576, -6)));
    assert_eq!(r.unit(), gigabyte_per_second);
}

#[test]
fn test_volume() {
    let d = Volume::definition();
    let cubic_meter = d.unit_from_symbol("m³").unwrap();
    let cubic_decimeter = d.unit_from_symbol("dm³").unwrap();
    assert!(d.is_ref_unit(cubic_meter));
    let amnt = qv(29305, -3);
    let v = Qty::new(amnt, cubic_decimeter);
    assert_eq!(v.amount(), amnt);
    assert_eq!(v.unit(), cubic_decimeter);
}

#[test]
fn test_length_mul_area() {
    let len = Length::definition();
    let area = Area::definition();
    let vol = Volume::definition();
    let decimeter = len.unit_from_symbol("dm").unwrap();
    let square_kilometer = area.unit_from_symbol("km²").unwrap();
    let cubic_decimeter = vol.unit_from_symbol("dm³").unwrap();
    let cubic_meter = vol.unit_from_symbol("m³").unwrap();
    let amnt = qv(21, -1);
    let l = Qty::new(amnt, decimeter);
    let a = qty_mul(&l, &len, &l, &len, &area);
    let v = qty_mul(&l, &len, &a, &area, &vol);
    assert_eq!(v.amount(), amnt.mul(&amnt).mul(&amnt));
    assert_eq!(v.unit(), cubic_decimeter);
    let b = Qty::new(qv(2, -2), square_kilometer);
    let h = Qty::new(amnt, decimeter);
    let v = qty_mul(&b, &area, &h, &len, &vol);
    assert_eq!(v.amount(), qv(2000, 0).mul(&amnt));
    assert_eq!(v.unit(), cubic_meter);
}

#[test]
fn test_volume_div_length() {
    let len = Length::definition();
    let area = Area::definition();
    let vol = Volume::definition();
    let liter = vol.unit_from_symbol("l").unwrap();
    let square_meter = area.unit_from_symbol("m²").unwrap();
    let millimeter = len.unit_from_symbol("mm").unwrap();
    let amnt = qv(-4, -1);
    let v = Qty::new(amnt, liter);
    let a = Qty::new(qv(7, -1), square_meter);
    let h = qty_div(&v, &vol, &a, &area, &len);
    assert_eq!(h.amount(), v.amount().div(&a.amount()));
    assert_eq!(h.unit(), millimeter);
}

#[test]
fn test_force_mul_length() {
    let force = Force::definition();
    let len = Length::definition();
    let energy = Energy::definition();
    let newton = force.unit_from_symbol("N").unwrap();
    let kilometer = len.unit_from_symbol("km").unwrap();
    let joule = energy.unit_from_symbol("J").unwrap();
    let af = qv(7853, -1);
    let f = Qty::new(af, newton);
    let al = qv(384, -1);
    let l = Qty::new(al, kilometer);
    let e = qty_mul(&f, &force, &l, &len, &energy);
    assert_eq!(e.amount(), af.mul(&al).mul(&qv(1, 3)));
    assert_eq!(e.unit(), joule);
}

#[test]
fn test_mass_mul_acceleration() {
    let mass = Mass::definition();
    let acc = Acceleration::definition();
    let force = Force::definition();
    let gram = mass.unit_from_symbol("g").unwrap();
    let meter_per_second_squared = acc.unit_from_symbol("m/s²").unwrap();
    let newton = force.unit_from_symbol("N").unwrap();
    let am = qv(758, -1);
    let m = Qty::new(am, gram);
    let aa = qv(94, -1);
    let a = Qty::new(aa, meter_per_second_squared);
    let f = qty_mul(&m, &mass, &a, &acc, &force);
    assert_eq!(f.amount(), aa.mul(&am).div(&qv(1, 3)));
    assert_eq!(f.unit(), newton);
}

#[test]
fn test_amount_div_duration() {
    let one = unitless();
    let dur = Duration::definition();
    let freq = Frequency::definition();
    let minute = dur.unit_from_symbol("min").unwrap();
    let kilohertz = freq.unit_from_symbol("kHz").unwrap();
    let a = qv(9030000, 0);
    let at = qv(25, -1);
    let t = Qty::new(at, minute);
    let f = qty_div(&Qty::new(a, 0), &one, &t, &dur, &freq);
    assert_eq!(f.amount(), a.div(&at).div(&qv(60, 0)).div(&qv(1, 3)));
    assert_eq!(f.unit(), kilohertz);
}

#[test]
fn test_energy_div_duration() {
    let energy = Energy::definition();
    let dur = Duration::definition();
    let power = Power::definition();
    let kilowatt_hour = energy.unit_from_symbol("kWh").unwrap();
    let minute = dur.unit_from_symbol("min").unwrap();
    let kilowatt = power.unit_from_symbol("kW").unwrap();
    let ae = qv(903, -1);
    let e = Qty::new(ae, kilowatt_hour);
    let at = qv(30, 0);
    let t = Qty::new(at, minute);
    let p = qty_div(&e, &energy, &t, &dur, &power);
    assert_eq!(p.amount(), ae.div(&at).mul(&qv(60, 0)));
    assert_eq!(p.unit(), kilowatt);
}

#[test]
fn test_temperature() {
    let d = Temperature::definition();
    assert_eq!(d.n_units(), 3);
    // Sorted by display name.
    assert_eq!(d.unit_name(0), "Degree Celsius");
    assert_eq!(d.unit_name(1), "Degree Fahrenheit");
    assert_eq!(d.unit_name(2), "Kelvin");
    let kelvin = d.unit_from_symbol("K").unwrap();
    let amnt = qv(215, -1);
    let m = Qty::new(amnt, kelvin);
    assert_eq!(m.amount(), amnt);
    assert_eq!(m.unit(), kelvin);
}

#[test]
fn test_temp_converter() {
    let d = Temperature::definition();
    let t = temperature_converter();
    let kelvin = d.unit_from_symbol("K").unwrap();
    let celsius = d.unit_from_symbol("°C").unwrap();
    let fahrenheit = d.unit_from_symbol("°F").unwrap();
    let tk = Qty::new(qv(175, -1), kelvin);
    let same = t.convert(&tk, kelvin).unwrap();
    assert_eq!(same.amount(), tk.amount());
    assert_eq!(same.unit(), kelvin);
    let tc = t.convert(&tk, celsius).unwrap();
    assert_eq!(tc.unit(), celsius);
    assert!(almost_eq(&tc.amount(), &qv(-25565, -2)));
    let tk2 = t.convert(&tc, kelvin).unwrap();
    assert!(almost_eq(&tk2.amount(), &tk.amount()));
    let tf = t.convert(&tk, fahrenheit).unwrap();
    assert_eq!(tf.unit(), fahrenheit);
    assert!(almost_eq(&tf.amount(), &qv(-42817, -2)));
    let tk2 = t.convert(&tf, kelvin).unwrap();
    assert!(almost_eq(&tk2.amount(), &tk.amount()));
    let tc = Qty::new(qv(347, -1), celsius);
    let tf = t.convert(&tc, fahrenheit).unwrap();
    assert!(almost_eq(&tf.amount(), &qv(9446, -2)));
    let tc2 = t.convert(&tf, celsius).unwrap();
    assert!(almost_eq(&tc2.amount(), &tc.amount()));
}

#[test]
fn test_temp_conversion_table_exact() {
    let d = Temperature::definition();
    let t = temperature_converter();
    let kelvin = d.unit_from_symbol("K").unwrap();
    let celsius = d.unit_from_symbol("°C").unwrap();
    let fahrenheit = d.unit_from_symbol("°F").unwrap();
    // 0 °C -> 273.15 K, via the table, with no chaining.
    let zero_c = Qty::new(qv(0, 0), celsius);
    let in_k = t.convert(&zero_c, kelvin).unwrap();
    assert_eq!(in_k.amount(), qv(27315, -2));
    assert_eq!(in_k.unit(), kelvin);
    // 0 K -> -459.67 °F, via the table, with no chaining.
    let zero_k = Qty::new(qv(0, 0), kelvin);
    let in_f = t.convert(&zero_k, fahrenheit).unwrap();
    assert_eq!(in_f.amount(), qv(-45967, -2));
    assert_eq!(in_f.unit(), fahrenheit);
    // An undeclared pair yields no conversion.
    let empty = quantities::ConversionTable { mappings: Vec::new() };
    assert!(empty.convert(&zero_c, kelvin).is_none());
}

#[test]
fn test_convert_round_trip_values() {
    let d = Mass::definition();
    let kilogram = d.unit_from_symbol("kg").unwrap();
    let ounce = d.unit_from_symbol("oz").unwrap();
    let v = Qty::new(qv(2935, -2), kilogram);
    let w = d.convert(&v, ounce);
    let back = d.convert(&w, kilogram);
    assert_eq!(back.amount(), v.amount());
    assert_eq!(back.unit(), v.unit());
}

#[test]
fn test_unit_ordering() {
    // Scales ascend strictly for quantities with pairwise distinct
    // scales, and the reference unit's scale is one.
    let d = Mass::definition();
    for k in 1..d.n_units() {
        assert_eq!(d.scale(k - 1).cmp_val(&d.scale(k)), -1);
    }
    let kilogram = d.unit_from_symbol("kg").unwrap();
    assert_eq!(d.scale(kilogram), Amount::from_int(1));
}

#[test]
fn test_best_fit_round_trip() {
    let d = Length::definition();
    let raws: Vec<Amount> = vec![qv(7, -3), qv(42, 0), qv(123456, -2), qv(5, 8)];
    for raw in raws {
        let fitted = d._fit(&raw);
        assert_eq!(fitted.amount().mul(&d.scale(fitted.unit())), raw);
    }
}

#[test]
fn test_unit_names_and_constants() {
    // Display names replace underscores with spaces, variant identifiers
    // are UpperCamel, and unit constants are UPPER_SNAKE.
    let d = Mass::definition();
    let sol = d.unit_from_symbol("M☉").unwrap();
    assert_eq!(d.unit_name(sol), "Sol Mass");
    let consts = quantities::unit_constants(&d);
    assert_eq!(consts.len(), 12);
    assert_eq!(consts[sol], "SOL_MASS");
    let kilogram = d.unit_from_symbol("kg").unwrap();
    assert_eq!(consts[kilogram], "KILOGRAM");
}
