use wxcore::Altitude;
use wxcore::Atm;
use wxcore::Celsius;
use wxcore::Decimal;
use wxcore::Direction;
use wxcore::Distance;
use wxcore::Fahrenheit;
use wxcore::Feet;
use wxcore::Fraction;
use wxcore::HPa;
use wxcore::InHg;
use wxcore::Inch;
use wxcore::Kelvin;
use wxcore::Kilometer;
use wxcore::Knots;
use wxcore::Kph;
use wxcore::Mbar;
use wxcore::Meter;
use wxcore::Mile;
use wxcore::Milli;
use wxcore::Mm;
use wxcore::Mph;
use wxcore::Mps;
use wxcore::NauticalMile;
use wxcore::Percent;
use wxcore::PrecipAmount;
use wxcore::Pressure;
use wxcore::Proportional;
use wxcore::Psi;
use wxcore::Speed;
use wxcore::Temperature;
use wxcore::UnitsType;

/// A fixed-point value as a number of whole units.
fn units(micros: i64) -> f64 {
    micros as f64 / 1_000_000.0
}

#[test]
fn temperature() {
    let mut t = Temperature::new(68_000_000, Fahrenheit);

    for u in [Celsius, Kelvin, Fahrenheit, Kelvin, Celsius, Fahrenheit].iter() {
        t = t.convert(*u);
        assert!((units(t.value_in(Fahrenheit)) - 68.0).abs() < 0.001);
        assert!((units(t.value_in(Celsius)) - 20.0).abs() < 0.001);
        assert!((units(t.value_in(Kelvin)) - 293.15).abs() < 0.001);
    }

    assert_eq!(t.string_with_unit(), "68.0 °F");
}

#[test]
fn pressure() {
    let mut p = Pressure::new(897_000_000, Mbar);

    for u in [HPa, Mbar, InHg, Psi, Mbar, InHg, HPa, Psi, HPa].iter() {
        p = p.convert(*u);
        assert!((units(p.value_in(Mbar)) - 897.).abs() < 0.01);
        assert!((units(p.value_in(HPa)) - 897.).abs() < 0.01);
        assert!((units(p.value_in(InHg)) - 26.4883987947).abs() < 0.001);
        assert!((units(p.value_in(Psi)) - 13.0098850743).abs() < 0.001);
        assert!((units(p.value_in(Atm)) - 0.8852701702).abs() < 0.0001);
    }

    assert_eq!(p.string_with_unit(), "897.0 hPa");
}

#[test]
fn speed() {
    let mut s = Speed::new(180_000_000, Mph);

    for u in [Mph, Kph, Knots, Mps, Knots, Kph, Mph].iter() {
        s = s.convert(*u);
        assert!((units(s.value_in(Mph)) - 180.).abs() < 0.01);
        assert!((units(s.value_in(Kph)) - 289.68192).abs() < 0.01);
        assert!((units(s.value_in(Knots)) - 156.4157235421).abs() < 0.001);
        assert!((units(s.value_in(Mps)) - 80.4672).abs() < 0.001);
    }

    assert_eq!(s.string_with_unit(), "180.0 mph");
}

#[test]
fn proportional_conversions_are_exact_to_the_millionth() {
    let s = Speed::new(180_000_000, Mph);
    assert_eq!(s.value_in(Kph), 289_681_920);
    assert_eq!(s.value_in(Mps), 80_467_200);
    assert_eq!(s.value_in(Knots), 156_415_724);
    assert_eq!(s.value_in(Mph), 180_000_000);

    let d = Distance::new(1_000_000, Mile);
    assert_eq!(d.value_in(Meter), 1_609_344_000);
    assert_eq!(d.value_in(Kilometer), 1_609_344);
    assert_eq!(d.value_in(Feet), 5_280_000_000);
    assert_eq!(Distance::new(1_000_000, NauticalMile).value_in(Meter), 1_852_000_000);

    let p = Pressure::new(1_000_000, Atm);
    assert_eq!(p.value_in(HPa), 1_013_250_000);
    assert_eq!(p.value_in(Mbar), 1_013_250_000);
    assert_eq!(Pressure::new(29_920_000, InHg).value_in(HPa), 1_013_207_589);

    assert_eq!(PrecipAmount::new(1_000_000, Inch).value_in(Mm), 25_400_000);
    assert_eq!(Fraction::new(500_000, Decimal).value_in(Percent), 50_000_000);
    assert_eq!(Fraction::new(50_000_000, Percent).value_in(Milli), 500_000_000);
}

#[test]
fn conversion_rounds_to_nearest_with_ties_up() {
    // One millionth of a foot is 0.3048 millionths of a metre.
    assert_eq!(Distance::new(1, Feet).value_in(Meter), 0);
    assert_eq!(Distance::new(2, Feet).value_in(Meter), 1);
    assert_eq!(Distance::new(-2, Feet).value_in(Meter), -1);
    // Half a millionth goes up, on both sides of zero.
    assert_eq!(Fraction::new(5, Milli).value_in(Percent), 1);
    assert_eq!(Fraction::new(-5, Milli).value_in(Percent), 0);
    assert_eq!(Fraction::new(-15, Milli).value_in(Percent), -1);
}

#[test]
fn conversion_saturates_at_the_ends_of_the_range() {
    let far = Distance::new(i64::MAX, NauticalMile);
    assert_eq!(far.value_in(Meter), i64::MAX);
    let deep = Distance::new(i64::MIN, NauticalMile);
    assert_eq!(deep.value_in(Meter), i64::MIN);
    assert_eq!(Temperature::new(i64::MAX, Kelvin).value_in(Fahrenheit), i64::MAX);
    assert_eq!(Temperature::new(i64::MIN, Celsius).value_in(Kelvin), i64::MIN + 273_150_000);
}

#[test]
fn conversion_to_the_same_unit_changes_nothing() {
    for v in [0i64, 1, -1, 123_456_789, i64::MAX, i64::MIN] {
        assert_eq!(Speed::new(v, Knots).convert(Knots).value_in(Knots), v);
        assert_eq!(Temperature::new(v, Fahrenheit).convert(Fahrenheit).value_in(Fahrenheit), v);
    }
}

#[test]
fn proportional_round_trip_stays_within_the_rounding_of_its_steps() {
    let all = [Meter, Kilometer, Feet, Mile, NauticalMile];
    let values = [0i64, 1, -1, 7, 999_999, 1_000_000, -123_456_789, 40_075_000_000_000];
    for start in all.iter() {
        for a in all.iter() {
            for b in all.iter() {
                for v in values.iter() {
                    let x = Distance::new(*v, *start);
                    let back = x.convert(*a).convert(*b).convert(*start);
                    let u = start.coefficient() as i128;
                    let ca = a.coefficient() as i128;
                    let cb = b.coefficient() as i128;
                    let error = (back.value_in(*start) as i128 - *v as i128).abs();
                    assert!(2 * u * error <= u + ca + cb);
                }
            }
        }
    }
}

#[test]
fn temperature_round_trip_stays_within_one_millionth() {
    let all = [Kelvin, Fahrenheit, Celsius];
    let values = [0i64, 1, -1, 68_000_000, -40_000_000, 273_150_000, 1_234_567, -459_670_000];
    for start in all.iter() {
        for a in all.iter() {
            for b in all.iter() {
                for v in values.iter() {
                    let x = Temperature::new(*v, *start);
                    let back = x.convert(*a).convert(*b).convert(*start);
                    assert!((back.value_in(*start) - *v).abs() <= 1);
                }
            }
        }
    }
}

#[test]
fn temperature_conversions_go_through_kelvin() {
    assert_eq!(Temperature::new(32_000_000, Fahrenheit).value_in(Celsius), 0);
    assert_eq!(Temperature::new(32_000_000, Fahrenheit).value_in(Kelvin), 273_150_000);
    assert_eq!(Temperature::new(-40_000_000, Fahrenheit).value_in(Celsius), -40_000_000);
    assert_eq!(Temperature::new(100_000_000, Celsius).value_in(Fahrenheit), 212_000_000);
    assert_eq!(Temperature::new(0, Kelvin).value_in(Fahrenheit), -459_670_000);
    assert_eq!(Temperature::new(0, Kelvin).value_in(Celsius), -273_150_000);
    // 50 °F is 283.15 K exactly; 51 °F is 283.705555... K.
    assert_eq!(Temperature::new(50_000_000, Fahrenheit).value_in(Kelvin), 283_150_000);
    assert_eq!(Temperature::new(51_000_000, Fahrenheit).value_in(Kelvin), 283_705_556);
}

#[test]
fn equality_compares_in_the_left_unit() {
    assert!(Speed::new(1_000_000, Mps) == Speed::new(3_600_000, Kph));
    // The right operand is rounded to the millionth of the left unit first.
    assert!(Speed::new(1_000_000, Mps) == Speed::new(3_600_001, Kph));
    assert!(Speed::new(1_000_000, Mps) != Speed::new(3_600_002, Kph));
    assert!(Speed::new(3_600_001, Kph) != Speed::new(1_000_000, Mps));
    assert!(Temperature::new(0, Celsius) == Temperature::new(32_000_000, Fahrenheit));
    assert!(Temperature::new(0, Celsius) == Temperature::new(273_150_000, Kelvin));
    assert!(Temperature::new(51_000_000, Fahrenheit) == Temperature::new(51_000_000, Fahrenheit));
    assert!(Temperature::new(0, Celsius) != Temperature::new(1, Celsius));
}

#[test]
fn arithmetic_normalizes_the_right_operand() {
    let km = Distance::new(1_000_000, Kilometer);
    let m = Distance::new(500_000_000, Meter);
    let sum = km.add(m);
    assert_eq!(sum.unit(), Kilometer);
    assert_eq!(sum.value_in(Kilometer), 1_500_000);
    let diff = km.sub(m);
    assert_eq!(diff.unit(), Kilometer);
    assert_eq!(diff.value_in(Kilometer), 500_000);
    assert_eq!(m.sub(km).value_in(Meter), -500_000_000);
    let left = Distance::new(5_000_000, Kilometer).sub(Distance::new(2_000_000_000, Meter));
    assert_eq!(left.unit(), Kilometer);
    assert_eq!(left.value_in(Kilometer), 3_000_000);
    assert_eq!(Distance::new(i64::MIN, Meter).sub(m).value_in(Meter), i64::MIN);
}

#[test]
fn scaling_multiplies_and_divides_by_fixed_point_factors() {
    let a = Altitude::new(120_000_000, Meter);
    assert_eq!(a.mul(-1_000_000).value_in(Meter), -120_000_000);
    assert_eq!(a.mul(1_500_000).value_in(Meter), 180_000_000);
    assert_eq!(a.mul(0).value_in(Meter), 0);
    assert_eq!(a.div(2_000_000).value_in(Meter), 60_000_000);
    assert_eq!(a.div(-3_000_000).value_in(Meter), -40_000_000);
    assert_eq!(a.div(0).value_in(Meter), i64::MAX);
    assert_eq!(a.mul(-1_000_000).div(0).value_in(Meter), i64::MIN);
    assert_eq!(Altitude::new(0, Meter).div(0).value_in(Meter), 0);
    assert_eq!(Altitude::new(i64::MAX, Meter).mul(2_000_000).value_in(Meter), i64::MAX);
    assert_eq!(a.mul(2_000_000).unit(), Meter);
}

#[test]
fn text_has_one_decimal_and_the_symbol() {
    assert_eq!(Speed::new(12_345_678, Knots).string_with_unit(), "12.3 kts");
    assert_eq!(Speed::new(12_350_000, Mps).string_with_unit(), "12.4 m/s");
    assert_eq!(Speed::new(12_349_999, Kph).string_with_unit(), "12.3 kph");
    assert_eq!(Temperature::new(-5_250_000, Celsius).string_with_unit(), "-5.2 °C");
    assert_eq!(Temperature::new(-5_260_000, Celsius).string_with_unit(), "-5.3 °C");
    assert_eq!(Temperature::new(-40_000, Kelvin).string_with_unit(), "0.0 °K");
    assert_eq!(Temperature::new(0, Fahrenheit).string_with_unit(), "0.0 °F");
    assert_eq!(Fraction::new(45_000_000, Percent).string_with_unit(), "45.0 %");
    assert_eq!(Fraction::new(450_000, Decimal).string_with_unit(), "0.5 ");
    assert_eq!(Fraction::new(450_000_000, Milli).string_with_unit(), "450.0 1/1000");
    assert_eq!(PrecipAmount::new(1_250_000, Mm).string_with_unit(), "1.3 mm");
    assert_eq!(Pressure::new(29_920_000, InHg).string_with_unit(), "29.9 inHg");
    assert_eq!(Distance::new(10_000_000_000_000, Mile).string_with_unit(), "10000000.0 mi");
    assert_eq!(Distance::new(i64::MIN, Feet).string_with_unit(), "-9223372036854.8 ft");
}

#[test]
fn symbols_of_the_units() {
    assert_eq!(Mph.symbol(), "mph");
    assert_eq!(Knots.symbol(), "kts");
    assert_eq!(HPa.symbol(), "hPa");
    assert_eq!(Mbar.symbol(), "mb");
    assert_eq!(NauticalMile.symbol(), "nmi");
    assert_eq!(Inch.symbol(), "in");
    assert_eq!(Percent.symbol(), "%");
    assert_eq!(Decimal.symbol(), "");
    assert_eq!(Kelvin.symbol(), "°K");
    assert_eq!(Celsius.symbol(), "°C");
}

#[test]
fn direction_rounds_to_tens() {
    assert_eq!(Direction::from_degrees(44).unwrap().degrees(), 40);
    assert_eq!(Direction::from_degrees(45).unwrap().degrees(), 50);
    assert_eq!(Direction::from_degrees(4).unwrap().degrees(), 0);
    assert_eq!(Direction::from_degrees(5).unwrap().degrees(), 10);
    assert_eq!(Direction::from_degrees(360).unwrap().degrees(), 0);
    assert_eq!(Direction::from_degrees(355).unwrap().degrees(), 0);
    assert_eq!(Direction::from_degrees(354).unwrap().degrees(), 350);
    assert_eq!(Direction::from_degrees(270).unwrap().degrees(), 270);
}

#[test]
fn direction_is_a_multiple_of_ten_below_a_full_turn() {
    for raw in 0u16..=360 {
        let d = Direction::from_degrees(raw).unwrap().degrees();
        assert_eq!(d % 10, 0);
        assert!(d <= 350);
        let distance = (d as i32 - raw as i32).rem_euclid(360);
        assert!(distance <= 5 || distance >= 356);
    }
    for raw in [361u16, 362, 1000, u16::MAX] {
        assert!(Direction::from_degrees(raw).is_err());
    }
}

#[test]
fn direction_error_names_the_degrees() {
    let e = Direction::from_degrees(361).unwrap_err();
    assert_eq!(e.degrees, 361);
    assert_eq!(e.message(), "Degrees provided (361) were not under 360.");
    assert_eq!(Direction::sanitize_degrees(65535).unwrap_err().degrees, 65535);
    assert_eq!(Direction::sanitize_degrees(123), Ok(120));
}

#[test]
fn direction_has_sixteen_compass_points() {
    let expected = [
        (0, "N"), (10, "N"), (20, "NNE"), (30, "NNE"), (40, "NE"), (50, "NE"), (60, "ENE"),
        (70, "ENE"), (80, "E"), (90, "E"), (100, "E"), (110, "ESE"), (120, "ESE"), (130, "SE"),
        (140, "SE"), (150, "SSE"), (160, "SSE"), (170, "S"), (180, "S"), (190, "S"),
        (200, "SSW"), (210, "SSW"), (220, "SW"), (230, "SW"), (240, "WSW"), (250, "WSW"),
        (260, "W"), (270, "W"), (280, "W"), (290, "WNW"), (300, "WNW"), (310, "NW"),
        (320, "NW"), (330, "NNW"), (340, "NNW"), (350, "N"),
    ];
    for (degrees, point) in expected.iter() {
        assert_eq!(Direction::from_degrees(*degrees).unwrap().cardinal(), *point);
        assert_eq!(wxcore::int_to_cardinal(*degrees), Some(*point));
    }
    assert_eq!(wxcore::int_to_cardinal(5), None);
    assert_eq!(wxcore::int_to_cardinal(360), None);
    assert_eq!(Direction::from_degrees(225).unwrap().to_text(), "230");
}

#[test]
fn quantities_share_one_interface() {
    fn in_both<T: UnitsType, Q: wxcore::Unit<T>>(q: Q, a: T, b: T) -> (i64, i64, String) {
        (q.value_in(a), q.convert(b).value_in(b), q.string_with_unit())
    }
    let t: Temperature = wxcore::Unit::new(20_000_000, Celsius);
    assert_eq!(in_both(t, Fahrenheit, Kelvin), (68_000_000, 293_150_000, "20.0 °C".to_string()));
    let s: Speed = wxcore::Unit::new(10_000_000, Mps);
    assert_eq!(in_both(s, Kph, Knots), (36_000_000, 19_438_445, "10.0 m/s".to_string()));
    assert_eq!(wxcore::Unit::unit(&s), Mps);
    assert_eq!(Speed::new_const(1, Mph).value_in(Mph), 1);
}
