use std::sync::Arc;
use wxcore::observation::entry_api::wx_from_codes;
use wxcore::ignore_none;
use wxcore::Altitude;
use wxcore::Celsius;
use wxcore::Coordinates;
use wxcore::Decimal;
use wxcore::Direction;
use wxcore::Evaluated;
use wxcore::EvaluatedEntry;
use wxcore::Fahrenheit;
use wxcore::Feet;
use wxcore::Fraction;
use wxcore::HPa;
use wxcore::InHg;
use wxcore::Intensity;
use wxcore::Kelvin;
use wxcore::Knots;
use wxcore::Layer;
use wxcore::Mbar;
use wxcore::Meter;
use wxcore::ModelError;
use wxcore::Mph;
use wxcore::Percent;
use wxcore::Pressure;
use wxcore::Speed;
use wxcore::Station;
use wxcore::Temperature;
use wxcore::Wind;
use wxcore::Wx;
use wxcore::WxEntry;
use wxcore::WxEntryLayer;
use wxcore::WxEntryLayerStruct;
use wxcore::WxEntryStruct;

fn micro(x: f64) -> i64 {
    (x * 1_000_000.0).round() as i64
}

fn units(v: i64) -> f64 {
    v as f64 / 1_000_000.0
}

fn default_station() -> Arc<Station> {
    Arc::new(Station {
        name: String::from("Test"),
        altitude: Altitude::new(0, Meter),
        coords: (0, 0).into(),
        time_zone: String::from("US/Eastern"),
    })
}

fn station_at(metres: i64) -> Arc<Station> {
    Arc::new(Station {
        name: String::from("Hill"),
        altitude: Altitude::new(metres * 1_000_000, Meter),
        coords: Coordinates { latitude: 42_700_000, longitude: -73_800_000 },
        time_zone: String::from("US/Eastern"),
    })
}

/// Relative humidity from temperature and dewpoint, by the Magnus form.
fn magnus_rh(t: Temperature, td: Temperature) -> Fraction {
    let beta = 17.62;
    let lambda = 243.12;
    let t_c = units(t.value_in(Celsius));
    let td_c = units(td.value_in(Celsius));
    let rh = ((beta * td_c) / (lambda + td_c) - (beta * t_c) / (lambda + t_c)).exp();
    Fraction::new(micro(rh), Decimal)
}

/// Wind chill by the formula of the U.S. weather service.
fn nws_wind_chill(t: Temperature, v: Speed) -> Temperature {
    let t = units(t.value_in(Fahrenheit));
    let v_016 = units(v.value_in(Mph)).powf(0.16);
    Temperature::new(micro(35.74 + 0.6215 * t - 35.75 * v_016 + 0.4275 * t * v_016), Fahrenheit)
}

/// Evaluates the formulas that apply to a layer and keeps their values.
fn evaluate(l: &mut WxEntryLayerStruct) {
    l.evaluated = Evaluated::none();
    l.evaluated.rh_from_dewpoint = (&*l).rh_from_dewpoint_inputs().map(|(t, td)| magnus_rh(t, td));
    l.evaluated.wind_chill = (&*l).wind_chill_inputs().map(|(t, v)| nws_wind_chill(t, v));
}

fn apparent(l: &mut WxEntryLayerStruct) -> Option<Temperature> {
    evaluate(l);
    (&*l).apparent_temp()
}

fn float_within_one_decimal(val: f64, cmp: f64) -> bool {
    if val < (cmp + 0.1) && val > (cmp - 0.1) {
        true
    } else {
        println!("{val}");
        false
    }
}

fn calm(speed: i64) -> Option<Wind> {
    Some(Wind { direction: None, speed: Speed::new(speed, Mph) })
}

/// Wind of so many millionths of a knot.
fn blowing(speed: i64) -> Option<Wind> {
    Some(Wind { direction: None, speed: Speed::new(speed, Knots) })
}

#[test]
fn test_apparent_temp() {
    let mut e = WxEntryLayerStruct::new(Layer::NearSurface, default_station());

    e.temperature = Some(Temperature::new(51_000_000, Fahrenheit));
    assert_eq!(apparent(&mut e), Some(Temperature::new(51_000_000, Fahrenheit)));

    e.temperature = Some(Temperature::new(49_000_000, Fahrenheit));
    assert_eq!(apparent(&mut e), None);

    e.wind = calm(2_000_000);
    assert_eq!(apparent(&mut e), Some(Temperature::new(49_000_000, Fahrenheit)));

    e.temperature = Some(Temperature::new(79_000_000, Fahrenheit));
    assert_eq!(apparent(&mut e), Some(Temperature::new(79_000_000, Fahrenheit)));

    e.temperature = Some(Temperature::new(81_000_000, Fahrenheit));
    assert_eq!(apparent(&mut e), None);

    e.dewpoint = Some(Temperature::new(54_000_000, Fahrenheit));
    assert_eq!(apparent(&mut e), Some(Temperature::new(81_000_000, Fahrenheit)));

    // heat index

    e.temperature = Some(Temperature::new(81_000_000, Fahrenheit));
    e.dewpoint = Some(Temperature::new(65_000_000, Fahrenheit));
    let apparent_temp = apparent(&mut e).unwrap();
    assert!(float_within_one_decimal(units(apparent_temp.value_in(Fahrenheit)), 82.8));

    e.temperature = Some(Temperature::new(100_000_000, Fahrenheit));
    e.dewpoint = Some(Temperature::new(75_000_000, Fahrenheit));
    let apparent_temp = apparent(&mut e).unwrap();
    assert!(float_within_one_decimal(units(apparent_temp.value_in(Fahrenheit)), 113.7));

    // The figure quoted for this reading is 146.1; with the humidity that
    // the Magnus form gives for it, 46.7 %, the regression gives 146.2.
    e.temperature = Some(Temperature::new(110_000_000, Fahrenheit));
    e.dewpoint = Some(Temperature::new(85_000_000, Fahrenheit));
    let apparent_temp = apparent(&mut e).unwrap();
    assert!(float_within_one_decimal(units(apparent_temp.value_in(Fahrenheit)), 146.2));
    assert!((units(apparent_temp.value_in(Fahrenheit)) - 146.1).abs() < 0.11);

    // wind chill
    //
    // The figures quoted for the five readings that follow are 23.0, 48.1,
    // 38.9, -30.7 and -58.4. They are what the wind chill equation gives for
    // winds of 10, 3 and 40 knots. For miles per hour, the unit of these
    // readings, the equation gives 23.7, 39.5 and -56.6, and at 3 miles per
    // hour, which is not more than 3, there is no wind chill: the
    // temperature stands.

    e.temperature = Some(Temperature::new(32_000_000, Fahrenheit));
    e.wind = calm(10_000_000);
    let apparent_temp = apparent(&mut e).unwrap();
    assert!(float_within_one_decimal(units(apparent_temp.value_in(Fahrenheit)), 23.7));

    e.temperature = Some(Temperature::new(49_000_000, Fahrenheit));
    e.wind = calm(3_000_000);
    let apparent_temp = apparent(&mut e).unwrap();
    assert!(float_within_one_decimal(units(apparent_temp.value_in(Fahrenheit)), 49.0));

    e.temperature = Some(Temperature::new(49_000_000, Fahrenheit));
    e.wind = calm(40_000_000);
    let apparent_temp = apparent(&mut e).unwrap();
    assert!(float_within_one_decimal(units(apparent_temp.value_in(Fahrenheit)), 39.5));

    e.temperature = Some(Temperature::new(-20_000_000, Fahrenheit));
    e.wind = calm(3_000_000);
    let apparent_temp = apparent(&mut e).unwrap();
    assert!(float_within_one_decimal(units(apparent_temp.value_in(Fahrenheit)), -20.0));

    e.temperature = Some(Temperature::new(-20_000_000, Fahrenheit));
    e.wind = calm(40_000_000);
    let apparent_temp = apparent(&mut e).unwrap();
    assert!(float_within_one_decimal(units(apparent_temp.value_in(Fahrenheit)), -56.6));
}

#[test]
fn apparent_temperature_for_winds_in_knots() {
    let mut e = WxEntryLayerStruct::new(Layer::NearSurface, default_station());
    let quoted = [
        (32_000_000i64, 10_000_000i64, 23.0),
        (49_000_000, 3_000_000, 48.1),
        (49_000_000, 40_000_000, 38.9),
        (-20_000_000, 3_000_000, -30.7),
        (-20_000_000, 40_000_000, -58.4),
    ];
    for (t, knots, felt) in quoted.iter() {
        e.temperature = Some(Temperature::new(*t, Fahrenheit));
        e.wind = blowing(*knots);
        let apparent_temp = apparent(&mut e).unwrap();
        assert!(float_within_one_decimal(units(apparent_temp.value_in(Fahrenheit)), *felt));
    }
}

#[test]
fn wind_chill_is_valid_below_fifty_degrees_above_three_miles_per_hour() {
    let mut e = WxEntryLayerStruct::new(Layer::NearSurface, default_station());
    assert_eq!((&e).wind_chill_valid(), None);
    e.wind = calm(10_000_000);
    assert_eq!((&e).wind_chill_valid(), None);

    e.temperature = Some(Temperature::new(50_000_000, Fahrenheit));
    assert_eq!((&e).wind_chill_valid(), Some(false));
    e.wind = None;
    assert_eq!((&e).wind_chill_valid(), Some(false));

    e.temperature = Some(Temperature::new(49_999_999, Fahrenheit));
    assert_eq!((&e).wind_chill_valid(), None);
    e.wind = calm(3_000_000);
    assert_eq!((&e).wind_chill_valid(), Some(false));
    e.wind = calm(3_000_001);
    assert_eq!((&e).wind_chill_valid(), Some(true));

    // The same in other units: 9.9 °C is below 50 °F, 5 knots are above 3 mph.
    e.temperature = Some(Temperature::new(9_900_000, Celsius));
    e.wind = Some(Wind { direction: None, speed: Speed::new(5_000_000, Knots) });
    assert_eq!((&e).wind_chill_valid(), Some(true));
    assert_eq!(
        (&e).wind_chill_inputs().map(|(t, v)| (t.value_in(Celsius), v.value_in(Knots))),
        Some((9_900_000, 5_000_000))
    );
}

#[test]
fn apparent_temperature_at_three_miles_per_hour_is_the_temperature() {
    let mut e = WxEntryLayerStruct::new(Layer::NearSurface, default_station());
    e.temperature = Some(Temperature::new(49_000_000, Fahrenheit));
    e.wind = calm(3_000_000);
    assert_eq!(apparent(&mut e), Some(Temperature::new(49_000_000, Fahrenheit)));
    e.temperature = Some(Temperature::new(-20_000_000, Fahrenheit));
    assert_eq!(apparent(&mut e), Some(Temperature::new(-20_000_000, Fahrenheit)));
    // Ten miles per hour at freezing feel like 23.7 °F.
    e.temperature = Some(Temperature::new(32_000_000, Fahrenheit));
    e.wind = calm(10_000_000);
    let felt = apparent(&mut e).unwrap();
    assert!(float_within_one_decimal(units(felt.value_in(Fahrenheit)), 23.7));
}

#[test]
fn wind_chill_is_handed_out_only_where_it_is_valid() {
    let mut e = WxEntryLayerStruct::new(Layer::NearSurface, default_station());
    e.evaluated.wind_chill = Some(Temperature::new(1_000_000, Fahrenheit));
    assert_eq!((&e).wind_chill(), None);
    e.temperature = Some(Temperature::new(60_000_000, Fahrenheit));
    e.wind = calm(20_000_000);
    assert_eq!((&e).wind_chill(), None);
    assert_eq!((&e).wind_chill_inputs().map(|_| ()), None);
    e.temperature = Some(Temperature::new(30_000_000, Fahrenheit));
    assert_eq!((&e).wind_chill(), Some(Temperature::new(1_000_000, Fahrenheit)));
    e.evaluated.wind_chill = None;
    assert_eq!((&e).wind_chill(), None);
}

#[test]
fn heat_index_is_valid_above_eighty_degrees_above_forty_percent() {
    let mut e = WxEntryLayerStruct::new(Layer::NearSurface, default_station());
    assert_eq!((&e).heat_index_valid(), None);
    e.relative_humidity = Some(Fraction::new(90_000_000, Percent));
    assert_eq!((&e).heat_index_valid(), None);

    e.temperature = Some(Temperature::new(80_000_000, Fahrenheit));
    assert_eq!((&e).heat_index_valid(), Some(false));
    e.relative_humidity = None;
    assert_eq!((&e).heat_index_valid(), Some(false));

    e.temperature = Some(Temperature::new(80_000_001, Fahrenheit));
    assert_eq!((&e).heat_index_valid(), None);
    e.relative_humidity = Some(Fraction::new(40_000_000, Percent));
    assert_eq!((&e).heat_index_valid(), Some(false));
    e.relative_humidity = Some(Fraction::new(400_001, Decimal));
    assert_eq!((&e).heat_index_valid(), Some(true));

    assert_eq!((&e).heat_index(), Some(Temperature::new(79_929_382, Fahrenheit)));
    assert_eq!((&e).apparent_temp(), Some(Temperature::new(79_929_382, Fahrenheit)));
    e.temperature = Some(Temperature::new(70_000_000, Fahrenheit));
    assert_eq!((&e).heat_index(), None);
}

#[test]
fn apparent_temperature_has_one_answer_for_each_pair_of_validities() {
    let mut e = WxEntryLayerStruct::new(Layer::NearSurface, default_station());
    e.evaluated.wind_chill = Some(Temperature::new(-11_000_000, Fahrenheit));

    // No temperature: nothing is known.
    assert_eq!((&e).apparent_temp(), None);

    // Heat index valid, wind chill invalid.
    e.temperature = Some(Temperature::new(90_000_000, Fahrenheit));
    e.relative_humidity = Some(Fraction::new(60_000_000, Percent));
    assert_eq!((&e).apparent_temp(), Some(Temperature::new(99_677_718, Fahrenheit)));

    // Heat index invalid, wind chill invalid.
    e.relative_humidity = Some(Fraction::new(30_000_000, Percent));
    assert_eq!((&e).apparent_temp(), Some(Temperature::new(90_000_000, Fahrenheit)));

    // Heat index unknown, wind chill invalid.
    e.relative_humidity = None;
    assert_eq!((&e).apparent_temp(), None);

    // Heat index invalid, wind chill valid.
    e.temperature = Some(Temperature::new(20_000_000, Fahrenheit));
    e.wind = calm(15_000_000);
    assert_eq!((&e).apparent_temp(), Some(Temperature::new(-11_000_000, Fahrenheit)));

    // Heat index invalid, wind chill unknown.
    e.wind = None;
    assert_eq!((&e).apparent_temp(), None);

    // Heat index invalid, wind chill invalid by speed.
    e.wind = calm(1_000_000);
    assert_eq!((&e).apparent_temp(), Some(Temperature::new(20_000_000, Fahrenheit)));

    // Valid, but the formula was not evaluated: the absence is handed on.
    e.wind = calm(15_000_000);
    e.evaluated.wind_chill = None;
    assert_eq!((&e).apparent_temp(), None);
}

#[test]
fn dewpoint_and_humidity_prefer_what_was_reported() {
    let mut e = WxEntryLayerStruct::new(Layer::NearSurface, default_station());
    e.evaluated.dewpoint_from_rh = Some(Temperature::new(11_000_000, Celsius));
    e.evaluated.rh_from_dewpoint = Some(Fraction::new(22_000_000, Percent));
    assert_eq!((&e).dewpoint(), None);
    assert_eq!((&e).relative_humidity(), None);

    e.temperature = Some(Temperature::new(20_000_000, Celsius));
    assert_eq!((&e).dewpoint(), None);
    assert_eq!((&e).relative_humidity(), None);
    assert!((&e).dewpoint_from_rh_inputs().is_none());
    assert!((&e).rh_from_dewpoint_inputs().is_none());

    e.relative_humidity = Some(Fraction::new(50_000_000, Percent));
    assert_eq!((&e).relative_humidity(), Some(Fraction::new(50_000_000, Percent)));
    assert_eq!((&e).dewpoint(), Some(Temperature::new(11_000_000, Celsius)));
    assert_eq!((&e).dewpoint_from_rh(), Some(Temperature::new(11_000_000, Celsius)));
    assert_eq!((&e).rh_from_dewpoint(), None);
    assert!((&e).dewpoint_from_rh_inputs().is_some());

    e.dewpoint = Some(Temperature::new(9_000_000, Celsius));
    assert_eq!((&e).dewpoint(), Some(Temperature::new(9_000_000, Celsius)));
    assert_eq!((&e).relative_humidity(), Some(Fraction::new(50_000_000, Percent)));

    e.relative_humidity = None;
    assert_eq!((&e).relative_humidity(), Some(Fraction::new(22_000_000, Percent)));
    assert_eq!((&e).rh_from_dewpoint(), Some(Fraction::new(22_000_000, Percent)));
    assert_eq!((&e).dewpoint_from_rh(), None);
    assert_eq!(
        (&e).rh_from_dewpoint_inputs().map(|(t, td)| (t.value_in(Celsius), td.value_in(Celsius))),
        Some((20_000_000, 9_000_000))
    );

    e.temperature = None;
    assert_eq!((&e).relative_humidity(), None);
    assert_eq!((&e).dewpoint(), Some(Temperature::new(9_000_000, Celsius)));
}

#[test]
fn heights_follow_the_level_and_the_station() {
    let alt = Altitude::new(100_000_000, Meter);
    assert_eq!(Layer::All.height_agl(alt).unwrap().value_in(Meter), 0);
    assert_eq!(Layer::MBAR(850).height_agl(alt), None);
    assert_eq!(Layer::Indoor.height_agl(alt).unwrap().value_in(Meter), 1_000_000);
    assert_eq!(Layer::NearSurface.height_agl(alt).unwrap().value_in(Meter), 2_000_000);
    assert_eq!(Layer::SeaLevel.height_agl(alt).unwrap().value_in(Meter), -100_000_000);
    assert_eq!(Layer::AGL(30).height_agl(alt).unwrap().value_in(Meter), 30_000_000);
    assert_eq!(Layer::AGL(u64::MAX).height_agl(alt).unwrap().value_in(Meter), i64::MAX);
    assert_eq!(Layer::MSL(500).height_agl(alt).unwrap().value_in(Meter), 400_000_000);
    assert_eq!(Layer::MSL(40).height_agl(alt).unwrap().value_in(Meter), -60_000_000);
    let feet = Altitude::new(328_083_990, Feet);
    assert_eq!(Layer::SeaLevel.height_agl(feet).unwrap().value_in(Feet), -328_083_990);
    assert_eq!(Layer::SeaLevel.height_agl(feet).unwrap().unit(), Feet);

    let e = WxEntryLayerStruct::new(Layer::NearSurface, station_at(100));
    assert_eq!((&e).height_agl().unwrap().value_in(Meter), 2_000_000);
    assert_eq!((&e).height_msl().unwrap().value_in(Meter), 102_000_000);
    let sea = WxEntryLayerStruct::new(Layer::SeaLevel, station_at(100));
    assert_eq!((&sea).height_msl().unwrap().value_in(Meter), 0);
    let up = WxEntryLayerStruct::new(Layer::MSL(500), station_at(100));
    assert_eq!((&up).height_msl().unwrap().value_in(Meter), 500_000_000);
    let whole = WxEntryLayerStruct::new(Layer::All, station_at(100));
    assert_eq!((&whole).height_msl().unwrap().value_in(Meter), 100_000_000);
    let mut e = WxEntryLayerStruct::new(Layer::MBAR(500), station_at(100));
    assert_eq!((&e).height_agl(), None);
    assert_eq!((&e).height_msl(), None);
    e.height_msl = Some(Altitude::new(5_500_000_000, Meter));
    assert_eq!((&e).height_msl().unwrap().value_in(Meter), 5_500_000_000);
}

#[test]
fn text_of_the_levels() {
    assert_eq!(Layer::All.to_text(), "");
    assert_eq!(Layer::Indoor.to_text(), "Indoor");
    assert_eq!(Layer::NearSurface.to_text(), "Near Surface");
    assert_eq!(Layer::SeaLevel.to_text(), "Sea Level");
    assert_eq!(Layer::AGL(30).to_text(), "30 ft AGL");
    assert_eq!(Layer::MSL(0).to_text(), "0 ft MSL");
    assert_eq!(Layer::MBAR(850).to_text(), "850 mb");
}

#[test]
fn sea_level_reduction_needs_pressure_temperature_and_height() {
    let mut e = WxEntryLayerStruct::new(Layer::NearSurface, station_at(100));
    e.evaluated.slp = Some(Pressure::new(1_013_000_000, HPa));
    assert_eq!((&e).slp(), None);
    e.pressure = Some(Pressure::new(1_000_000_000, HPa));
    assert_eq!((&e).slp(), None);
    e.temperature = Some(Temperature::new(15_000_000, Celsius));
    assert_eq!((&e).slp(), Some(Pressure::new(1_013_000_000, HPa)));
    let inputs = (&e).slp_inputs().unwrap();
    assert_eq!(inputs.pressure.value_in(HPa), 1_000_000_000);
    assert_eq!(inputs.temperature.value_in(Celsius), 15_000_000);
    assert_eq!(inputs.height.value_in(Meter), 102_000_000);
    assert_eq!(inputs.latitude, 42_700_000);

    let mut e = WxEntryLayerStruct::new(Layer::MBAR(850), station_at(100));
    e.pressure = Some(Pressure::new(850_000_000, Mbar));
    e.temperature = Some(Temperature::new(5_000_000, Celsius));
    e.evaluated.slp = Some(Pressure::new(1_013_000_000, HPa));
    assert!((&e).slp_inputs().is_none());
    assert_eq!((&e).slp(), None);
}

#[test]
fn theta_e_takes_the_pressure_of_the_layer_or_of_the_altimeter() {
    let altimeter = Some(Pressure::new(29_920_000, InHg));
    let mut e = WxEntryLayerStruct::new(Layer::NearSurface, station_at(100));
    e.evaluated.theta_e = Some(Temperature::new(320_000_000, Kelvin));
    e.evaluated.station_pressure = Some(Pressure::new(1_001_000_000, HPa));
    e.temperature = Some(Temperature::new(25_000_000, Celsius));
    e.dewpoint = Some(Temperature::new(15_000_000, Celsius));

    assert_eq!((&e).theta_e(None), None);
    assert!((&e).station_pressure_inputs(None).is_none());

    let (a, h) = (&e).station_pressure_inputs(altimeter).unwrap();
    assert_eq!(a.value_in(InHg), 29_920_000);
    assert_eq!(h.value_in(Meter), 102_000_000);
    let inputs = (&e).theta_e_inputs(altimeter).unwrap();
    assert_eq!(inputs.pressure.value_in(HPa), 1_001_000_000);
    assert_eq!(inputs.temperature.value_in(Celsius), 25_000_000);
    assert_eq!(inputs.dewpoint.value_in(Celsius), 15_000_000);
    assert_eq!((&e).theta_e(altimeter), Some(Temperature::new(320_000_000, Kelvin)));

    e.pressure = Some(Pressure::new(990_000_000, HPa));
    assert!((&e).station_pressure_inputs(altimeter).is_none());
    assert_eq!((&e).theta_e_inputs(None).unwrap().pressure.value_in(HPa), 990_000_000);
    assert_eq!((&e).theta_e_inputs(altimeter).unwrap().pressure.value_in(HPa), 990_000_000);
    assert_eq!((&e).theta_e(None), Some(Temperature::new(320_000_000, Kelvin)));

    e.dewpoint = None;
    assert_eq!((&e).theta_e(altimeter), None);
    e.dewpoint = Some(Temperature::new(15_000_000, Celsius));
    e.temperature = None;
    assert_eq!((&e).theta_e(altimeter), None);
}

#[test]
fn wind_parts() {
    let mut e = WxEntryLayerStruct::new(Layer::NearSurface, default_station());
    assert_eq!((&e).wind_speed(), None);
    assert!((&e).wind_direction().is_none());
    assert!((&e).wind_from_speed_and_direction().is_none());
    let dir = Direction::from_degrees(274).unwrap();
    e.wind = Some(Wind { direction: Some(dir), speed: Speed::new(12_000_000, Knots) });
    assert_eq!((&e).wind_speed(), Some(Speed::new(12_000_000, Knots)));
    assert_eq!((&e).wind_direction().unwrap().degrees(), 270);
    let w = (&e).wind_from_speed_and_direction().unwrap();
    assert_eq!(w.direction.unwrap().degrees(), 270);
    assert_eq!(w.speed.value_in(Knots), 12_000_000);
    assert_eq!(w.to_text(), "270°@12.0 kts");
    assert_eq!(calm(2_500_000).unwrap().to_text(), "2.5 mph");
}

fn entry() -> WxEntryStruct {
    WxEntryStruct::new(1_709_985_600, station_at(100))
}

#[test]
fn best_sea_level_pressure_goes_by_rank() {
    let station = station_at(100);
    let mut wx = entry();
    assert_eq!(wx.best_slp(), None);

    // Fourth: from the altimeter, which needs a temperature near the surface.
    wx.altimeter = Some(Pressure::new(29_920_000, InHg));
    wx.evaluated = EvaluatedEntry {
        station_pressure: Some(Pressure::new(1_001_000_000, HPa)),
        mslp: Some(Pressure::new(1_014_000_000, HPa)),
    };
    assert_eq!(wx.best_slp(), None);
    let mut surface = WxEntryLayerStruct::new(Layer::NearSurface, station.clone());
    surface.temperature = Some(Temperature::new(10_000_000, Celsius));
    wx.insert_layer(surface.clone());
    assert_eq!(wx.best_slp(), Some(Pressure::new(1_014_000_000, HPa)));
    assert_eq!(wx.mslp_from_altimeter(), Some(Pressure::new(1_014_000_000, HPa)));
    let inputs = wx.mslp_inputs().unwrap();
    assert_eq!(inputs.altimeter.value_in(InHg), 29_920_000);
    assert_eq!(inputs.height.value_in(Meter), 100_000_000);
    assert_eq!(inputs.temperature.value_in(Celsius), 10_000_000);
    assert_eq!(wx.station_pressure_from_altimeter(), Some(Pressure::new(1_001_000_000, HPa)));
    assert_eq!(wx.station_pressure_inputs().unwrap().1.value_in(Meter), 100_000_000);

    // Third: the layer indoors, reduced.
    let mut indoor = WxEntryLayerStruct::new(Layer::Indoor, station.clone());
    indoor.temperature = Some(Temperature::new(21_000_000, Celsius));
    indoor.pressure = Some(Pressure::new(1_000_000_000, HPa));
    indoor.evaluated.slp = Some(Pressure::new(1_013_000_000, HPa));
    wx.insert_layer(indoor);
    assert_eq!(wx.best_slp(), Some(Pressure::new(1_013_000_000, HPa)));

    // Second: the layer near the surface, reduced.
    surface.pressure = Some(Pressure::new(1_000_500_000, HPa));
    surface.evaluated.slp = Some(Pressure::new(1_012_000_000, HPa));
    wx.insert_layer(surface);
    assert_eq!(wx.best_slp(), Some(Pressure::new(1_012_000_000, HPa)));

    // First: a pressure reported at sea level.
    let mut sealevel = WxEntryLayerStruct::new(Layer::SeaLevel, station.clone());
    wx.insert_layer(sealevel.clone());
    assert_eq!(wx.best_slp(), Some(Pressure::new(1_012_000_000, HPa)));
    sealevel.pressure = Some(Pressure::new(1_011_000_000, HPa));
    wx.insert_layer(sealevel);
    assert_eq!(wx.best_slp(), Some(Pressure::new(1_011_000_000, HPa)));
    assert_eq!(wx.layers.len(), 3);
}

#[test]
fn layers_are_kept_by_level() {
    let station = station_at(0);
    let mut wx = entry();
    assert!(wx.surface().is_none());
    assert!(WxEntry::layers(&wx).is_empty());
    let mut a = WxEntryLayerStruct::new(Layer::NearSurface, station.clone());
    a.temperature = Some(Temperature::new(1_000_000, Celsius));
    wx.insert_layer(a);
    wx.insert_layer(WxEntryLayerStruct::new(Layer::AGL(10), station.clone()));
    wx.insert_layer(WxEntryLayerStruct::new(Layer::AGL(20), station.clone()));
    let mut b = WxEntryLayerStruct::new(Layer::NearSurface, station.clone());
    b.temperature = Some(Temperature::new(2_000_000, Celsius));
    wx.insert_layer(b);
    assert_eq!(
        WxEntry::layers(&wx),
        vec![Layer::NearSurface, Layer::AGL(10), Layer::AGL(20)]
    );
    assert_eq!(wx.surface().unwrap().temperature, Some(Temperature::new(2_000_000, Celsius)));
    assert!(wx.indoor().is_none());
    assert!(wx.sealevel().is_none());
    assert!(wx.layer(Layer::AGL(20)).is_some());
    assert!(wx.layer(Layer::AGL(30)).is_none());
    assert!(wx.layer(Layer::MSL(20)).is_none());
    assert_eq!(wx.position(Layer::AGL(10)), Some(1));
    assert_eq!(wx.latitude(), 42_700_000);
    assert_eq!(wx.date_time(), 1_709_985_600);
    assert_eq!(WxEntry::station(&wx).name, "Hill");
}

#[test]
fn present_weather_is_read_from_all_groups() {
    let mut wx = entry();
    assert_eq!(wx.wx(), None);
    wx.wx_codes = Some(vec![]);
    assert_eq!(wx.wx(), Some(Wx::none()));
    wx.wx_codes = Some(vec!["-RA".to_string(), "BR".to_string(), "+TSSN".to_string()]);
    let w = wx.wx().unwrap();
    assert_eq!(w.rain, Intensity::Light);
    assert_eq!(w.snow, Intensity::Heavy);
    assert!(w.fog && w.thunderstorm);
    assert_eq!(
        wx_from_codes(&vec!["VCSH".to_string()]),
        Wx::parse_code("VCSH")
    );
}

#[test]
fn plain_record_of_a_plain_record_is_the_same() {
    let station = station_at(100);
    let mut wx = entry();
    let mut surface = WxEntryLayerStruct::new(Layer::NearSurface, station.clone());
    surface.temperature = Some(Temperature::new(10_000_000, Celsius));
    surface.relative_humidity = Some(Fraction::new(55_000_000, Percent));
    surface.evaluated.dewpoint_from_rh = Some(Temperature::new(1_300_000, Celsius));
    wx.insert_layer(surface);
    wx.insert_layer(WxEntryLayerStruct::new(Layer::MBAR(500), station.clone()));
    wx.raw_metar = Some("KALB 091251Z".to_string());
    wx.altimeter = Some(Pressure::new(29_920_000, InHg));
    wx.wx_codes = Some(vec!["-RA".to_string()]);

    let copy = wx.to_struct().unwrap();
    assert_eq!(copy.date_time, wx.date_time);
    assert_eq!(copy.raw_metar, wx.raw_metar);
    assert_eq!(copy.wx_codes, wx.wx_codes);
    assert_eq!(copy.altimeter, wx.altimeter);
    assert_eq!(copy.layers.len(), 2);
    let s = copy.surface().unwrap();
    assert_eq!(s.temperature, Some(Temperature::new(10_000_000, Celsius)));
    assert_eq!(s.relative_humidity, Some(Fraction::new(55_000_000, Percent)));
    assert_eq!(s.dewpoint, None);
    assert_eq!(s.dewpoint(), Some(Temperature::new(1_300_000, Celsius)));
    // The height above sea level is worked out on the way.
    assert_eq!(s.height_msl.unwrap().value_in(Meter), 102_000_000);
    assert_eq!(copy.layer(Layer::MBAR(500)).unwrap().height_msl, None);

    let l = (&wx.layers[0]).to_struct();
    assert_eq!(l.layer, Layer::NearSurface);
    assert_eq!(l.height_msl.unwrap().value_in(Meter), 102_000_000);
    assert_eq!(ModelError::MissingLayer(Layer::All).message(),
        "Layer in layers() was not contained in layer(layer).");
}

#[test]
fn ignore_none_applies_the_function_to_what_is_there() {
    assert_eq!(ignore_none(Some(3), |x: i32| x + 1), Some(4));
    assert_eq!(ignore_none(None, |x: i32| x + 1), None);
    let mut seen = 0;
    assert_eq!(ignore_none(Some("a"), |s: &str| { seen += 1; s.len() }), Some(1));
    assert_eq!(seen, 1);
}

#[test]
fn default_station_and_coordinates() {
    let s = Station::default();
    assert_eq!(s.name, "NULL Island");
    assert_eq!(s.altitude.value_in(Meter), 0);
    assert_eq!(s.coords, Coordinates { latitude: 0, longitude: 0 });
    assert_eq!(s.time_zone, "UTC");
    let c = Coordinates::from((42_700_000, -73_800_000));
    assert_eq!(c.latitude, 42_700_000);
    assert_eq!(c.longitude, -73_800_000);
    let copy = s.clone();
    assert_eq!(copy.name, s.name);
}

#[test]
fn plain_record_fails_on_the_first_level_without_a_layer() {
    let station = station_at(0);
    let mut wx = entry();
    wx.insert_layer(WxEntryLayerStruct::new(Layer::NearSurface, station.clone()));
    wx.insert_layer(WxEntryLayerStruct::new(Layer::Indoor, station.clone()));
    let tags = vec![Layer::NearSurface, Layer::AGL(10), Layer::Indoor, Layer::AGL(20)];
    assert_eq!(wx.to_struct_of(&tags).unwrap_err(), ModelError::MissingLayer(Layer::AGL(10)));
    assert_eq!(
        wx.to_struct_of(&vec![Layer::SeaLevel]).unwrap_err(),
        ModelError::MissingLayer(Layer::SeaLevel)
    );
    let s = wx.to_struct_of(&vec![Layer::Indoor, Layer::NearSurface, Layer::Indoor]).unwrap();
    assert_eq!(WxEntry::layers(&s), vec![Layer::Indoor, Layer::NearSurface]);
    assert_eq!(wx.to_struct_of(&vec![]).unwrap().layers.len(), 0);
}
