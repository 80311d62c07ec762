use std::sync::Arc;
use wxcore::adapters::asos_entry;
use wxcore::adapters::direction_of;
use wxcore::adapters::floor_to_minute;
use wxcore::adapters::make_wind;
use wxcore::adapters::minute_before;
use wxcore::adapters::rpi_entry;
use wxcore::adapters::unh_entry;
use wxcore::adapters::whole_degrees;
use wxcore::adapters::ASOSOb;
use wxcore::adapters::RaspPiEntry;
use wxcore::adapters::UNHData;
use wxcore::Altitude;
use wxcore::Fahrenheit;
use wxcore::Fraction;
use wxcore::HPa;
use wxcore::InHg;
use wxcore::Inch;
use wxcore::Intensity;
use wxcore::Knots;
use wxcore::Layer;
use wxcore::Mbar;
use wxcore::Meter;
use wxcore::Mile;
use wxcore::Mph;
use wxcore::Param;
use wxcore::Percent;
use wxcore::Pressure;
use wxcore::SkyCoverage;
use wxcore::Station;
use wxcore::Temperature;
use wxcore::WxEntry;
use wxcore::WxEntryLayer;

fn station() -> Arc<Station> {
    Arc::new(Station {
        name: String::from("KALB"),
        altitude: Altitude::new(89_000_000, Meter),
        coords: (42_750_000, -73_800_000).into(),
        time_zone: String::from("US/Eastern"),
    })
}

#[test]
fn angles_are_cut_to_whole_degrees() {
    assert_eq!(whole_degrees(0), 0);
    assert_eq!(whole_degrees(999_999), 0);
    assert_eq!(whole_degrees(1_000_000), 1);
    assert_eq!(whole_degrees(274_900_000), 274);
    assert_eq!(whole_degrees(-5_000_000), 0);
    assert_eq!(whole_degrees(65_535_000_000), 65_535);
    assert_eq!(whole_degrees(65_536_000_000), 65_535);
    assert_eq!(whole_degrees(i64::MAX), 65_535);
    assert_eq!(whole_degrees(i64::MIN), 0);
    assert_eq!(direction_of(274_900_000).unwrap().degrees(), 270);
    assert_eq!(direction_of(360_999_999).unwrap().degrees(), 0);
    assert!(direction_of(361_000_000).is_none());
    assert_eq!(direction_of(-90_000_000).unwrap().degrees(), 0);
}

#[test]
fn instants_are_moved_to_the_start_of_a_minute() {
    assert_eq!(floor_to_minute(0), 0);
    assert_eq!(floor_to_minute(59), 0);
    assert_eq!(floor_to_minute(60), 60);
    assert_eq!(floor_to_minute(1_709_985_637), 1_709_985_600);
    assert_eq!(floor_to_minute(-1), -60);
    assert_eq!(floor_to_minute(-60), -60);
    assert_eq!(floor_to_minute(i64::MIN), i64::MIN);
    assert_eq!(minute_before(1_709_985_637), 1_709_985_540);
    assert_eq!(minute_before(1_709_985_600), 1_709_985_540);
    assert_eq!(minute_before(-1), -120);
    assert_eq!(minute_before(i64::MIN), i64::MIN);
}

#[test]
fn wind_needs_speed_and_angle() {
    assert!(make_wind(None, None).is_none());
    assert!(make_wind(Some(5_000_000), None).is_none());
    assert!(make_wind(None, Some(90_000_000)).is_none());
    let w = make_wind(Some(5_000_000), Some(94_000_000)).unwrap();
    assert_eq!(w.speed.value_in(Knots), 5_000_000);
    assert_eq!(w.direction.unwrap().degrees(), 90);
    let w = make_wind(Some(5_000_000), Some(400_000_000)).unwrap();
    assert!(w.direction.is_none());
}

fn report() -> ASOSOb {
    ASOSOb {
        utc_valid: 1_709_985_637,
        airtemp: Some(41_000_000),
        dewpointtemp: Some(28_900_000),
        windspeed: Some(8_000_000),
        winddirection: Some(300_000_000),
        altimeter: Some(30_010_000),
        mslp: Some(1_016_400_000),
        skycover: vec![Some("FEW".to_string()), Some("BKN".to_string()), None],
        skylevel: vec![Some(4_500), Some(25_000), None],
        visibility: Some(10_000_000),
        raw: Some("KALB 091251Z 30008KT 10SM FEW045 BKN250 05/M02 A3001".to_string()),
        present_wx: Some(vec!["-RA".to_string()]),
        precip_today: Some(120_000),
    }
}

#[test]
fn airport_report_becomes_an_observation() {
    let wx = asos_entry(report(), station());
    assert_eq!(wx.date_time, 1_709_985_600);
    assert_eq!(wx.station.name, "KALB");
    assert_eq!(WxEntry::layers(&wx), vec![Layer::NearSurface, Layer::SeaLevel]);

    let near = wx.surface().unwrap();
    assert_eq!(near.temperature, Some(Temperature::new(41_000_000, Fahrenheit)));
    assert_eq!(near.dewpoint, Some(Temperature::new(28_900_000, Fahrenheit)));
    assert_eq!(near.visibility.unwrap().value_in(Mile), 10_000_000);
    assert_eq!(near.wind.unwrap().speed.value_in(Knots), 8_000_000);
    assert_eq!(near.wind.unwrap().direction.unwrap().degrees(), 300);
    assert!(near.pressure.is_none());
    assert_eq!(near.height_msl.unwrap().value_in(Meter), 2_000_000);
    assert_eq!(near.wind_chill_valid(), Some(true));

    let sea = wx.sealevel().unwrap();
    assert_eq!(sea.pressure, Some(Pressure::new(1_016_400_000, HPa)));
    assert!(sea.temperature.is_none() && sea.wind.is_none() && sea.height_msl.is_none());

    assert_eq!(wx.altimeter, Some(Pressure::new(30_010_000, InHg)));
    assert_eq!(wx.best_slp(), Some(Pressure::new(1_016_400_000, Mbar)));
    assert_eq!(wx.skycover.as_ref().unwrap().oktas(), 6);
    assert_eq!(wx.skycover.as_ref().unwrap().to_text(), "FEW@4500 ft, BKN@25000 ft");
    let p = wx.precip_today.unwrap();
    assert_eq!(p.unknown.value_in(Inch), 120_000);
    assert_eq!(p.rain.value_in(Inch), 0);
    assert_eq!(p.snow.value_in(Inch), 0);
    assert_eq!(wx.wx().unwrap().rain, Intensity::Light);
    assert!(wx.raw_metar.as_ref().unwrap().starts_with("KALB"));
    assert!(wx.precip.is_none() && wx.cape.is_none() && wx.precip_probability.is_none());
}

#[test]
fn airport_report_with_gaps() {
    let mut ob = report();
    ob.airtemp = None;
    ob.winddirection = None;
    ob.mslp = None;
    ob.skycover = vec![Some("FEW".to_string()), None];
    ob.skylevel = vec![Some(4_500), Some(9_000)];
    ob.precip_today = None;
    ob.present_wx = None;
    ob.raw = None;
    let wx = asos_entry(ob, station());
    let near = wx.surface().unwrap();
    assert!(near.temperature.is_none());
    assert!(near.wind.is_none());
    assert!(wx.sealevel().unwrap().pressure.is_none());
    assert!(wx.skycover.is_none());
    assert!(wx.precip_today.is_none());
    assert!(wx.wx_codes.is_none());
    assert_eq!(wx.wx(), None);
    assert_eq!(wx.best_slp(), None);

    let mut ob = report();
    ob.skylevel = vec![None, None, None];
    let wx = asos_entry(ob, station());
    assert!(matches!(wx.skycover, Some(SkyCoverage::Clear)));
}

#[test]
fn campus_record_becomes_an_observation() {
    let data = UNHData {
        dt: 1_709_985_600,
        wind_speed: 4_200_000,
        temperature_2m: 38_500_000,
        rain: 30_000,
        relative_humidity: 71_000_000,
        wind_dir: 187_300_000,
    };
    let wx = unh_entry(data, station());
    assert_eq!(wx.date_time, 1_709_985_600);
    assert_eq!(WxEntry::layers(&wx), vec![Layer::NearSurface]);
    let near = wx.surface().unwrap();
    assert_eq!(near.temperature, Some(Temperature::new(38_500_000, Fahrenheit)));
    assert_eq!(near.relative_humidity, Some(Fraction::new(71_000_000, Percent)));
    assert_eq!(near.relative_humidity(), Some(Fraction::new(71_000_000, Percent)));
    assert_eq!(near.wind.unwrap().speed.value_in(Mph), 4_200_000);
    assert_eq!(near.wind.unwrap().direction.unwrap().degrees(), 190);
    assert!(near.dewpoint().is_none());
    assert!(near.dewpoint_from_rh_inputs().is_some());
    let p = wx.precip_today.unwrap();
    assert_eq!(p.rain.value_in(Inch), 30_000);
    assert_eq!(p.unknown.value_in(Inch), 0);
    assert!(wx.skycover.is_none() && wx.altimeter.is_none());
}

#[test]
fn home_record_becomes_a_store() {
    let record = RaspPiEntry {
        time: 1_709_985_637,
        indoor_temp: Some(68_000_000),
        outdoor_temp: Some(40_000_000),
        dewpoint: None,
        raw_pres: Some(1_002_300_000),
    };
    let (dt, wx) = rpi_entry(record, station());
    assert_eq!(dt, 1_709_985_540);
    assert_eq!(wx.date_time(), dt);
    assert_eq!(
        wx.get_temperature(Layer::Indoor, Param::Temperature),
        Some(Temperature::new(68_000_000, Fahrenheit))
    );
    assert_eq!(
        wx.get_temperature(Layer::NearSurface, Param::Temperature),
        Some(Temperature::new(40_000_000, Fahrenheit))
    );
    assert_eq!(wx.get_temperature(Layer::NearSurface, Param::Dewpoint), None);
    assert_eq!(
        wx.get_pressure(Layer::NearSurface, Param::Pressure),
        Some(Pressure::new(1_002_300_000, Mbar))
    );
    assert_eq!(
        wx.get_pressure(Layer::Indoor, Param::Pressure),
        Some(Pressure::new(1_002_300_000, Mbar))
    );
    assert_eq!(WxEntry::layers(&wx), vec![Layer::Indoor, Layer::NearSurface]);

    let empty = RaspPiEntry {
        time: 0,
        indoor_temp: None,
        outdoor_temp: None,
        dewpoint: Some(1),
        raw_pres: None,
    };
    let (dt, wx) = rpi_entry(empty, station());
    assert_eq!(dt, -60);
    assert_eq!(WxEntry::layers(&wx), vec![Layer::NearSurface]);
    assert_eq!(wx.get_temperature(Layer::NearSurface, Param::Dewpoint), Some(Temperature::new(1, Fahrenheit)));
}
