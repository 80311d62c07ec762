//! From the readings of a source to an observation. Each source delivers
//! plain values; what is made of them is said here.
use vstd::prelude::*;
use std::sync::Arc;
use crate::fixed::saturate;
use crate::fixed::sub_saturating;
use crate::layer::Layer;
use crate::layer::Param;
use crate::observation::dense::copy_text;
use crate::observation::dense::copy_texts;
use crate::observation::dense::WxEntryLayerStruct;
use crate::observation::dense::WxEntryStruct;
use crate::observation::readings::text_option_view;
use crate::observation::readings::texts_option_view;
use crate::observation::readings::Evaluated;
use crate::observation::readings::EvaluatedEntry;
use crate::observation::readings::Precip;
use crate::observation::readings::Wind;
use crate::observation::sparse::HashMapWx;
use crate::observation::table::lemma_first_index;
use crate::observation::sparse::Value;
use crate::sky::sky_of_report;
use crate::sky::sky_option_view;
use crate::sky::skycover_from_vecs;
use crate::sky::SkyCoverage;
use crate::sky::SkyView;
use crate::station::share;
use crate::station::Station;
use crate::units::direction::quantize;
use crate::units::direction::Direction;
use crate::units::families::Altitude;
use crate::units::families::Distance;
use crate::units::families::DistanceUnit;
use crate::units::families::Fraction;
use crate::units::families::FractionalUnit;
use crate::units::families::PrecipAmount;
use crate::units::families::PrecipUnit;
use crate::units::families::Pressure;
use crate::units::families::PressureUnit;
use crate::units::families::Speed;
use crate::units::families::SpeedUnit;
use crate::units::temperature::Temperature;
use crate::units::temperature::TemperatureUnit;

verus! {

/// The whole degrees of an angle given in millionths of a degree: what is
/// behind the point is cut off, an angle below zero counts as zero, and one
/// beyond 65535 degrees as 65535.
pub open spec fn spec_whole_degrees(angle: int) -> int {
    if angle <= 0 {
        0
    } else if angle / 1_000_000 > 65_535 {
        65_535
    } else {
        angle / 1_000_000
    }
}

/// The whole degrees of an angle given in millionths of a degree.
pub fn whole_degrees(angle: i64) -> (r: u16)
    ensures
        r == spec_whole_degrees(angle as int),
{
    if angle <= 0 {
        0
    } else if angle / 1_000_000 > 65_535 {
        65_535
    } else {
        (angle / 1_000_000) as u16
    }
}

/// The direction of an angle given in millionths of a degree, as its
/// degrees: the direction nearest to the whole degrees, and none for more
/// than a full turn.
pub open spec fn spec_direction_of(angle: int) -> Option<int> {
    if spec_whole_degrees(angle) > 360 {
        None
    } else {
        Some(quantize(spec_whole_degrees(angle)))
    }
}

/// The degrees of a direction, if there is one.
pub open spec fn degrees_view(direction: Option<Direction>) -> Option<int> {
    match direction {
        Some(d) => Some(d.spec_degrees()),
        None => None,
    }
}

/// The direction of an angle given in millionths of a degree.
pub fn direction_of(angle: i64) -> (r: Option<Direction>)
    ensures
        degrees_view(r) == spec_direction_of(angle as int),
{
    match Direction::from_degrees(whole_degrees(angle)) {
        Ok(d) => Some(d),
        Err(_) => None,
    }
}

/// The start of the minute that an instant falls in.
pub open spec fn spec_floor_to_minute(seconds: int) -> int {
    saturate(seconds - seconds % 60)
}

/// The start of the minute that an instant falls in.
pub fn floor_to_minute(seconds: i64) -> (r: i64)
    ensures
        r == spec_floor_to_minute(seconds as int),
{
    let second = match seconds.checked_rem_euclid(60) {
        Some(s) => s,
        None => 0,
    };
    sub_saturating(seconds, second)
}

/// The start of the minute before the one that an instant falls in.
pub open spec fn spec_minute_before(seconds: int) -> int {
    saturate(seconds - (seconds % 60 + 60))
}

/// The start of the minute before the one that an instant falls in: a
/// measurement is stamped when it ends and belongs to the minute in which it
/// began.
pub fn minute_before(seconds: i64) -> (r: i64)
    ensures
        r == spec_minute_before(seconds as int),
{
    let second = match seconds.checked_rem_euclid(60) {
        Some(s) => s,
        None => 0,
    };
    sub_saturating(seconds, second + 60)
}

/// A temperature in Fahrenheit, if there is a value.
pub open spec fn fahrenheit(value: Option<i64>) -> Option<Temperature> {
    match value {
        Some(x) => Some(Temperature { value: x, unit: TemperatureUnit::Fahrenheit }),
        None => None,
    }
}

fn in_fahrenheit(value: Option<i64>) -> (r: Option<Temperature>)
    ensures
        r == fahrenheit(value),
{
    match value {
        Some(x) => Some(Temperature::new(x, TemperatureUnit::Fahrenheit)),
        None => None,
    }
}

/// A pressure in `unit`, if there is a value.
pub open spec fn pressure_of(value: Option<i64>, unit: PressureUnit) -> Option<Pressure> {
    match value {
        Some(x) => Some(Pressure { value: x, unit }),
        None => None,
    }
}

fn in_pressure(value: Option<i64>, unit: PressureUnit) -> (r: Option<Pressure>)
    ensures
        r == pressure_of(value, unit),
{
    match value {
        Some(x) => Some(Pressure::new(x, unit)),
        None => None,
    }
}

/// What an airport station reports. Temperatures are in Fahrenheit, the wind
/// in knots and degrees, the altimeter setting in inches of mercury, the
/// sea-level pressure in millibars, the visibility in miles and the
/// precipitation in inches; all in millionths.
#[derive(Debug)]
pub struct ASOSOb {
    /// The instant of the report, in seconds since 1970-01-01 00:00 UTC.
    pub utc_valid: i64,
    pub airtemp: Option<i64>,
    pub dewpointtemp: Option<i64>,
    pub windspeed: Option<i64>,
    pub winddirection: Option<i64>,
    pub altimeter: Option<i64>,
    pub mslp: Option<i64>,
    pub skycover: Vec<Option<String>>,
    pub skylevel: Vec<Option<u32>>,
    pub visibility: Option<i64>,
    pub raw: Option<String>,
    pub present_wx: Option<Vec<String>>,
    pub precip_today: Option<i64>,
}

/// The wind of a speed in knots and an angle: none without both, and
/// without a direction where the angle is more than a full turn.
pub open spec fn spec_make_wind(speed: Option<i64>, dir: Option<i64>) -> Option<(Speed, Option<int>)> {
    match (speed, dir) {
        (Some(s), Some(d)) => Some(
            (Speed { value: s, unit: SpeedUnit::Knots }, spec_direction_of(d as int)),
        ),
        _ => None,
    }
}

/// A wind as its speed and the degrees of its direction.
pub open spec fn wind_view(wind: Option<Wind>) -> Option<(Speed, Option<int>)> {
    match wind {
        Some(w) => Some((w.speed, degrees_view(w.direction))),
        None => None,
    }
}

/// The wind of a speed in knots and an angle in degrees, both in millionths.
pub fn make_wind(speed: Option<i64>, dir: Option<i64>) -> (r: Option<Wind>)
    ensures
        wind_view(r) == spec_make_wind(speed, dir),
{
    match (speed, dir) {
        (Some(s), Some(d)) => Some(
            Wind { direction: direction_of(d), speed: Speed::new(s, SpeedUnit::Knots) },
        ),
        _ => None,
    }
}

/// An amount of precipitation of unknown kind, in inches.
pub open spec fn unknown_precip(value: Option<i64>) -> Option<Precip> {
    match value {
        Some(x) => Some(
            Precip {
                unknown: PrecipAmount { value: x, unit: PrecipUnit::Inch },
                rain: PrecipAmount { value: 0, unit: PrecipUnit::Inch },
                snow: PrecipAmount { value: 0, unit: PrecipUnit::Inch },
            },
        ),
        None => None,
    }
}

/// The sky of a report, and none where the report is wrong.
pub open spec fn sky_or_none(cover: Seq<Option<String>>, level: Seq<Option<u32>>) -> Option<
    SkyView,
> {
    match sky_of_report(cover, level) {
        Ok(sky) => Some(sky),
        Err(_) => None,
    }
}

/// The observation that an airport station's report makes.
///
/// It is stamped with the start of the minute of the report. It has a layer
/// near the surface, two metres up, with temperature, dewpoint, visibility
/// and wind, and a layer at sea level with the reported sea-level pressure.
/// Beside the layers it holds the altimeter setting, the sky (none where the
/// report of the sky is wrong), the precipitation of the day as of unknown
/// kind, the weather groups and the raw report.
pub fn asos_entry(ob: ASOSOb, station: Arc<Station>) -> (r: WxEntryStruct)
    ensures
        r.wf(),
        r.date_time == spec_floor_to_minute(ob.utc_valid as int),
        r.station == station,
        r.layers@.len() == 2,
        r.layers@[0].layer == Layer::NearSurface,
        r.layers@[0].station == station,
        r.layers@[0].temperature == fahrenheit(ob.airtemp),
        r.layers@[0].pressure is None,
        r.layers@[0].visibility == (match ob.visibility {
            Some(x) => Some(Distance { value: x, unit: DistanceUnit::Mile }),
            None => None,
        }),
        wind_view(r.layers@[0].wind) == spec_make_wind(ob.windspeed, ob.winddirection),
        r.layers@[0].dewpoint == fahrenheit(ob.dewpointtemp),
        r.layers@[0].relative_humidity is None,
        r.layers@[0].height_msl == Some(Altitude { value: 2_000_000, unit: DistanceUnit::Meter }),
        r.layers@[0].evaluated == Evaluated::spec_none(),
        r.layers@[1].layer == Layer::SeaLevel,
        r.layers@[1].station == station,
        r.layers@[1].temperature is None,
        r.layers@[1].pressure == pressure_of(ob.mslp, PressureUnit::HPa),
        r.layers@[1].visibility is None,
        r.layers@[1].wind is None,
        r.layers@[1].dewpoint is None,
        r.layers@[1].relative_humidity is None,
        r.layers@[1].height_msl is None,
        r.layers@[1].evaluated == Evaluated::spec_none(),
        r.altimeter == pressure_of(ob.altimeter, PressureUnit::InHg),
        sky_option_view(r.skycover) == sky_or_none(ob.skycover@, ob.skylevel@),
        r.cape is None,
        r.precip is None,
        r.precip_probability is None,
        r.precip_today == unknown_precip(ob.precip_today),
        texts_option_view(r.wx_codes) == texts_option_view(ob.present_wx),
        text_option_view(r.raw_metar) == text_option_view(ob.raw),
        r.evaluated == EvaluatedEntry::spec_none(),
{
    let date_time = floor_to_minute(ob.utc_valid);

    let precip_today = match ob.precip_today {
        Some(x) => Some(
            Precip {
                unknown: PrecipAmount::new(x, PrecipUnit::Inch),
                rain: PrecipAmount::new(0, PrecipUnit::Inch),
                snow: PrecipAmount::new(0, PrecipUnit::Inch),
            },
        ),
        None => None,
    };

    let temperature = in_fahrenheit(ob.airtemp);
    let dewpoint = in_fahrenheit(ob.dewpointtemp);
    let visibility = match ob.visibility {
        Some(x) => Some(Distance::new(x, DistanceUnit::Mile)),
        None => None,
    };
    let pressure = in_pressure(ob.mslp, PressureUnit::HPa);
    let wind = make_wind(ob.windspeed, ob.winddirection);

    let near_surface = WxEntryLayerStruct {
        layer: Layer::NearSurface,
        station: share(&station),
        temperature,
        pressure: None,
        visibility,
        wind,
        dewpoint,
        relative_humidity: None,
        height_msl: Layer::NearSurface.height_agl(Altitude::new(0, DistanceUnit::Meter)),
        evaluated: Evaluated::none(),
    };

    let sea_level = WxEntryLayerStruct {
        layer: Layer::SeaLevel,
        station: share(&station),
        temperature: None,
        pressure,
        visibility: None,
        wind: None,
        dewpoint: None,
        relative_humidity: None,
        height_msl: None,
        evaluated: Evaluated::none(),
    };

    let altimeter = in_pressure(ob.altimeter, PressureUnit::InHg);
    let wx_codes = copy_texts(&ob.present_wx);
    let raw_metar = copy_text(&ob.raw);
    let skycover = match skycover_from_vecs(ob.skycover, ob.skylevel) {
        Ok(s) => Some(s),
        Err(_) => None,
    };

    let mut wx_entry = WxEntryStruct::new(date_time, station);
    proof {
        lemma_first_index(wx_entry.layer_tags(), Layer::NearSurface);
    }
    wx_entry.insert_layer(near_surface);
    proof {
        lemma_first_index(wx_entry.layer_tags(), Layer::SeaLevel);
        assert(wx_entry.layer_tags()[0] == Layer::NearSurface);
    }
    wx_entry.insert_layer(sea_level);
    wx_entry.altimeter = altimeter;
    wx_entry.skycover = skycover;
    wx_entry.precip_today = precip_today;
    wx_entry.wx_codes = wx_codes;
    wx_entry.raw_metar = raw_metar;
    wx_entry
}

/// What a campus station records: wind speed in miles per hour, temperature
/// in Fahrenheit, rain in inches, relative humidity in percent and wind
/// direction in degrees; all in millionths.
#[derive(Debug, Clone, Copy)]
pub struct UNHData {
    /// The instant of the record, in seconds since 1970-01-01 00:00 UTC.
    pub dt: i64,
    pub wind_speed: i64,
    pub temperature_2m: i64,
    pub rain: i64,
    pub relative_humidity: i64,
    pub wind_dir: i64,
}

/// The observation that a campus station's record makes: one layer near the
/// surface with temperature, relative humidity and wind, and the rain of the
/// day beside it.
pub fn unh_entry(data: UNHData, station: Arc<Station>) -> (r: WxEntryStruct)
    ensures
        r.wf(),
        r.date_time == data.dt,
        r.station == station,
        r.layers@.len() == 1,
        r.layers@[0].layer == Layer::NearSurface,
        r.layers@[0].station == station,
        r.layers@[0].temperature == Some(
            Temperature { value: data.temperature_2m, unit: TemperatureUnit::Fahrenheit },
        ),
        r.layers@[0].relative_humidity == Some(
            Fraction { value: data.relative_humidity, unit: FractionalUnit::Percent },
        ),
        wind_view(r.layers@[0].wind) == Some(
            (
                Speed { value: data.wind_speed, unit: SpeedUnit::Mph },
                spec_direction_of(data.wind_dir as int),
            ),
        ),
        r.layers@[0].pressure is None,
        r.layers@[0].visibility is None,
        r.layers@[0].dewpoint is None,
        r.layers@[0].height_msl is None,
        r.layers@[0].evaluated == Evaluated::spec_none(),
        r.precip_today == Some(
            Precip {
                unknown: PrecipAmount { value: 0, unit: PrecipUnit::Inch },
                rain: PrecipAmount { value: data.rain, unit: PrecipUnit::Inch },
                snow: PrecipAmount { value: 0, unit: PrecipUnit::Inch },
            },
        ),
        r.skycover is None,
        r.wx_codes is None,
        r.raw_metar is None,
        r.precip is None,
        r.precip_probability is None,
        r.altimeter is None,
        r.cape is None,
        r.evaluated == EvaluatedEntry::spec_none(),
{
    let mut layer = WxEntryLayerStruct::new(Layer::NearSurface, share(&station));
    layer.temperature = Some(Temperature::new(data.temperature_2m, TemperatureUnit::Fahrenheit));
    layer.relative_humidity = Some(Fraction::new(data.relative_humidity, FractionalUnit::Percent));
    layer.wind = Some(
        Wind {
            direction: direction_of(data.wind_dir),
            speed: Speed::new(data.wind_speed, SpeedUnit::Mph),
        },
    );
    let mut wx_entry = WxEntryStruct::new(data.dt, station);
    proof {
        lemma_first_index(wx_entry.layer_tags(), Layer::NearSurface);
    }
    wx_entry.insert_layer(layer);
    wx_entry.precip_today = Some(
        Precip {
            unknown: PrecipAmount::new(0, PrecipUnit::Inch),
            rain: PrecipAmount::new(data.rain, PrecipUnit::Inch),
            snow: PrecipAmount::new(0, PrecipUnit::Inch),
        },
    );
    wx_entry
}

/// What a home station records: temperatures in Fahrenheit and the pressure
/// in millibars; all in millionths.
#[derive(Debug, Clone, Copy)]
pub struct RaspPiEntry {
    /// The instant at which the measurement ended, in seconds since
    /// 1970-01-01 00:00 UTC.
    pub time: i64,
    pub indoor_temp: Option<i64>,
    pub outdoor_temp: Option<i64>,
    pub dewpoint: Option<i64>,
    pub raw_pres: Option<i64>,
}

/// A temperature in Fahrenheit as a value of the store, if there is one.
pub open spec fn stored_fahrenheit(value: Option<i64>) -> Option<Value> {
    match value {
        Some(x) => Some(
            Value::Temperature(Temperature { value: x, unit: TemperatureUnit::Fahrenheit }),
        ),
        None => None,
    }
}

/// A pressure in millibars as a value of the store, if there is one.
pub open spec fn stored_millibars(value: Option<i64>) -> Option<Value> {
    match value {
        Some(x) => Some(Value::Pressure(Pressure { value: x, unit: PressureUnit::Mbar })),
        None => None,
    }
}

/// `table` with `value` under `layer` and `param`, where there is a value.
pub open spec fn with_value(
    table: Map<(Layer, Param), Value>,
    layer: Layer,
    param: Param,
    value: Option<Value>,
) -> Map<(Layer, Param), Value> {
    match value {
        Some(v) => table.insert((layer, param), v),
        None => table,
    }
}

/// What the store of a home station's record holds.
pub open spec fn rpi_table(record: RaspPiEntry) -> Map<(Layer, Param), Value> {
    let t0 = Map::<(Layer, Param), Value>::empty();
    let t1 = with_value(t0, Layer::Indoor, Param::Temperature, stored_fahrenheit(record.indoor_temp));
    let t2 = with_value(
        t1,
        Layer::NearSurface,
        Param::Temperature,
        stored_fahrenheit(record.outdoor_temp),
    );
    let t3 = with_value(t2, Layer::NearSurface, Param::Dewpoint, stored_fahrenheit(record.dewpoint));
    let t4 = with_value(t3, Layer::NearSurface, Param::Pressure, stored_millibars(record.raw_pres));
    with_value(t4, Layer::Indoor, Param::Pressure, stored_millibars(record.raw_pres))
}

/// The observation that a home station's record makes: stamped with the
/// start of the minute before the one in which the measurement ended; the
/// temperature indoors, temperature and dewpoint near the surface, and the
/// pressure at both levels; each only where it was recorded.
pub fn rpi_entry(record: RaspPiEntry, station: Arc<Station>) -> (r: (i64, HashMapWx))
    ensures
        r.0 == spec_minute_before(record.time as int),
        r.1.spec_date_time() == r.0,
        r.1.spec_station() == *station,
        r.1.table() == rpi_table(record),
        r.1.spec_evaluated() == EvaluatedEntry::spec_none(),
        forall|l: Layer| r.1.formulas_at(l) == Evaluated::spec_none(),
{
    let dt = minute_before(record.time);
    let mut wx = HashMapWx::new(dt, station);

    if let Some(x) = record.indoor_temp {
        wx.put(
            Layer::Indoor,
            Param::Temperature,
            Value::Temperature(Temperature::new(x, TemperatureUnit::Fahrenheit)),
        );
    }

    if let Some(x) = record.outdoor_temp {
        wx.put(
            Layer::NearSurface,
            Param::Temperature,
            Value::Temperature(Temperature::new(x, TemperatureUnit::Fahrenheit)),
        );
    }

    if let Some(x) = record.dewpoint {
        wx.put(
            Layer::NearSurface,
            Param::Dewpoint,
            Value::Temperature(Temperature::new(x, TemperatureUnit::Fahrenheit)),
        );
    }

    if let Some(x) = record.raw_pres {
        wx.put(
            Layer::NearSurface,
            Param::Pressure,
            Value::Pressure(Pressure::new(x, PressureUnit::Mbar)),
        );
        wx.put(Layer::Indoor, Param::Pressure, Value::Pressure(Pressure::new(x, PressureUnit::Mbar)));
    }

    (dt, wx)
}

} // verus!
