//! The observation laid out for presentation: every derived quantity worked
//! out once, every quantity in the units that the reader prefers.
use vstd::prelude::*;
use std::sync::Arc;
use crate::clock::local_time;
use crate::clock::spec_local_time;
use crate::clock::LocalDateTime;
use crate::layer::Layer;
use crate::observation::dense::copy_sky;
use crate::observation::dense::copy_text;
use crate::observation::dense::copy_texts;
use crate::observation::dense::WxEntryLayerStruct;
use crate::observation::dense::WxEntryStruct;
use crate::observation::entry_api::layer_at;
use crate::observation::entry_api::WxEntry;
use crate::observation::layer_api::WxEntryLayer;
use crate::observation::table::first_index;
use crate::observation::table::lemma_first_index;
use crate::sky::sky_option_view;
use crate::observation::readings::text_option_view;
use crate::observation::readings::texts_option_view;
use crate::observation::readings::Attributes;
use crate::observation::readings::Evaluated;
use crate::observation::readings::EvaluatedEntry;
use crate::observation::readings::Precip;
use crate::observation::readings::Readings;
use crate::observation::readings::Wind;
use crate::sky::SkyCoverage;
use crate::station::share;
use crate::station::Station;
use crate::units::direction::Direction;
use crate::units::families::Altitude;
use crate::units::families::Distance;
use crate::units::families::DistanceUnit;
use crate::units::families::Fraction;
use crate::units::families::FractionalUnit;
use crate::units::families::Pressure;
use crate::units::families::PressureUnit;
use crate::units::families::SpecEnergy;
use crate::units::families::Speed;
use crate::units::families::SpeedUnit;
use crate::units::temperature::Temperature;
use crate::units::temperature::TemperatureUnit;
use crate::wx::Wx;

verus! {

/// The units in which a reader wants to see each kind of quantity.
#[derive(Debug, Clone, Copy, PartialEq, Eq, Structural)]
pub struct UnitPreferences {
    pub temperature: TemperatureUnit,
    pub pressure: PressureUnit,
    pub distance: DistanceUnit,
    pub speed: SpeedUnit,
    pub theta_e: TemperatureUnit,
}

impl Default for UnitPreferences {
    /// Fahrenheit, millibars, miles, knots, and Kelvin for equivalent
    /// potential temperature.
    fn default() -> (r: Self)
        ensures
            r == (UnitPreferences {
                temperature: TemperatureUnit::Fahrenheit,
                pressure: PressureUnit::Mbar,
                distance: DistanceUnit::Mile,
                speed: SpeedUnit::Knots,
                theta_e: TemperatureUnit::Kelvin,
            }),
    {
        UnitPreferences {
            temperature: TemperatureUnit::Fahrenheit,
            pressure: PressureUnit::Mbar,
            distance: DistanceUnit::Mile,
            speed: SpeedUnit::Knots,
            theta_e: TemperatureUnit::Kelvin,
        }
    }
}

/// A direction laid out for presentation: it can be asked for its degrees
/// and for its compass point.
#[derive(Debug, Clone, Copy, PartialEq, Eq, Structural)]
pub struct DirectionExpanded {
    pub direction: Option<Direction>,
}

impl DirectionExpanded {
    /// The degrees of the direction, if there is one.
    pub fn degrees(&self) -> (r: Option<u16>)
        ensures
            r is Some <==> self.direction is Some,
            r matches Some(d) ==> d == self.direction->0.spec_degrees(),
    {
        match self.direction {
            Some(d) => Some(d.degrees()),
            None => None,
        }
    }

    /// The compass point of the direction, if there is one.
    pub fn cardinal(&self) -> (r: Option<&'static str>)
        ensures
            r is Some <==> self.direction is Some,
            r matches Some(c) ==> Some(c@) == crate::units::direction::cardinal_of(
                self.direction->0.spec_degrees(),
            ),
    {
        match self.direction {
            Some(d) => Some(d.cardinal()),
            None => None,
        }
    }
}

/// Wind laid out for presentation.
#[derive(Debug, Clone, Copy)]
pub struct WindExpanded {
    pub direction: DirectionExpanded,
    pub speed: Speed,
}

impl From<Wind> for WindExpanded {
    fn from(value: Wind) -> (r: Self) {
        WindExpanded {
            direction: DirectionExpanded { direction: value.direction },
            speed: value.speed,
        }
    }
}

impl vstd::std_specs::convert::FromSpecImpl<Wind> for WindExpanded {
    open spec fn obeys_from_spec() -> bool {
        true
    }

    open spec fn from_spec(value: Wind) -> Self {
        WindExpanded {
            direction: DirectionExpanded { direction: value.direction },
            speed: value.speed,
        }
    }
}

impl From<WindExpanded> for Wind {
    fn from(value: WindExpanded) -> (r: Self) {
        Wind { direction: value.direction.direction, speed: value.speed }
    }
}

impl vstd::std_specs::convert::FromSpecImpl<WindExpanded> for Wind {
    open spec fn obeys_from_spec() -> bool {
        true
    }

    open spec fn from_spec(value: WindExpanded) -> Self {
        Wind { direction: value.direction.direction, speed: value.speed }
    }
}

/// The wind behind a wind laid out for presentation, if there is one.
pub open spec fn plain_wind(wind: Option<WindExpanded>) -> Option<Wind> {
    match wind {
        Some(w) => Some(Wind { direction: w.direction.direction, speed: w.speed }),
        None => None,
    }
}

/// What a layer shows once laid out: the model of [`WxAllLayer`].
pub struct Projection {
    pub layer: Layer,
    pub temperature: Option<Temperature>,
    pub pressure: Option<Pressure>,
    pub visibility: Option<Distance>,
    pub wind: Option<Wind>,
    pub dewpoint: Option<Temperature>,
    pub relative_humidity: Option<Fraction>,
    pub projected_slp: Option<Pressure>,
    pub wind_chill_valid: Option<bool>,
    pub wind_chill: Option<Temperature>,
    pub heat_index_valid: Option<bool>,
    pub heat_index: Option<Temperature>,
    pub apparent_temp: Option<Temperature>,
    pub theta_e: Option<Temperature>,
}

/// A temperature, if there is one, in `unit`.
pub open spec fn temperature_in(t: Option<Temperature>, unit: TemperatureUnit) -> Option<
    Temperature,
> {
    match t {
        Some(x) => Some(x.spec_convert(unit)),
        None => None,
    }
}

/// A pressure, if there is one, in `unit`.
pub open spec fn pressure_in(p: Option<Pressure>, unit: PressureUnit) -> Option<Pressure> {
    match p {
        Some(x) => Some(x.spec_convert(unit)),
        None => None,
    }
}

/// What the layer that holds `r` shows in the units `units`, given the
/// observation's altimeter setting. Every quantity is the layer's own or the
/// one derived from it, converted: temperatures to the preferred unit of
/// temperature, equivalent potential temperature to its own, pressures,
/// distances and speeds to theirs, and relative humidity to percent.
pub open spec fn project(r: Readings, altimeter: Option<Pressure>, units: UnitPreferences)
    -> Projection {
    Projection {
        layer: r.layer,
        temperature: temperature_in(r.temperature, units.temperature),
        pressure: pressure_in(r.pressure, units.pressure),
        visibility: match r.visibility {
            Some(x) => Some(x.spec_convert(units.distance)),
            None => None,
        },
        wind: match r.wind {
            Some(w) => Some(
                Wind { speed: w.speed.spec_convert(units.speed), direction: w.direction },
            ),
            None => None,
        },
        dewpoint: temperature_in(r.best_dewpoint(), units.temperature),
        relative_humidity: match r.best_relative_humidity() {
            Some(x) => Some(x.spec_convert(FractionalUnit::Percent)),
            None => None,
        },
        projected_slp: pressure_in(r.slp(), units.pressure),
        wind_chill_valid: r.wind_chill_valid(),
        wind_chill: temperature_in(r.wind_chill(), units.temperature),
        heat_index_valid: r.heat_index_valid(),
        heat_index: temperature_in(r.heat_index(), units.temperature),
        apparent_temp: temperature_in(r.apparent_temp(), units.temperature),
        theta_e: temperature_in(r.theta_e(altimeter), units.theta_e),
    }
}

/// One layer laid out for presentation.
#[derive(Debug)]
pub struct WxAllLayer {
    pub layer: Layer,
    pub station: Arc<Station>,
    pub temperature: Option<Temperature>,
    pub pressure: Option<Pressure>,
    pub visibility: Option<Distance>,
    pub wind: Option<WindExpanded>,
    pub dewpoint: Option<Temperature>,
    pub relative_humidity: Option<Fraction>,
    pub projected_slp: Option<Pressure>,
    pub wind_chill_valid: Option<bool>,
    pub wind_chill: Option<Temperature>,
    pub heat_index_valid: Option<bool>,
    pub heat_index: Option<Temperature>,
    pub apparent_temp: Option<Temperature>,
    pub theta_e: Option<Temperature>,
    /// The values of the formulas that the layer was laid out from.
    pub evaluated: Evaluated,
}

fn convert_temperature(t: Option<Temperature>, unit: TemperatureUnit) -> (r: Option<Temperature>)
    ensures
        r == temperature_in(t, unit),
{
    match t {
        Some(x) => Some(x.convert(unit)),
        None => None,
    }
}

fn convert_pressure(p: Option<Pressure>, unit: PressureUnit) -> (r: Option<Pressure>)
    ensures
        r == pressure_in(p, unit),
{
    match p {
        Some(x) => Some(x.convert(unit)),
        None => None,
    }
}

impl WxAllLayer {
    /// What the layer shows.
    pub open spec fn projection(&self) -> Projection {
        Projection {
            layer: self.layer,
            temperature: self.temperature,
            pressure: self.pressure,
            visibility: self.visibility,
            wind: plain_wind(self.wind),
            dewpoint: self.dewpoint,
            relative_humidity: self.relative_humidity,
            projected_slp: self.projected_slp,
            wind_chill_valid: self.wind_chill_valid,
            wind_chill: self.wind_chill,
            heat_index_valid: self.heat_index_valid,
            heat_index: self.heat_index,
            apparent_temp: self.apparent_temp,
            theta_e: self.theta_e,
        }
    }

    /// What the layer holds when it is itself asked as a layer: what it
    /// shows, with the values of the formulas that it was laid out from.
    pub open spec fn readings(&self) -> Readings {
        Readings {
            layer: self.layer,
            station: *self.station,
            temperature: self.temperature,
            pressure: self.pressure,
            visibility: self.visibility,
            wind: plain_wind(self.wind),
            dewpoint: self.dewpoint,
            relative_humidity: self.relative_humidity,
            height_msl: None,
            evaluated: self.evaluated,
        }
    }

    /// Lays a layer out: asks it for everything it holds and everything
    /// derived from that, and converts each quantity to the preferred unit.
    pub fn new<L: WxEntryLayer>(s: &L, altimeter: Option<Pressure>, units: UnitPreferences) -> (r:
        WxAllLayer)
        ensures
            r.projection() == project(s.readings(), altimeter, units),
            *r.station == s.readings().station,
            r.evaluated == s.readings().evaluated,
    {
        WxAllLayer {
            layer: s.layer(),
            station: s.station(),
            temperature: convert_temperature(s.temperature(), units.temperature),
            pressure: convert_pressure(s.pressure(), units.pressure),
            visibility: match s.visibility() {
                Some(x) => Some(x.convert(units.distance)),
                None => None,
            },
            wind: match s.wind() {
                Some(wind) => Some(
                    WindExpanded {
                        direction: DirectionExpanded { direction: wind.direction },
                        speed: wind.speed.convert(units.speed),
                    },
                ),
                None => None,
            },
            dewpoint: convert_temperature(s.dewpoint(), units.temperature),
            relative_humidity: match s.relative_humidity() {
                Some(x) => Some(x.convert(FractionalUnit::Percent)),
                None => None,
            },
            projected_slp: convert_pressure(s.slp(), units.pressure),
            wind_chill_valid: s.wind_chill_valid(),
            wind_chill: convert_temperature(s.wind_chill(), units.temperature),
            heat_index_valid: s.heat_index_valid(),
            heat_index: convert_temperature(s.heat_index(), units.temperature),
            apparent_temp: convert_temperature(s.apparent_temp(), units.temperature),
            theta_e: convert_temperature(s.theta_e(altimeter), units.theta_e),
            evaluated: s.evaluated(),
        }
    }
}

impl WxEntryLayer for &WxAllLayer {
    open spec fn readings(&self) -> Readings {
        (**self).readings()
    }

    fn layer(&self) -> (r: Layer) {
        self.layer
    }

    fn station(&self) -> (r: Arc<Station>) {
        share(&self.station)
    }

    fn temperature(&self) -> (r: Option<Temperature>) {
        self.temperature
    }

    fn pressure(&self) -> (r: Option<Pressure>) {
        self.pressure
    }

    fn visibility(&self) -> (r: Option<Distance>) {
        self.visibility
    }

    fn wind(&self) -> (r: Option<Wind>) {
        match self.wind {
            Some(w) => Some(Wind { direction: w.direction.direction, speed: w.speed }),
            None => None,
        }
    }

    fn reported_dewpoint(&self) -> (r: Option<Temperature>) {
        self.dewpoint
    }

    fn reported_relative_humidity(&self) -> (r: Option<Fraction>) {
        self.relative_humidity
    }

    fn reported_height_msl(&self) -> (r: Option<Altitude>) {
        None
    }

    fn evaluated(&self) -> (r: Evaluated) {
        self.evaluated
    }
}

/// A whole observation laid out for presentation. The layers stand in the
/// order of the record that they were made from.
#[derive(Debug)]
pub struct WxAll {
    /// The instant of the observation, in seconds since 1970-01-01 00:00 UTC.
    pub date_time: i64,
    /// The same instant on the clocks of the station's time zone; absent
    /// where that zone is not known.
    pub date_time_local: Option<LocalDateTime>,
    pub station: Arc<Station>,
    pub layers: Vec<WxAllLayer>,
    pub skycover: Option<SkyCoverage>,
    pub wx_codes: Option<Vec<String>>,
    pub wx: Option<Wx>,
    pub raw_metar: Option<String>,
    pub precip_today: Option<Precip>,
    pub precip: Option<Precip>,
    pub altimeter: Option<Pressure>,
    pub cape: Option<SpecEnergy>,
    pub best_slp: Option<Pressure>,
    /// The values of the formulas that the observation was laid out from.
    pub evaluated: EvaluatedEntry,
}

/// The levels of some laid-out layers, in order.
pub open spec fn shown_tags(layers: Seq<WxAllLayer>) -> Seq<Layer> {
    layers.map_values(|l: WxAllLayer| l.layer)
}

impl WxAll {
    /// Everything that the laid-out observation holds beside its layers.
    pub open spec fn attributes(&self) -> Attributes {
        Attributes {
            date_time: self.date_time,
            station: *self.station,
            skycover: sky_option_view(self.skycover),
            wx_codes: texts_option_view(self.wx_codes),
            raw_metar: text_option_view(self.raw_metar),
            precip_today: self.precip_today,
            precip_probability: None,
            precip: self.precip,
            altimeter: self.altimeter,
            cape: self.cape,
            evaluated: self.evaluated,
        }
    }

    /// The laid-out layers by their level.
    pub open spec fn layer_map(&self) -> Map<Layer, Readings> {
        Map::new(
            |tag: Layer| first_index(shown_tags(self.layers@), tag) is Some,
            |tag: Layer| self.layers@[first_index(shown_tags(self.layers@), tag)->0].readings(),
        )
    }

    /// Lays an observation out in the units `units`: every layer by
    /// [`WxAllLayer::new`] with the observation's altimeter setting, every
    /// value beside the layers as it is, the present weather read from the
    /// coded groups, the best sea-level pressure in the preferred unit of
    /// pressure, and the instant on the clocks of the station's time zone.
    pub fn new(wx: &WxEntryStruct, units: UnitPreferences) -> (r: WxAll)
        ensures
            r.layers@.len() == wx.layers@.len(),
            forall|i: int|
                0 <= i < wx.layers@.len() ==> (#[trigger] r.layers@[i]).projection() == project(
                    wx.layers@[i].readings(),
                    wx.altimeter,
                    units,
                ) && r.layers@[i].station == wx.layers@[i].station && r.layers@[i].evaluated
                    == wx.layers@[i].evaluated,
            r.evaluated == wx.evaluated,
            r.date_time == wx.date_time,
            r.date_time_local == spec_local_time(wx.station.time_zone@, wx.date_time),
            r.station == wx.station,
            sky_option_view(r.skycover) == sky_option_view(wx.skycover),
            texts_option_view(r.wx_codes) == texts_option_view(wx.wx_codes),
            r.wx == wx.attributes().wx(),
            text_option_view(r.raw_metar) == text_option_view(wx.raw_metar),
            r.precip_today == wx.precip_today,
            r.precip == wx.precip,
            r.altimeter == wx.altimeter,
            r.cape == wx.cape,
            r.best_slp == pressure_in(
                wx.attributes().best_slp(
                    layer_at(wx.layer_map(), Layer::SeaLevel),
                    layer_at(wx.layer_map(), Layer::NearSurface),
                    layer_at(wx.layer_map(), Layer::Indoor),
                ),
                units.pressure,
            ),
    {
        let mut layers: Vec<WxAllLayer> = Vec::new();
        let mut i: usize = 0;
        while i < wx.layers.len()
            invariant
                i <= wx.layers@.len(),
                layers@.len() == i,
                forall|j: int|
                    0 <= j < i ==> (#[trigger] layers@[j]).projection() == project(
                        wx.layers@[j].readings(),
                        wx.altimeter,
                        units,
                    ) && layers@[j].station == wx.layers@[j].station && layers@[j].evaluated
                        == wx.layers@[j].evaluated,
            decreases wx.layers@.len() - i,
        {
            let s = &wx.layers[i];
            let l = WxAllLayer::new(&s, wx.altimeter(), units);
            layers.push(l);
            i += 1;
        }
        WxAll {
            date_time: wx.date_time(),
            date_time_local: wx.date_time_local(),
            station: wx.station(),
            layers,
            skycover: wx.skycover(),
            wx_codes: wx.wx_codes(),
            wx: wx.wx(),
            raw_metar: wx.raw_metar(),
            precip_today: wx.precip_today(),
            precip: wx.precip(),
            altimeter: wx.altimeter(),
            cape: wx.cape(),
            best_slp: convert_pressure(wx.best_slp(), units.pressure),
            evaluated: wx.evaluated(),
        }
    }

    /// The laid-out layer at `tag`, if there is one.
    pub fn find_layer(&self, tag: Layer) -> (r: Option<&WxAllLayer>)
        ensures
            r is Some <==> layer_at(self.layer_map(), tag) is Some,
            r matches Some(l) ==> Some(l.readings()) == layer_at(self.layer_map(), tag),
    {
        let ghost tags = shown_tags(self.layers@);
        let mut i: usize = 0;
        while i < self.layers.len()
            invariant
                i <= self.layers@.len(),
                tags == shown_tags(self.layers@),
                forall|j: int| 0 <= j < i ==> tags[j] != tag,
            decreases self.layers@.len() - i,
        {
            if self.layers[i].layer == tag {
                proof {
                    lemma_first_index(tags, tag);
                    assert(tags[i as int] == tag);
                }
                return Some(&self.layers[i]);
            }
            i += 1;
        }
        proof {
            lemma_first_index(tags, tag);
        }
        None
    }
}

impl<'a> WxEntry<'a, &'a WxAllLayer> for WxAll {
    open spec fn attributes(&self) -> Attributes {
        WxAll::attributes(self)
    }

    open spec fn layer_tags(&self) -> Seq<Layer> {
        shown_tags(self.layers@)
    }

    open spec fn layer_map(&self) -> Map<Layer, Readings> {
        WxAll::layer_map(self)
    }

    fn date_time(&self) -> (r: i64) {
        self.date_time
    }

    fn station(&self) -> (r: Arc<Station>) {
        share(&self.station)
    }

    fn layer(&'a self, layer: Layer) -> (r: Option<&'a WxAllLayer>) {
        self.find_layer(layer)
    }

    fn layers(&self) -> (r: Vec<Layer>) {
        let mut out: Vec<Layer> = Vec::new();
        let mut i: usize = 0;
        while i < self.layers.len()
            invariant
                i <= self.layers@.len(),
                out@ == shown_tags(self.layers@).take(i as int),
            decreases self.layers@.len() - i,
        {
            out.push(self.layers[i].layer);
            proof {
                assert(out@ =~= shown_tags(self.layers@).take(i + 1));
            }
            i += 1;
        }
        proof {
            assert(shown_tags(self.layers@).take(self.layers@.len() as int) == shown_tags(
                self.layers@,
            ));
        }
        out
    }

    fn skycover(&self) -> (r: Option<SkyCoverage>) {
        copy_sky(&self.skycover)
    }

    fn wx_codes(&self) -> (r: Option<Vec<String>>) {
        copy_texts(&self.wx_codes)
    }

    fn raw_metar(&self) -> (r: Option<String>) {
        copy_text(&self.raw_metar)
    }

    fn precip_today(&self) -> (r: Option<Precip>) {
        self.precip_today
    }

    fn precip_probability(&self) -> (r: Option<Fraction>) {
        None
    }

    fn precip(&self) -> (r: Option<Precip>) {
        self.precip
    }

    fn altimeter(&self) -> (r: Option<Pressure>) {
        self.altimeter
    }

    fn cape(&self) -> (r: Option<SpecEnergy>) {
        self.cape
    }

    fn evaluated(&self) -> (r: EvaluatedEntry) {
        self.evaluated
    }
}

} // verus!
