//! What one layer of an observation holds, and the quantities that follow
//! from it.
//!
//! Some of those quantities come out of closed formulas over logarithms,
//! powers and trigonometric functions: dewpoint and relative humidity from
//! one another, the pressure reduced to sea level, wind chill, station
//! pressure from an altimeter setting, and equivalent potential temperature.
//! This crate does not evaluate them. For each it says, in a
//! function whose name ends in `_inputs`, whether the formula applies and
//! what it is applied to; the value, once evaluated, is kept with the layer
//! in [`Evaluated`]; and the function named after the quantity hands it out
//! exactly where the formula applies.
use vstd::prelude::*;
use vstd::string::*;
use crate::fixed::lemma_div_round_exact;
use crate::heat::spec_heat_index;
use crate::units::proportional::Proportional;
use crate::layer::Layer;
use crate::sky::SkyView;
use crate::station::Station;
use crate::tokens::texts;
use crate::units::direction::Direction;
use crate::units::families::Altitude;
use crate::units::families::Distance;
use crate::units::families::Fraction;
use crate::units::families::FractionalUnit;
use crate::units::families::PrecipAmount;
use crate::units::families::Pressure;
use crate::units::families::SpecEnergy;
use crate::units::families::Speed;
use crate::units::families::SpeedUnit;
use crate::units::temperature::Temperature;
use crate::units::temperature::TemperatureUnit;
use crate::units::text::decimal;
use crate::units::text::push_decimal;
use crate::wx::Wx;

verus! {

/// Wind: how fast, and from where if that is known.
#[derive(Debug, Clone, Copy)]
pub struct Wind {
    pub direction: Option<Direction>,
    pub speed: Speed,
}

impl Wind {
    /// The text of the wind.
    pub open spec fn spec_to_text(&self) -> Seq<char> {
        match self.direction {
            Some(dir) => decimal(dir.spec_degrees() as nat) + "°@"@
                + self.speed.spec_string_with_unit(),
            None => self.speed.spec_string_with_unit(),
        }
    }

    /// The text of the wind, as in `270°@12.0 kts`, or the speed alone.
    pub fn to_text(&self) -> (r: String)
        ensures
            r@ == self.spec_to_text(),
    {
        let speed = self.speed.string_with_unit();
        match self.direction {
            Some(dir) => {
                let mut s = String::new();
                push_decimal(&mut s, dir.degrees() as u64);
                s.append("°@");
                s.append(speed.as_str());
                proof {
                    assert(s@ =~= self.spec_to_text());
                }
                s
            },
            None => speed,
        }
    }
}

/// Precipitation by kind.
#[derive(Debug, Clone, Copy)]
pub struct Precip {
    pub unknown: PrecipAmount,
    pub rain: PrecipAmount,
    pub snow: PrecipAmount,
}

impl Precip {
    /// The text of the amounts.
    pub open spec fn spec_to_text(&self) -> Seq<char> {
        "Rain: "@ + self.rain.spec_string_with_unit() + ", Snow: "@
            + self.snow.spec_string_with_unit() + ", Unknown: "@
            + self.unknown.spec_string_with_unit()
    }

    /// The text of the amounts: rain, snow, then what is of unknown kind.
    pub fn to_text(&self) -> (r: String)
        ensures
            r@ == self.spec_to_text(),
    {
        let mut s = String::from_str("Rain: ");
        s.append(self.rain.string_with_unit().as_str());
        s.append(", Snow: ");
        s.append(self.snow.string_with_unit().as_str());
        s.append(", Unknown: ");
        s.append(self.unknown.string_with_unit().as_str());
        s
    }
}

/// The values of the formulas for one layer, as far as they were evaluated.
/// Each belongs to the inputs that the function of the same name with
/// `_inputs` hands out.
#[derive(Debug, Clone, Copy)]
pub struct Evaluated {
    /// Dewpoint from temperature and relative humidity.
    pub dewpoint_from_rh: Option<Temperature>,
    /// Relative humidity from temperature and dewpoint.
    pub rh_from_dewpoint: Option<Fraction>,
    /// The layer's pressure reduced to sea level.
    pub slp: Option<Pressure>,
    /// Wind chill from temperature and wind speed.
    pub wind_chill: Option<Temperature>,
    /// The pressure at the layer's height that an altimeter setting implies.
    pub station_pressure: Option<Pressure>,
    /// Equivalent potential temperature.
    pub theta_e: Option<Temperature>,
}

impl Evaluated {
    /// Nothing evaluated.
    pub open spec fn spec_none() -> Evaluated {
        Evaluated {
            dewpoint_from_rh: None,
            rh_from_dewpoint: None,
            slp: None,
            wind_chill: None,
            station_pressure: None,
            theta_e: None,
        }
    }

    /// Nothing evaluated.
    pub fn none() -> (r: Evaluated)
        ensures
            r == Evaluated::spec_none(),
    {
        Evaluated {
            dewpoint_from_rh: None,
            rh_from_dewpoint: None,
            slp: None,
            wind_chill: None,
            station_pressure: None,
            theta_e: None,
        }
    }
}

/// What the reduction of a pressure to sea level is applied to.
#[derive(Debug, Clone, Copy)]
pub struct SlpInputs {
    pub pressure: Pressure,
    pub temperature: Temperature,
    /// The layer's height above sea level.
    pub height: Altitude,
    /// The station's latitude in millionths of a degree.
    pub latitude: i64,
}

/// What the formula of equivalent potential temperature is applied to.
#[derive(Debug, Clone, Copy)]
pub struct ThetaEInputs {
    pub temperature: Temperature,
    pub dewpoint: Temperature,
    pub pressure: Pressure,
}

/// Fifty degrees Fahrenheit, below which wind chill is defined.
pub const WIND_CHILL_MAX_TEMPERATURE: i64 = 50_000_000;

/// Three miles per hour, above which wind chill is defined.
pub const WIND_CHILL_MIN_SPEED: i64 = 3_000_000;

/// Eighty degrees Fahrenheit, above which heat index is defined.
pub const HEAT_INDEX_MIN_TEMPERATURE: i64 = 80_000_000;

/// Forty percent, the relative humidity above which heat index is defined.
pub const HEAT_INDEX_MIN_HUMIDITY: i64 = 40_000_000;

/// Everything that one layer of an observation holds: the model of every
/// type that can stand for a layer.
pub struct Readings {
    pub layer: Layer,
    pub station: Station,
    pub temperature: Option<Temperature>,
    pub pressure: Option<Pressure>,
    pub visibility: Option<Distance>,
    pub wind: Option<Wind>,
    /// A dewpoint that was measured or reported.
    pub dewpoint: Option<Temperature>,
    /// A relative humidity that was measured or reported.
    pub relative_humidity: Option<Fraction>,
    /// A height above sea level that was reported with the layer.
    pub height_msl: Option<Altitude>,
    pub evaluated: Evaluated,
}

impl Readings {
    /// The layer's height above the ground.
    pub open spec fn height_agl(&self) -> Option<Altitude> {
        self.layer.spec_height_agl(self.station.altitude)
    }

    /// The layer's height above sea level: the reported one, else the
    /// height above the ground plus the station's altitude.
    pub open spec fn height_above_sea(&self) -> Option<Altitude> {
        match self.height_msl {
            Some(h) => Some(h),
            None => match self.height_agl() {
                Some(x) => Some(x.spec_add(self.station.altitude)),
                None => None,
            },
        }
    }

    /// The speed of the wind.
    pub open spec fn wind_speed(&self) -> Option<Speed> {
        match self.wind {
            Some(w) => Some(w.speed),
            None => None,
        }
    }

    /// The direction of the wind.
    pub open spec fn wind_direction(&self) -> Option<Direction> {
        match self.wind {
            Some(w) => w.direction,
            None => None,
        }
    }

    /// The wind put together from its speed and direction.
    pub open spec fn wind_from_speed_and_direction(&self) -> Option<Wind> {
        match self.wind_speed() {
            Some(speed) => Some(Wind { direction: self.wind_direction(), speed }),
            None => None,
        }
    }

    /// Temperature and reported relative humidity, where both are there.
    pub open spec fn dewpoint_from_rh_inputs(&self) -> Option<(Temperature, Fraction)> {
        match (self.temperature, self.relative_humidity) {
            (Some(t), Some(rh)) => Some((t, rh)),
            _ => None,
        }
    }

    /// Temperature and reported dewpoint, where both are there.
    pub open spec fn rh_from_dewpoint_inputs(&self) -> Option<(Temperature, Temperature)> {
        match (self.temperature, self.dewpoint) {
            (Some(t), Some(td)) => Some((t, td)),
            _ => None,
        }
    }

    /// The dewpoint evaluated from temperature and reported relative
    /// humidity, where both are there.
    pub open spec fn dewpoint_from_rh(&self) -> Option<Temperature> {
        if self.dewpoint_from_rh_inputs() is Some {
            self.evaluated.dewpoint_from_rh
        } else {
            None
        }
    }

    /// The relative humidity evaluated from temperature and reported
    /// dewpoint, where both are there.
    pub open spec fn rh_from_dewpoint(&self) -> Option<Fraction> {
        if self.rh_from_dewpoint_inputs() is Some {
            self.evaluated.rh_from_dewpoint
        } else {
            None
        }
    }

    /// The dewpoint: the reported one, else the one evaluated from
    /// temperature and reported relative humidity.
    pub open spec fn best_dewpoint(&self) -> Option<Temperature> {
        match self.dewpoint {
            Some(td) => Some(td),
            None => self.dewpoint_from_rh(),
        }
    }

    /// The relative humidity: the reported one, else the one evaluated from
    /// temperature and reported dewpoint.
    pub open spec fn best_relative_humidity(&self) -> Option<Fraction> {
        match self.relative_humidity {
            Some(rh) => Some(rh),
            None => self.rh_from_dewpoint(),
        }
    }

    /// Pressure, temperature, height above sea level and latitude, where the
    /// first three are there.
    pub open spec fn slp_inputs(&self) -> Option<SlpInputs> {
        match (self.pressure, self.temperature, self.height_above_sea()) {
            (Some(pressure), Some(temperature), Some(height)) => Some(
                SlpInputs { pressure, temperature, height, latitude: self.station.coords.latitude },
            ),
            _ => None,
        }
    }

    /// The layer's pressure reduced to sea level.
    pub open spec fn slp(&self) -> Option<Pressure> {
        if self.slp_inputs() is Some {
            self.evaluated.slp
        } else {
            None
        }
    }

    /// Whether wind chill is defined: unknown without a temperature; no from
    /// 50 °F upwards; below that unknown without a wind speed, and else
    /// whether the wind is faster than 3 mph.
    pub open spec fn wind_chill_valid(&self) -> Option<bool> {
        match self.temperature {
            None => None,
            Some(t) => if t.spec_value_in(TemperatureUnit::Fahrenheit)
                < WIND_CHILL_MAX_TEMPERATURE {
                match self.wind_speed() {
                    None => None,
                    Some(speed) => Some(speed.spec_value_in(SpeedUnit::Mph) > WIND_CHILL_MIN_SPEED),
                }
            } else {
                Some(false)
            },
        }
    }

    /// Temperature and wind speed, where wind chill is defined.
    pub open spec fn wind_chill_inputs(&self) -> Option<(Temperature, Speed)> {
        if self.wind_chill_valid() == Some(true) {
            Some((self.temperature->0, self.wind_speed()->0))
        } else {
            None
        }
    }

    /// The wind chill, where it is defined.
    pub open spec fn wind_chill(&self) -> Option<Temperature> {
        if self.wind_chill_valid() == Some(true) {
            self.evaluated.wind_chill
        } else {
            None
        }
    }

    /// Whether heat index is defined: unknown without a temperature; no up to
    /// 80 °F; above that unknown without a relative humidity, and else
    /// whether the humidity is above 40 %.
    pub open spec fn heat_index_valid(&self) -> Option<bool> {
        match self.temperature {
            None => None,
            Some(t) => if t.spec_value_in(TemperatureUnit::Fahrenheit)
                > HEAT_INDEX_MIN_TEMPERATURE {
                match self.best_relative_humidity() {
                    None => None,
                    Some(rh) => Some(
                        rh.spec_value_in(FractionalUnit::Percent) > HEAT_INDEX_MIN_HUMIDITY,
                    ),
                }
            } else {
                Some(false)
            },
        }
    }

    /// The heat index, where it is defined and worked out.
    pub open spec fn heat_index(&self) -> Option<Temperature> {
        if self.heat_index_valid() == Some(true) {
            spec_heat_index(self.temperature->0, self.best_relative_humidity()->0)
        } else {
            None
        }
    }

    /// The temperature as it feels: the heat index where that is defined,
    /// else the wind chill where that is defined, else the temperature
    /// itself where both are known not to be defined, and nothing where it
    /// is not known whether one of them is.
    pub open spec fn apparent_temp(&self) -> Option<Temperature> {
        if self.temperature is None {
            None
        } else if self.heat_index_valid() == Some(true) {
            self.heat_index()
        } else if self.wind_chill_valid() == Some(true) {
            self.wind_chill()
        } else if self.heat_index_valid() == Some(false) && self.wind_chill_valid() == Some(
            false,
        ) {
            self.temperature
        } else {
            None
        }
    }

    /// Altimeter setting and height above sea level, where the layer has no
    /// pressure of its own and both are there.
    pub open spec fn station_pressure_inputs(&self, altimeter: Option<Pressure>) -> Option<
        (Pressure, Altitude),
    > {
        match (self.pressure, altimeter, self.height_above_sea()) {
            (None, Some(a), Some(h)) => Some((a, h)),
            _ => None,
        }
    }

    /// The pressure at the layer: its own, else the one evaluated from the
    /// altimeter setting.
    pub open spec fn pressure_or_from(&self, altimeter: Option<Pressure>) -> Option<Pressure> {
        match self.pressure {
            Some(p) => Some(p),
            None => if self.station_pressure_inputs(altimeter) is Some {
                self.evaluated.station_pressure
            } else {
                None
            },
        }
    }

    /// Temperature, dewpoint and pressure, where all three are there.
    pub open spec fn theta_e_inputs(&self, altimeter: Option<Pressure>) -> Option<ThetaEInputs> {
        match (self.pressure_or_from(altimeter), self.temperature, self.best_dewpoint()) {
            (Some(pressure), Some(temperature), Some(dewpoint)) => Some(
                ThetaEInputs { temperature, dewpoint, pressure },
            ),
            _ => None,
        }
    }

    /// The equivalent potential temperature.
    pub open spec fn theta_e(&self, altimeter: Option<Pressure>) -> Option<Temperature> {
        if self.theta_e_inputs(altimeter) is Some {
            self.evaluated.theta_e
        } else {
            None
        }
    }
}

/// The values of the formulas for a whole observation, as far as they were
/// evaluated.
#[derive(Debug, Clone, Copy)]
pub struct EvaluatedEntry {
    /// The pressure at the station that the altimeter setting implies.
    pub station_pressure: Option<Pressure>,
    /// The sea-level pressure that the altimeter setting and the temperature
    /// near the surface imply.
    pub mslp: Option<Pressure>,
}

impl EvaluatedEntry {
    /// Nothing evaluated.
    pub open spec fn spec_none() -> EvaluatedEntry {
        EvaluatedEntry { station_pressure: None, mslp: None }
    }

    /// Nothing evaluated.
    pub fn none() -> (r: EvaluatedEntry)
        ensures
            r == EvaluatedEntry::spec_none(),
    {
        EvaluatedEntry { station_pressure: None, mslp: None }
    }
}

/// What the sea-level pressure is evaluated from where an altimeter setting
/// is all there is.
#[derive(Debug, Clone, Copy)]
pub struct MslpInputs {
    pub altimeter: Pressure,
    /// The station's altitude.
    pub height: Altitude,
    /// The temperature near the surface.
    pub temperature: Temperature,
}

/// A list of texts, if there is one, as plain values.
pub open spec fn texts_option_view(list: Option<Vec<String>>) -> Option<Seq<Seq<char>>> {
    match list {
        Some(v) => Some(texts(v@)),
        None => None,
    }
}

/// A text, if there is one, as plain values.
pub open spec fn text_option_view(text: Option<String>) -> Option<Seq<char>> {
    match text {
        Some(s) => Some(s@),
        None => None,
    }
}

/// Everything that an observation holds beside its layers: the model of
/// every type that can stand for an observation.
pub struct Attributes {
    /// The instant of the observation, in seconds since 1970-01-01 00:00 UTC.
    pub date_time: i64,
    pub station: Station,
    pub skycover: Option<SkyView>,
    pub wx_codes: Option<Seq<Seq<char>>>,
    pub raw_metar: Option<Seq<char>>,
    pub precip_today: Option<Precip>,
    pub precip_probability: Option<Fraction>,
    pub precip: Option<Precip>,
    pub altimeter: Option<Pressure>,
    pub cape: Option<SpecEnergy>,
    pub evaluated: EvaluatedEntry,
}

/// The state that a list of coded groups reports: that of each group, taken
/// together from first to last.
pub open spec fn wx_of_codes(codes: Seq<Seq<char>>) -> Wx
    decreases codes.len(),
{
    if codes.len() == 0 {
        Wx::spec_none()
    } else {
        wx_of_codes(codes.drop_last()).spec_combine(Wx::spec_parse_code(codes.last()))
    }
}

impl Attributes {
    /// The present weather: absent without a list of groups.
    pub open spec fn wx(&self) -> Option<Wx> {
        match self.wx_codes {
            Some(codes) => Some(wx_of_codes(codes)),
            None => None,
        }
    }

    /// Altimeter setting and station altitude, where there is a setting.
    pub open spec fn station_pressure_inputs(&self) -> Option<(Pressure, Altitude)> {
        match self.altimeter {
            Some(a) => Some((a, self.station.altitude)),
            None => None,
        }
    }

    /// The pressure at the station that the altimeter setting implies.
    pub open spec fn station_pressure_from_altimeter(&self) -> Option<Pressure> {
        if self.station_pressure_inputs() is Some {
            self.evaluated.station_pressure
        } else {
            None
        }
    }

    /// Altimeter setting, station altitude and the temperature of the layer
    /// near the surface, where there is such a layer and all are there.
    pub open spec fn mslp_inputs(&self, surface: Option<Readings>) -> Option<MslpInputs> {
        match (surface, self.altimeter) {
            (Some(s), Some(altimeter)) => match s.temperature {
                Some(temperature) => Some(
                    MslpInputs { altimeter, height: self.station.altitude, temperature },
                ),
                None => None,
            },
            _ => None,
        }
    }

    /// The sea-level pressure that the altimeter setting implies.
    pub open spec fn mslp_from_altimeter(&self, surface: Option<Readings>) -> Option<Pressure> {
        if self.mslp_inputs(surface) is Some {
            self.evaluated.mslp
        } else {
            None
        }
    }

    /// The best sea-level pressure there is: the pressure of the layer at sea
    /// level; else the pressure of the layer near the surface, reduced; else
    /// that of the layer indoors, reduced; else the one that the altimeter
    /// setting implies.
    pub open spec fn best_slp(
        &self,
        sealevel: Option<Readings>,
        surface: Option<Readings>,
        indoor: Option<Readings>,
    ) -> Option<Pressure> {
        let option_1 = match sealevel {
            Some(l) => l.pressure,
            None => None,
        };
        let option_2 = match surface {
            Some(l) => l.slp(),
            None => None,
        };
        let option_3 = match indoor {
            Some(l) => l.slp(),
            None => None,
        };
        let option_4 = self.mslp_from_altimeter(surface);
        if option_1 is Some {
            option_1
        } else if option_2 is Some {
            option_2
        } else if option_3 is Some {
            option_3
        } else {
            option_4
        }
    }
}

/// A pressure reported at sea level goes before every derived one: where
/// the layer at sea level has a pressure, that pressure is the best
/// sea-level pressure, whatever the other layers and the altimeter give.
pub proof fn lemma_reported_slp_wins(
    a: Attributes,
    sealevel: Readings,
    surface: Option<Readings>,
    indoor: Option<Readings>,
)
    requires
        sealevel.pressure is Some,
    ensures
        a.best_slp(Some(sealevel), surface, indoor) == sealevel.pressure,
{
}

/// The best sea-level pressure is absent only where all four sources are, and
/// is otherwise the first that is there.
pub proof fn lemma_best_slp_rank(
    a: Attributes,
    sealevel: Option<Readings>,
    surface: Option<Readings>,
    indoor: Option<Readings>,
)
    ensures
        (sealevel is None || sealevel->0.pressure is None) && surface is Some
            && surface->0.slp() is Some ==> a.best_slp(sealevel, surface, indoor)
            == surface->0.slp(),
        (sealevel is None || sealevel->0.pressure is None) && (surface is None
            || surface->0.slp() is None) && indoor is Some && indoor->0.slp() is Some
            ==> a.best_slp(sealevel, surface, indoor) == indoor->0.slp(),
        (sealevel is None || sealevel->0.pressure is None) && (surface is None
            || surface->0.slp() is None) && (indoor is None || indoor->0.slp() is None)
            ==> a.best_slp(sealevel, surface, indoor) == a.mslp_from_altimeter(surface),
{
}

/// The three states of the two validities decide the apparent temperature:
/// where both are known to be false it is the temperature itself, and where
/// neither is true and one is unknown there is none.
pub proof fn lemma_apparent_temp_cases(r: Readings)
    ensures
        r.heat_index_valid() == Some(true) ==> r.apparent_temp() == r.heat_index(),
        r.heat_index_valid() != Some(true) && r.wind_chill_valid() == Some(true)
            ==> r.apparent_temp() == r.evaluated.wind_chill,
        r.heat_index_valid() == Some(false) && r.wind_chill_valid() == Some(false)
            ==> r.apparent_temp() == r.temperature && r.temperature is Some,
        r.heat_index_valid() != Some(true) && r.wind_chill_valid() != Some(true) && (
        r.heat_index_valid() is None || r.wind_chill_valid() is None) ==> r.apparent_temp() is None,
        r.temperature is None ==> r.heat_index_valid() is None && r.wind_chill_valid() is None,
        !(r.heat_index_valid() == Some(true) && r.wind_chill_valid() == Some(true)),
{
    if r.temperature is Some {
        let t = r.temperature->0.spec_value_in(TemperatureUnit::Fahrenheit);
        assert(!(t < WIND_CHILL_MAX_TEMPERATURE && t > HEAT_INDEX_MIN_TEMPERATURE));
    }
}

/// The layer at sea level stands at sea level: its height above the ground
/// is the station's altitude turned downwards, and its height above sea
/// level, worked out from that, is zero.
pub proof fn lemma_sea_level_is_at_zero(r: Readings)
    requires
        r.layer == Layer::SeaLevel,
        r.height_msl is None,
        r.station.altitude.value > i64::MIN,
    ensures
        r.height_agl() matches Some(h) && h.value == -r.station.altitude.value && h.unit
            == r.station.altitude.unit,
        r.height_above_sea() matches Some(h) && h.value == 0 && h.unit == r.station.altitude.unit,
{
    let altitude = r.station.altitude;
    let v = altitude.value as int;
    altitude.unit.coefficient_is_positive();
    assert(v * -1_000_000 == (-v) * 1_000_000) by (nonlinear_arith);
    lemma_div_round_exact(-v, 1_000_000);
    lemma_div_round_exact(v, altitude.unit.spec_coefficient());
}

} // verus!
