//! What a layer of an observation can be asked.
use vstd::prelude::*;
use std::sync::Arc;
use crate::heat::heat_index_of;
use crate::layer::Layer;
use crate::observation::dense::WxEntryLayerStruct;
use crate::observation::readings::Evaluated;
use crate::observation::readings::Readings;
use crate::observation::readings::SlpInputs;
use crate::observation::readings::ThetaEInputs;
use crate::observation::readings::Wind;
use crate::observation::readings::HEAT_INDEX_MIN_HUMIDITY;
use crate::observation::readings::HEAT_INDEX_MIN_TEMPERATURE;
use crate::observation::readings::WIND_CHILL_MAX_TEMPERATURE;
use crate::observation::readings::WIND_CHILL_MIN_SPEED;
use crate::station::Station;
use crate::units::direction::Direction;
use crate::units::families::Altitude;
use crate::units::families::Distance;
use crate::units::families::Fraction;
use crate::units::families::FractionalUnit;
use crate::units::families::Pressure;
use crate::units::families::Speed;
use crate::units::families::SpeedUnit;
use crate::units::temperature::Temperature;
use crate::units::temperature::TemperatureUnit;

verus! {

/// A layer of an observation. A type that stands for a layer says what it
/// holds; the derived quantities are the same for every such type.
pub trait WxEntryLayer {
    /// Everything that the layer holds.
    spec fn readings(&self) -> Readings;

    /// The level that the layer is at.
    fn layer(&self) -> (r: Layer)
        ensures
            r == self.readings().layer,
    ;

    /// The station that the layer belongs to.
    fn station(&self) -> (r: Arc<Station>)
        ensures
            *r == self.readings().station,
    ;

    /// The temperature at the layer.
    fn temperature(&self) -> (r: Option<Temperature>)
        ensures
            r == self.readings().temperature,
    ;

    /// The pressure at the layer.
    fn pressure(&self) -> (r: Option<Pressure>)
        ensures
            r == self.readings().pressure,
    ;

    /// How far one can see at the layer.
    fn visibility(&self) -> (r: Option<Distance>)
        ensures
            r == self.readings().visibility,
    ;

    /// The wind at the layer.
    fn wind(&self) -> (r: Option<Wind>)
        ensures
            r == self.readings().wind,
    ;

    /// A dewpoint that was measured or reported.
    fn reported_dewpoint(&self) -> (r: Option<Temperature>)
        ensures
            r == self.readings().dewpoint,
    ;

    /// A relative humidity that was measured or reported.
    fn reported_relative_humidity(&self) -> (r: Option<Fraction>)
        ensures
            r == self.readings().relative_humidity,
    ;

    /// A height above sea level that was reported with the layer.
    fn reported_height_msl(&self) -> (r: Option<Altitude>)
        ensures
            r == self.readings().height_msl,
    ;

    /// The values of the formulas, as far as they were evaluated.
    fn evaluated(&self) -> (r: Evaluated)
        ensures
            r == self.readings().evaluated,
    ;

    /// The dewpoint: the reported one, else the one evaluated from
    /// temperature and reported relative humidity.
    fn dewpoint(&self) -> (r: Option<Temperature>)
        ensures
            r == self.readings().best_dewpoint(),
    {
        match self.reported_dewpoint() {
            Some(td) => Some(td),
            None => self.dewpoint_from_rh(),
        }
    }

    /// The relative humidity: the reported one, else the one evaluated from
    /// temperature and reported dewpoint.
    fn relative_humidity(&self) -> (r: Option<Fraction>)
        ensures
            r == self.readings().best_relative_humidity(),
    {
        match self.reported_relative_humidity() {
            Some(rh) => Some(rh),
            None => self.rh_from_dewpoint(),
        }
    }

    /// The layer's height above the ground.
    fn height_agl(&self) -> (r: Option<Altitude>)
        ensures
            r == self.readings().height_agl(),
    {
        let station = self.station();
        self.layer().height_agl(station.altitude)
    }

    /// The layer's height above sea level.
    fn height_msl(&self) -> (r: Option<Altitude>)
        ensures
            r == self.readings().height_above_sea(),
    {
        match self.reported_height_msl() {
            Some(h) => Some(h),
            None => match self.height_agl() {
                Some(x) => {
                    let station = self.station();
                    Some(x.add(station.altitude))
                },
                None => None,
            },
        }
    }

    /// What the reduction to sea level is applied to: absent where the layer
    /// has no pressure, no temperature or no height.
    fn slp_inputs(&self) -> (r: Option<SlpInputs>)
        ensures
            r == self.readings().slp_inputs(),
    {
        let pressure = match self.pressure() {
            Some(p) => p,
            None => return None,
        };
        let temperature = match self.temperature() {
            Some(t) => t,
            None => return None,
        };
        let height = match self.height_msl() {
            Some(h) => h,
            None => return None,
        };
        let station = self.station();
        Some(SlpInputs { pressure, temperature, height, latitude: station.coords.latitude })
    }

    /// The layer's pressure reduced to sea level: the evaluated value where
    /// the layer has pressure, temperature and height, and absent otherwise.
    fn slp(&self) -> (r: Option<Pressure>)
        ensures
            r == self.readings().slp(),
    {
        match self.slp_inputs() {
            Some(_) => self.evaluated().slp,
            None => None,
        }
    }

    /// Whether wind chill is defined. `None`: not known, for want of a
    /// temperature or, below 50 °F, of a wind speed. `Some(false)`: the
    /// temperature is 50 °F or more, or the wind 3 mph or less.
    /// `Some(true)`: below 50 °F with more than 3 mph of wind.
    fn wind_chill_valid(&self) -> (r: Option<bool>)
        ensures
            r == self.readings().wind_chill_valid(),
    {
        let t = match self.temperature() {
            Some(t) => t.value_in(TemperatureUnit::Fahrenheit),
            None => return None,
        };
        if t < WIND_CHILL_MAX_TEMPERATURE {
            match self.wind_speed() {
                Some(speed) => Some(speed.value_in(SpeedUnit::Mph) > WIND_CHILL_MIN_SPEED),
                None => None,
            }
        } else {
            Some(false)
        }
    }

    /// What the wind chill formula is applied to: temperature and wind
    /// speed, exactly where wind chill is defined.
    fn wind_chill_inputs(&self) -> (r: Option<(Temperature, Speed)>)
        ensures
            r == self.readings().wind_chill_inputs(),
    {
        match self.wind_chill_valid() {
            Some(true) => match (self.temperature(), self.wind_speed()) {
                (Some(t), Some(v)) => Some((t, v)),
                _ => None,
            },
            _ => None,
        }
    }

    /// The wind chill: the evaluated value where wind chill is defined, and
    /// absent otherwise.
    fn wind_chill(&self) -> (r: Option<Temperature>)
        ensures
            r == self.readings().wind_chill(),
    {
        match self.wind_chill_valid() {
            Some(true) => self.evaluated().wind_chill,
            _ => None,
        }
    }

    /// The speed of the wind.
    fn wind_speed(&self) -> (r: Option<Speed>)
        ensures
            r == self.readings().wind_speed(),
    {
        match self.wind() {
            Some(w) => Some(w.speed),
            None => None,
        }
    }

    /// The direction of the wind.
    fn wind_direction(&self) -> (r: Option<Direction>)
        ensures
            r == self.readings().wind_direction(),
    {
        match self.wind() {
            Some(w) => w.direction,
            None => None,
        }
    }

    /// Whether heat index is defined. `None`: not known, for want of a
    /// temperature or, above 80 °F, of a relative humidity. `Some(false)`:
    /// the temperature is 80 °F or less, or the humidity 40 % or less.
    /// `Some(true)`: above 80 °F with more than 40 % of humidity.
    fn heat_index_valid(&self) -> (r: Option<bool>)
        ensures
            r == self.readings().heat_index_valid(),
    {
        let t = match self.temperature() {
            Some(t) => t.value_in(TemperatureUnit::Fahrenheit),
            None => return None,
        };
        if t > HEAT_INDEX_MIN_TEMPERATURE {
            match self.relative_humidity() {
                Some(rh) => Some(rh.value_in(FractionalUnit::Percent) > HEAT_INDEX_MIN_HUMIDITY),
                None => None,
            }
        } else {
            Some(false)
        }
    }

    /// The heat index: the regression of Rothfusz on temperature and
    /// relative humidity where heat index is defined, and absent otherwise.
    fn heat_index(&self) -> (r: Option<Temperature>)
        ensures
            r == self.readings().heat_index(),
    {
        match self.heat_index_valid() {
            Some(true) => match (self.temperature(), self.relative_humidity()) {
                (Some(t), Some(rh)) => heat_index_of(t, rh),
                _ => None,
            },
            _ => None,
        }
    }

    /// The temperature as it feels. The heat index where that is defined;
    /// else the wind chill where that is defined; else the temperature
    /// itself, where both are known not to be defined; and absent where
    /// there is no temperature or it is not known whether one of the two is
    /// defined.
    fn apparent_temp(&self) -> (r: Option<Temperature>)
        ensures
            r == self.readings().apparent_temp(),
    {
        let temperature = self.temperature();
        if temperature.is_none() {
            return None;
        }
        match (self.heat_index_valid(), self.wind_chill_valid()) {
            (Some(true), _) => self.heat_index(),
            (_, Some(true)) => self.wind_chill(),
            (Some(false), Some(false)) => temperature,
            _ => None,
        }
    }

    /// What the pressure at the layer is evaluated from where it has none of
    /// its own: the altimeter setting and the layer's height above sea
    /// level.
    fn station_pressure_inputs(&self, altimeter: Option<Pressure>) -> (r: Option<
        (Pressure, Altitude),
    >)
        ensures
            r == self.readings().station_pressure_inputs(altimeter),
    {
        if self.pressure().is_some() {
            return None;
        }
        match (altimeter, self.height_msl()) {
            (Some(a), Some(h)) => Some((a, h)),
            _ => None,
        }
    }

    /// What the formula of equivalent potential temperature is applied to.
    /// The pressure is the layer's own, else the one evaluated from the
    /// altimeter setting; without either, or without temperature or
    /// dewpoint, the formula does not apply.
    fn theta_e_inputs(&self, altimeter: Option<Pressure>) -> (r: Option<ThetaEInputs>)
        ensures
            r == self.readings().theta_e_inputs(altimeter),
    {
        let pressure = match self.pressure() {
            Some(p) => p,
            None => match self.station_pressure_inputs(altimeter) {
                Some(_) => match self.evaluated().station_pressure {
                    Some(p) => p,
                    None => return None,
                },
                None => return None,
            },
        };
        match (self.temperature(), self.dewpoint()) {
            (Some(temperature), Some(dewpoint)) => Some(
                ThetaEInputs { temperature, dewpoint, pressure },
            ),
            _ => None,
        }
    }

    /// The equivalent potential temperature: the evaluated value where the
    /// formula applies, and absent otherwise.
    fn theta_e(&self, altimeter: Option<Pressure>) -> (r: Option<Temperature>)
        ensures
            r == self.readings().theta_e(altimeter),
    {
        match self.theta_e_inputs(altimeter) {
            Some(_) => self.evaluated().theta_e,
            None => None,
        }
    }

    /// The dewpoint from temperature and reported relative humidity: the
    /// evaluated value where both are there, and absent otherwise.
    fn dewpoint_from_rh(&self) -> (r: Option<Temperature>)
        ensures
            r == self.readings().dewpoint_from_rh(),
    {
        match self.dewpoint_from_rh_inputs() {
            Some(_) => self.evaluated().dewpoint_from_rh,
            None => None,
        }
    }

    /// The relative humidity from temperature and reported dewpoint: the
    /// evaluated value where both are there, and absent otherwise.
    fn rh_from_dewpoint(&self) -> (r: Option<Fraction>)
        ensures
            r == self.readings().rh_from_dewpoint(),
    {
        match self.rh_from_dewpoint_inputs() {
            Some(_) => self.evaluated().rh_from_dewpoint,
            None => None,
        }
    }

    /// What the dewpoint formula is applied to: temperature and reported
    /// relative humidity.
    fn dewpoint_from_rh_inputs(&self) -> (r: Option<(Temperature, Fraction)>)
        ensures
            r == self.readings().dewpoint_from_rh_inputs(),
    {
        match (self.temperature(), self.reported_relative_humidity()) {
            (Some(t), Some(rh)) => Some((t, rh)),
            _ => None,
        }
    }

    /// What the humidity formula is applied to: temperature and reported
    /// dewpoint.
    fn rh_from_dewpoint_inputs(&self) -> (r: Option<(Temperature, Temperature)>)
        ensures
            r == self.readings().rh_from_dewpoint_inputs(),
    {
        match (self.temperature(), self.reported_dewpoint()) {
            (Some(t), Some(td)) => Some((t, td)),
            _ => None,
        }
    }

    /// The wind put together from its speed and direction; absent without a
    /// speed.
    fn wind_from_speed_and_direction(&self) -> (r: Option<Wind>)
        ensures
            r == self.readings().wind_from_speed_and_direction(),
    {
        match self.wind_speed() {
            Some(speed) => Some(Wind { direction: self.wind_direction(), speed }),
            None => None,
        }
    }

    /// The layer as a plain record: what it holds, with its height above sea
    /// level worked out.
    fn to_struct(&self) -> (r: WxEntryLayerStruct)
        ensures
            r.readings() == (Readings {
                height_msl: self.readings().height_above_sea(),
                ..self.readings()
            }),
    {
        WxEntryLayerStruct {
            layer: self.layer(),
            station: self.station(),
            temperature: self.temperature(),
            pressure: self.pressure(),
            visibility: self.visibility(),
            wind: self.wind(),
            dewpoint: self.reported_dewpoint(),
            relative_humidity: self.reported_relative_humidity(),
            height_msl: self.height_msl(),
            evaluated: self.evaluated(),
        }
    }
}

} // verus!
