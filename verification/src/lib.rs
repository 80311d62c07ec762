//! Weather observations in a dimensionally typed model: units and their
//! conversions, present-weather codes, the layers of an observation with the
//! quantities derived from them, and a comfort score.
//!
//! Every quantity is a fixed-point decimal with six fractional digits, held in
//! an `i64` (see [`fixed`]). The heat index, a polynomial, is worked out
//! exactly (see [`heat`]). The closed-form physical formulas that need
//! logarithms, powers or trigonometry are not part of this crate: for each of
//! them the crate states what is handed to the formula and what is done with
//! its value (see [`observation::readings`]).
use vstd::prelude::*;

pub mod fixed;
pub mod units;
pub mod tokens;
pub mod clock;
pub mod wx;
pub mod sky;
pub mod station;
pub mod layer;
pub mod heat;
pub mod observation;
pub mod comfort;
pub mod adapters;
pub mod store;
pub mod model;

pub use crate::comfort::comfort_index;
pub use crate::comfort::get_from_table;
pub use crate::comfort::Factor;
pub use crate::layer::Layer;
pub use crate::layer::Layer::All;
pub use crate::layer::Layer::Indoor;
pub use crate::layer::Layer::NearSurface;
pub use crate::layer::Layer::SeaLevel;
pub use crate::layer::Layer::AGL;
pub use crate::layer::Layer::MBAR;
pub use crate::layer::Layer::MSL;
pub use crate::layer::Param;
pub use crate::model::DataType;
pub use crate::model::ModelRun;
pub use crate::model::WeatherModel;
pub use crate::observation::dense::WxEntryLayerStruct;
pub use crate::observation::dense::WxEntryStruct;
pub use crate::observation::entry_api::ModelError;
pub use crate::observation::entry_api::WxEntry;
pub use crate::observation::layer_api::WxEntryLayer;
pub use crate::observation::projection::DirectionExpanded;
pub use crate::observation::projection::UnitPreferences;
pub use crate::observation::projection::WindExpanded;
pub use crate::observation::projection::WxAll;
pub use crate::observation::projection::WxAllLayer;
pub use crate::observation::readings::Evaluated;
pub use crate::observation::readings::EvaluatedEntry;
pub use crate::observation::readings::MslpInputs;
pub use crate::observation::readings::Precip;
pub use crate::observation::readings::SlpInputs;
pub use crate::observation::readings::ThetaEInputs;
pub use crate::observation::readings::Wind;
pub use crate::observation::sparse::HashMapWx;
pub use crate::observation::sparse::LayerHash;
pub use crate::observation::sparse::Value;
pub use crate::observation::wire::WxStructDeserialized;
pub use crate::observation::wire::WxStructDeserializedLayer;
pub use crate::sky::skycover_from_vecs;
pub use crate::sky::CloudLayer;
pub use crate::sky::CloudLayerCoverage;
pub use crate::sky::SkyCoverage;
pub use crate::sky::SkyError;
pub use crate::station::Coordinates;
pub use crate::station::Station;
pub use crate::store::StationData;
pub use crate::store::StationDatabaseInternal;
pub use crate::units::direction::int_to_cardinal;
pub use crate::units::direction::Direction;
pub use crate::units::direction::DirectionError;
pub use crate::units::families::Altitude;
pub use crate::units::families::Distance;
pub use crate::units::families::DistanceUnit;
pub use crate::units::families::DistanceUnit::Feet;
pub use crate::units::families::DistanceUnit::Kilometer;
pub use crate::units::families::DistanceUnit::Meter;
pub use crate::units::families::DistanceUnit::Mile;
pub use crate::units::families::DistanceUnit::NauticalMile;
pub use crate::units::families::Fraction;
pub use crate::units::families::FractionalUnit;
pub use crate::units::families::FractionalUnit::Decimal;
pub use crate::units::families::FractionalUnit::Milli;
pub use crate::units::families::FractionalUnit::Percent;
pub use crate::units::families::PrecipAmount;
pub use crate::units::families::PrecipUnit;
pub use crate::units::families::PrecipUnit::Cm;
pub use crate::units::families::PrecipUnit::Inch;
pub use crate::units::families::PrecipUnit::Mm;
pub use crate::units::families::Pressure;
pub use crate::units::families::PressureUnit;
pub use crate::units::families::PressureUnit::Atm;
pub use crate::units::families::PressureUnit::HPa;
pub use crate::units::families::PressureUnit::InHg;
pub use crate::units::families::PressureUnit::Mbar;
pub use crate::units::families::PressureUnit::Psi;
pub use crate::units::families::SpecEnergy;
pub use crate::units::families::SpecEnergyUnit;
pub use crate::units::families::SpecEnergyUnit::Jkg;
pub use crate::units::families::SpecEnergyUnit::M2s2;
pub use crate::units::families::Speed;
pub use crate::units::families::SpeedUnit;
pub use crate::units::families::SpeedUnit::Knots;
pub use crate::units::families::SpeedUnit::Kph;
pub use crate::units::families::SpeedUnit::Mph;
pub use crate::units::families::SpeedUnit::Mps;
pub use crate::units::proportional::Proportional;
pub use crate::units::proportional::ProportionalUnit;
pub use crate::units::proportional::Unit;
pub use crate::units::proportional::UnitsType;
pub use crate::units::temperature::Temperature;
pub use crate::units::temperature::TemperatureUnit;
pub use crate::units::temperature::TemperatureUnit::Celsius;
pub use crate::units::temperature::TemperatureUnit::Fahrenheit;
pub use crate::units::temperature::TemperatureUnit::Kelvin;
pub use crate::wx::Intensity;
pub use crate::wx::Wx;

verus! {

/// Applies `f` to the value inside `a`, if there is one.
pub fn ignore_none<T, R, F: FnOnce(T) -> R>(a: Option<T>, f: F) -> (r: Option<R>)
    requires
        a matches Some(s) ==> f.requires((s,)),
    ensures
        a is None ==> r is None,
        a matches Some(s) ==> r matches Some(v) && f.ensures((s,), v),
{
    match a {
        None => None,
        Some(s) => {
            let r = f(s);
            Some(r)
        },
    }
}

} // verus!
