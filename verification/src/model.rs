//! The names under which a forecast service knows its models and the
//! quantities that it offers.
use vstd::prelude::*;

verus! {

/// A quantity that a forecast holds.
#[derive(Debug, Clone, Copy, PartialEq, Eq, Structural)]
pub enum DataType {
    Temperature2m,
    Dewpoint2m,
    ApparentTemperature,
    Cape,
}

impl DataType {
    /// The name of the quantity in a request.
    pub open spec fn spec_to_str(&self) -> Seq<char> {
        match self {
            DataType::Temperature2m => "temperature_2m"@,
            DataType::Dewpoint2m => "dewpoint_2m"@,
            DataType::ApparentTemperature => "apparent_temperature"@,
            DataType::Cape => "cape"@,
        }
    }

    /// The name of the quantity in a request.
    pub fn to_str(&self) -> (r: &'static str)
        ensures
            r@ == self.spec_to_str(),
    {
        match self {
            DataType::Temperature2m => "temperature_2m",
            DataType::Dewpoint2m => "dewpoint_2m",
            DataType::ApparentTemperature => "apparent_temperature",
            DataType::Cape => "cape",
        }
    }
}

/// A forecast model.
#[derive(Debug, Clone, Copy, Hash, PartialEq, Eq, Structural)]
pub enum WeatherModel {
    BestMatch,
    GFSSeamless,
    EcmwfIFS,
}

impl WeatherModel {
    /// The name of the model in a request.
    pub open spec fn spec_to_str(&self) -> Seq<char> {
        match self {
            WeatherModel::BestMatch => "best_match"@,
            WeatherModel::GFSSeamless => "gfs_seamless"@,
            WeatherModel::EcmwfIFS => "ecmwf_ifs04"@,
        }
    }

    /// The name of the model in a request.
    pub fn to_str(&self) -> (r: &'static str)
        ensures
            r@ == self.spec_to_str(),
    {
        match self {
            WeatherModel::BestMatch => "best_match",
            WeatherModel::GFSSeamless => "gfs_seamless",
            WeatherModel::EcmwfIFS => "ecmwf_ifs04",
        }
    }
}

/// One run of a model, by the instant at which it started, in seconds since
/// 1970-01-01 00:00 UTC.
#[derive(Debug, Clone, Copy, Hash, PartialEq, Eq, Structural)]
pub struct ModelRun {
    pub model: WeatherModel,
    pub date: i64,
}

} // verus!
