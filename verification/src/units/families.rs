//! The proportional families of units and the coefficient of each unit.
use vstd::prelude::*;
use crate::units::proportional::Proportional;
use crate::units::proportional::ProportionalUnit;
use crate::units::proportional::UnitsType;

verus! {

/// Units of speed; the reference unit is the kilometre per hour.
#[derive(Clone, Copy, PartialEq, Eq, Debug, Structural)]
pub enum SpeedUnit {
    Mph,
    Kph,
    Knots,
    Mps,
}

/// A speed.
pub type Speed = ProportionalUnit<SpeedUnit>;

impl UnitsType for SpeedUnit {
    open spec fn spec_symbol(&self) -> Seq<char> {
        match self {
            SpeedUnit::Mph => "mph"@,
            SpeedUnit::Kph => "kph"@,
            SpeedUnit::Knots => "kts"@,
            SpeedUnit::Mps => "m/s"@,
        }
    }

    fn symbol(&self) -> (r: &'static str) {
        match self {
            SpeedUnit::Mph => "mph",
            SpeedUnit::Kph => "kph",
            SpeedUnit::Knots => "kts",
            SpeedUnit::Mps => "m/s",
        }
    }
}

impl Proportional for SpeedUnit {
    open spec fn spec_coefficient(&self) -> int {
        match self {
            SpeedUnit::Mph => 1_609_344,
            SpeedUnit::Kph => 1_000_000,
            SpeedUnit::Knots => 1_852_000,
            SpeedUnit::Mps => 3_600_000,
        }
    }

    proof fn coefficient_is_positive(&self) {
    }

    fn coefficient(&self) -> (r: i64) {
        match self {
            SpeedUnit::Mph => 1_609_344,
            SpeedUnit::Kph => 1_000_000,
            SpeedUnit::Knots => 1_852_000,
            SpeedUnit::Mps => 3_600_000,
        }
    }
}

/// Units of pressure; the reference unit is the hectopascal.
#[derive(Clone, Copy, PartialEq, Eq, Debug, Structural)]
pub enum PressureUnit {
    HPa,
    Mbar,
    InHg,
    Psi,
    Atm,
}

/// A pressure.
pub type Pressure = ProportionalUnit<PressureUnit>;

impl UnitsType for PressureUnit {
    open spec fn spec_symbol(&self) -> Seq<char> {
        match self {
            PressureUnit::HPa => "hPa"@,
            PressureUnit::Mbar => "mb"@,
            PressureUnit::InHg => "inHg"@,
            PressureUnit::Psi => "psi"@,
            PressureUnit::Atm => "atm"@,
        }
    }

    fn symbol(&self) -> (r: &'static str) {
        match self {
            PressureUnit::HPa => "hPa",
            PressureUnit::Mbar => "mb",
            PressureUnit::InHg => "inHg",
            PressureUnit::Psi => "psi",
            PressureUnit::Atm => "atm",
        }
    }
}

impl Proportional for PressureUnit {
    open spec fn spec_coefficient(&self) -> int {
        match self {
            PressureUnit::HPa => 1_000_000,
            PressureUnit::Mbar => 1_000_000,
            PressureUnit::InHg => 33_863_890,
            PressureUnit::Psi => 68_947_570,
            PressureUnit::Atm => 1_013_250_000,
        }
    }

    proof fn coefficient_is_positive(&self) {
    }

    fn coefficient(&self) -> (r: i64) {
        match self {
            PressureUnit::HPa => 1_000_000,
            PressureUnit::Mbar => 1_000_000,
            PressureUnit::InHg => 33_863_890,
            PressureUnit::Psi => 68_947_570,
            PressureUnit::Atm => 1_013_250_000,
        }
    }
}

/// Units of specific energy; the two are the same size.
#[derive(Clone, Copy, PartialEq, Eq, Debug, Structural)]
pub enum SpecEnergyUnit {
    Jkg,
    M2s2,
}

/// An energy per mass.
pub type SpecEnergy = ProportionalUnit<SpecEnergyUnit>;

impl UnitsType for SpecEnergyUnit {
    open spec fn spec_symbol(&self) -> Seq<char> {
        match self {
            SpecEnergyUnit::Jkg => "J/kg"@,
            SpecEnergyUnit::M2s2 => "m^2/s^2"@,
        }
    }

    fn symbol(&self) -> (r: &'static str) {
        match self {
            SpecEnergyUnit::Jkg => "J/kg",
            SpecEnergyUnit::M2s2 => "m^2/s^2",
        }
    }
}

impl Proportional for SpecEnergyUnit {
    open spec fn spec_coefficient(&self) -> int {
        match self {
            SpecEnergyUnit::Jkg => 1_000_000,
            SpecEnergyUnit::M2s2 => 1_000_000,
        }
    }

    proof fn coefficient_is_positive(&self) {
    }

    fn coefficient(&self) -> (r: i64) {
        match self {
            SpecEnergyUnit::Jkg => 1_000_000,
            SpecEnergyUnit::M2s2 => 1_000_000,
        }
    }
}

/// Units of length; the reference unit is the metre.
#[derive(Clone, Copy, PartialEq, Eq, Debug, Structural)]
pub enum DistanceUnit {
    Meter,
    Kilometer,
    Feet,
    Mile,
    NauticalMile,
}

/// A distance.
pub type Distance = ProportionalUnit<DistanceUnit>;

/// A height.
pub type Altitude = ProportionalUnit<DistanceUnit>;

impl UnitsType for DistanceUnit {
    open spec fn spec_symbol(&self) -> Seq<char> {
        match self {
            DistanceUnit::Meter => "m"@,
            DistanceUnit::Kilometer => "km"@,
            DistanceUnit::Feet => "ft"@,
            DistanceUnit::Mile => "mi"@,
            DistanceUnit::NauticalMile => "nmi"@,
        }
    }

    fn symbol(&self) -> (r: &'static str) {
        match self {
            DistanceUnit::Meter => "m",
            DistanceUnit::Kilometer => "km",
            DistanceUnit::Feet => "ft",
            DistanceUnit::Mile => "mi",
            DistanceUnit::NauticalMile => "nmi",
        }
    }
}

impl Proportional for DistanceUnit {
    open spec fn spec_coefficient(&self) -> int {
        match self {
            DistanceUnit::Meter => 1_000_000,
            DistanceUnit::Kilometer => 1_000_000_000,
            DistanceUnit::Feet => 304_800,
            DistanceUnit::Mile => 1_609_344_000,
            DistanceUnit::NauticalMile => 1_852_000_000,
        }
    }

    proof fn coefficient_is_positive(&self) {
    }

    fn coefficient(&self) -> (r: i64) {
        match self {
            DistanceUnit::Meter => 1_000_000,
            DistanceUnit::Kilometer => 1_000_000_000,
            DistanceUnit::Feet => 304_800,
            DistanceUnit::Mile => 1_609_344_000,
            DistanceUnit::NauticalMile => 1_852_000_000,
        }
    }
}

/// Units of precipitation depth; the reference unit is the millimetre.
#[derive(Clone, Copy, PartialEq, Eq, Debug, Structural)]
pub enum PrecipUnit {
    Mm,
    Inch,
    Cm,
}

/// A depth of precipitation.
pub type PrecipAmount = ProportionalUnit<PrecipUnit>;

impl UnitsType for PrecipUnit {
    open spec fn spec_symbol(&self) -> Seq<char> {
        match self {
            PrecipUnit::Mm => "mm"@,
            PrecipUnit::Inch => "in"@,
            PrecipUnit::Cm => "cm"@,
        }
    }

    fn symbol(&self) -> (r: &'static str) {
        match self {
            PrecipUnit::Mm => "mm",
            PrecipUnit::Inch => "in",
            PrecipUnit::Cm => "cm",
        }
    }
}

impl Proportional for PrecipUnit {
    open spec fn spec_coefficient(&self) -> int {
        match self {
            PrecipUnit::Mm => 1_000_000,
            PrecipUnit::Inch => 25_400_000,
            PrecipUnit::Cm => 2_540_000,
        }
    }

    proof fn coefficient_is_positive(&self) {
    }

    fn coefficient(&self) -> (r: i64) {
        match self {
            PrecipUnit::Mm => 1_000_000,
            PrecipUnit::Inch => 25_400_000,
            PrecipUnit::Cm => 2_540_000,
        }
    }
}

/// Units of a dimensionless share; the reference unit is the plain ratio.
#[derive(Clone, Copy, PartialEq, Eq, Debug, Structural)]
pub enum FractionalUnit {
    Percent,
    Decimal,
    Milli,
}

/// A share of a whole.
pub type Fraction = ProportionalUnit<FractionalUnit>;

impl UnitsType for FractionalUnit {
    open spec fn spec_symbol(&self) -> Seq<char> {
        match self {
            FractionalUnit::Percent => "%"@,
            FractionalUnit::Decimal => ""@,
            FractionalUnit::Milli => "1/1000"@,
        }
    }

    fn symbol(&self) -> (r: &'static str) {
        match self {
            FractionalUnit::Percent => "%",
            FractionalUnit::Decimal => "",
            FractionalUnit::Milli => "1/1000",
        }
    }
}

impl Proportional for FractionalUnit {
    open spec fn spec_coefficient(&self) -> int {
        match self {
            FractionalUnit::Percent => 10_000,
            FractionalUnit::Decimal => 1_000_000,
            FractionalUnit::Milli => 1_000,
        }
    }

    proof fn coefficient_is_positive(&self) {
    }

    fn coefficient(&self) -> (r: i64) {
        match self {
            FractionalUnit::Percent => 10_000,
            FractionalUnit::Decimal => 1_000_000,
            FractionalUnit::Milli => 1_000,
        }
    }
}

} // verus!
