//! Temperature: the one family whose units differ by an offset as well as a
//! factor. Every conversion between two different units goes through Kelvin.
use vstd::prelude::*;
use crate::fixed::div_round;
use crate::fixed::div_round_i128;
use crate::fixed::saturate;
use crate::fixed::saturate_i128;
use crate::units::proportional::Unit;
use crate::units::proportional::UnitsType;
use crate::units::text::format_with_symbol;
use crate::units::text::with_symbol;

verus! {

/// Units of temperature.
#[derive(Clone, Copy, PartialEq, Eq, Debug, Structural)]
pub enum TemperatureUnit {
    Kelvin,
    Fahrenheit,
    Celsius,
}

impl UnitsType for TemperatureUnit {
    open spec fn spec_symbol(&self) -> Seq<char> {
        match self {
            TemperatureUnit::Kelvin => "°K"@,
            TemperatureUnit::Fahrenheit => "°F"@,
            TemperatureUnit::Celsius => "°C"@,
        }
    }

    fn symbol(&self) -> (r: &'static str) {
        match self {
            TemperatureUnit::Kelvin => "°K",
            TemperatureUnit::Fahrenheit => "°F",
            TemperatureUnit::Celsius => "°C",
        }
    }
}

/// The freezing point of water in Kelvin, in millionths: 273.15.
pub const CELSIUS_OFFSET: i64 = 273_150_000;

/// Zero Kelvin below zero Fahrenheit, in millionths of a degree Fahrenheit:
/// 459.67.
pub const FAHRENHEIT_OFFSET: i64 = 459_670_000;

/// A value in `unit`, expressed in Kelvin.
pub open spec fn to_kelvin(value: int, unit: TemperatureUnit) -> int {
    match unit {
        TemperatureUnit::Kelvin => value,
        TemperatureUnit::Celsius => value + CELSIUS_OFFSET,
        TemperatureUnit::Fahrenheit => div_round((value + FAHRENHEIT_OFFSET) * 5, 9),
    }
}

/// A value in Kelvin, expressed in `unit`.
pub open spec fn from_kelvin(kelvin: int, unit: TemperatureUnit) -> int {
    match unit {
        TemperatureUnit::Kelvin => kelvin,
        TemperatureUnit::Celsius => kelvin - CELSIUS_OFFSET,
        TemperatureUnit::Fahrenheit => div_round(kelvin * 9, 5) - FAHRENHEIT_OFFSET,
    }
}

/// A temperature. `value` counts millionths of a degree of `unit`.
#[derive(Clone, Copy, Debug)]
pub struct Temperature {
    pub value: i64,
    pub unit: TemperatureUnit,
}

impl Temperature {
    /// The value that this temperature has in `unit`: unchanged in its own
    /// unit, and by way of Kelvin in another.
    pub open spec fn spec_value_in(&self, unit: TemperatureUnit) -> int {
        if self.unit == unit {
            self.value as int
        } else {
            saturate(from_kelvin(to_kelvin(self.value as int, self.unit), unit))
        }
    }

    /// This temperature expressed in `unit`.
    pub open spec fn spec_convert(&self, unit: TemperatureUnit) -> Self {
        Temperature { value: self.spec_value_in(unit) as i64, unit }
    }

    /// The text of this temperature: its value with one decimal, then its
    /// unit's symbol.
    pub open spec fn spec_string_with_unit(&self) -> Seq<char> {
        with_symbol(self.value as int, self.unit.spec_symbol())
    }

    /// A temperature of `value` millionths of a degree of `unit`.
    pub fn new(value: i64, unit: TemperatureUnit) -> (r: Self)
        ensures
            r.value == value,
            r.unit == unit,
    {
        Temperature { value, unit }
    }

    /// The unit that the temperature was given in.
    pub fn unit(&self) -> (r: TemperatureUnit)
        ensures
            r == self.unit,
    {
        self.unit
    }

    /// The same temperature in another unit.
    pub fn convert(&self, unit: TemperatureUnit) -> (r: Self)
        ensures
            r == self.spec_convert(unit),
            r.unit == unit,
            r.value == self.spec_value_in(unit),
    {
        if self.unit == unit {
            return Temperature { value: self.value, unit };
        }
        let v: i128 = self.value as i128;
        let kelvin: i128 = match self.unit {
            TemperatureUnit::Kelvin => v,
            TemperatureUnit::Celsius => v + CELSIUS_OFFSET as i128,
            TemperatureUnit::Fahrenheit => div_round_i128((v + FAHRENHEIT_OFFSET as i128) * 5, 9),
        };
        proof {
            crate::fixed::lemma_div_round_bounds((v + FAHRENHEIT_OFFSET) * 5, 9);
            crate::fixed::lemma_div_round_bounds(kelvin * 9, 5);
        }
        let value: i128 = match unit {
            TemperatureUnit::Kelvin => kelvin,
            TemperatureUnit::Celsius => kelvin - CELSIUS_OFFSET as i128,
            TemperatureUnit::Fahrenheit => div_round_i128(kelvin * 9, 5) - FAHRENHEIT_OFFSET as i128,
        };
        Temperature { value: saturate_i128(value), unit }
    }

    /// The temperature's value in `unit`, in millionths of a degree.
    pub fn value_in(&self, unit: TemperatureUnit) -> (r: i64)
        ensures
            r == self.spec_value_in(unit),
    {
        self.convert(unit).value
    }

    /// The value with one decimal and the unit's symbol, as in `68.0 °F`.
    pub fn string_with_unit(&self) -> (r: String)
        ensures
            r@ == self.spec_string_with_unit(),
    {
        format_with_symbol(self.value, self.unit.symbol())
    }
}

impl PartialEq for Temperature {
    /// Two temperatures are equal when the right one, expressed in the left
    /// one's unit, has the same value.
    fn eq(&self, other: &Self) -> (r: bool) {
        self.value == other.convert(self.unit).value
    }
}

impl vstd::std_specs::cmp::PartialEqSpecImpl for Temperature {
    open spec fn obeys_eq_spec() -> bool {
        true
    }

    open spec fn eq_spec(&self, other: &Self) -> bool {
        self.value == other.spec_value_in(self.unit)
    }
}

impl Unit<TemperatureUnit> for Temperature {
    open spec fn quantity_value(&self) -> i64 {
        self.value
    }

    open spec fn quantity_unit(&self) -> TemperatureUnit {
        self.unit
    }

    open spec fn quantity_in(&self, unit: TemperatureUnit) -> int {
        self.spec_value_in(unit)
    }

    fn new(value: i64, unit: TemperatureUnit) -> (r: Self) {
        Temperature { value, unit }
    }

    fn unit(&self) -> (r: TemperatureUnit) {
        self.unit
    }

    fn convert(&self, unit: TemperatureUnit) -> (r: Self) {
        Temperature::convert(self, unit)
    }

    fn string_with_unit(&self) -> (r: String) {
        Temperature::string_with_unit(self)
    }

    fn value_in(&self, unit: TemperatureUnit) -> (r: i64) {
        Temperature::value_in(self, unit)
    }
}

} // verus!
