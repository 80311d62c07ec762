//! Quantities whose units differ by a constant factor.
use vstd::prelude::*;
use crate::fixed::add_saturating;
use crate::fixed::mul_div;
use crate::fixed::saturate;
use crate::fixed::saturate_i128;
use crate::fixed::div_round;
use crate::fixed::div_round_i128;
use crate::fixed::scale;
use crate::fixed::sub_saturating;
use crate::fixed::MICRO;
use crate::units::text::format_with_symbol;
use crate::units::text::with_symbol;

verus! {

/// The tag of a unit: it knows the symbol that is written after a value.
pub trait UnitsType: Copy {
    /// The unit's symbol.
    spec fn spec_symbol(&self) -> Seq<char>;

    /// The unit's symbol, as in `mph`.
    fn symbol(&self) -> (r: &'static str)
        ensures
            r@ == self.spec_symbol(),
    ;
}

/// A unit of a family in which every unit is a fixed multiple of one
/// reference unit.
pub trait Proportional: UnitsType {
    /// How many millionths of the reference unit one of this unit is.
    spec fn spec_coefficient(&self) -> int;

    /// Coefficients are strictly positive.
    proof fn coefficient_is_positive(&self)
        ensures
            0 < self.spec_coefficient(),
    ;

    /// The factor that turns a value in this unit into one in the family's
    /// reference unit, in millionths.
    fn coefficient(&self) -> (r: i64)
        ensures
            r == self.spec_coefficient(),
            0 < r,
    ;
}

/// A value in a unit of a proportional family. `value` counts millionths of
/// `unit`.
#[derive(Debug)]
pub struct ProportionalUnit<T: Proportional> {
    pub value: i64,
    pub unit: T,
}

impl<T: Proportional> Clone for ProportionalUnit<T> {
    fn clone(&self) -> (r: Self)
        ensures
            r == *self,
    {
        ProportionalUnit { value: self.value, unit: self.unit }
    }
}

impl<T: Proportional> Copy for ProportionalUnit<T> {

}

impl<T: Proportional> ProportionalUnit<T> {
    /// The value that this quantity has in `unit`.
    pub open spec fn spec_value_in(&self, unit: T) -> int {
        scale(self.value as int, self.unit.spec_coefficient(), unit.spec_coefficient())
    }

    /// This quantity expressed in `unit`.
    pub open spec fn spec_convert(&self, unit: T) -> Self {
        ProportionalUnit { value: self.spec_value_in(unit) as i64, unit }
    }

    /// The sum of this quantity and `rhs`, in this quantity's unit.
    pub open spec fn spec_add(&self, rhs: Self) -> Self {
        ProportionalUnit {
            value: saturate(rhs.spec_value_in(self.unit) + self.value) as i64,
            unit: self.unit,
        }
    }

    /// What is left of this quantity when `rhs` is taken from it, in this
    /// quantity's unit.
    pub open spec fn spec_sub(&self, rhs: Self) -> Self {
        ProportionalUnit {
            value: saturate(self.value - rhs.spec_value_in(self.unit)) as i64,
            unit: self.unit,
        }
    }

    /// This quantity times a factor given in millionths.
    pub open spec fn spec_mul(&self, factor: i64) -> Self {
        ProportionalUnit {
            value: scale(self.value as int, factor as int, MICRO as int) as i64,
            unit: self.unit,
        }
    }

    /// This quantity divided by a divisor given in millionths. Division by
    /// zero saturates on the side of the dividend's sign.
    pub open spec fn spec_div(&self, divisor: i64) -> Self {
        let value = if divisor > 0 {
            scale(self.value as int, MICRO as int, divisor as int)
        } else if divisor < 0 {
            saturate(div_round(-(self.value * MICRO), -(divisor as int)))
        } else if self.value > 0 {
            i64::MAX as int
        } else if self.value < 0 {
            i64::MIN as int
        } else {
            0
        };
        ProportionalUnit { value: value as i64, unit: self.unit }
    }

    /// The text of this quantity: its value with one decimal, then its
    /// unit's symbol.
    pub open spec fn spec_string_with_unit(&self) -> Seq<char> {
        with_symbol(self.value as int, self.unit.spec_symbol())
    }

    /// A quantity of `value` millionths of `unit`.
    pub fn new(value: i64, unit: T) -> (r: Self)
        ensures
            r.value == value,
            r.unit == unit,
    {
        ProportionalUnit { value, unit }
    }

    /// A quantity of `value` millionths of `unit`.
    pub fn new_const(value: i64, unit: T) -> (r: Self)
        ensures
            r.value == value,
            r.unit == unit,
    {
        ProportionalUnit { value, unit }
    }

    /// The unit that the quantity was given in.
    pub fn unit(&self) -> (r: T)
        ensures
            r == self.unit,
    {
        self.unit
    }

    /// The same quantity in another unit of the family. The value is
    /// multiplied by this unit's coefficient and divided by the target's.
    pub fn convert(&self, unit: T) -> (r: Self)
        ensures
            r == self.spec_convert(unit),
            r.unit == unit,
            r.value == self.spec_value_in(unit),
    {
        let value = mul_div(self.value, self.unit.coefficient(), unit.coefficient());
        ProportionalUnit { value, unit }
    }

    /// The quantity's value in `unit`, in millionths.
    pub fn value_in(&self, unit: T) -> (r: i64)
        ensures
            r == self.spec_value_in(unit),
    {
        self.convert(unit).value
    }

    /// The value with one decimal and the unit's symbol, as in `897.0 hPa`.
    pub fn string_with_unit(&self) -> (r: String)
        ensures
            r@ == self.spec_string_with_unit(),
    {
        format_with_symbol(self.value, self.unit.symbol())
    }

    /// Adds `rhs`, expressed in this quantity's unit first.
    pub fn add(self, rhs: Self) -> (r: Self)
        ensures
            r == self.spec_add(rhs),
    {
        let other = rhs.convert(self.unit);
        ProportionalUnit { value: add_saturating(other.value, self.value), unit: self.unit }
    }

    /// Takes `rhs` from this quantity, expressed in this quantity's unit
    /// first.
    pub fn sub(self, rhs: Self) -> (r: Self)
        ensures
            r == self.spec_sub(rhs),
    {
        let other = rhs.convert(self.unit);
        ProportionalUnit { value: sub_saturating(self.value, other.value), unit: self.unit }
    }

    /// Multiplies the value by a factor given in millionths; the unit stays.
    pub fn mul(self, factor: i64) -> (r: Self)
        ensures
            r == self.spec_mul(factor),
    {
        ProportionalUnit { value: mul_div(self.value, factor, MICRO), unit: self.unit }
    }

    /// Divides the value by a divisor given in millionths; the unit stays.
    pub fn div(self, divisor: i64) -> (r: Self)
        ensures
            r == self.spec_div(divisor),
    {
        let value = if divisor > 0 {
            mul_div(self.value, MICRO, divisor)
        } else if divisor < 0 {
            assert(-0x4000_0000_0000_0000_0000_0000_0000_0000 <= self.value * MICRO
                <= 0x4000_0000_0000_0000_0000_0000_0000_0000) by (nonlinear_arith)
                requires
                    -0x8000_0000_0000_0000 <= self.value <= 0x8000_0000_0000_0000,
                    MICRO == 1_000_000,
            ;
            let scaled: i128 = (self.value as i128) * (MICRO as i128);
            saturate_i128(div_round_i128(-scaled, -(divisor as i128)))
        } else if self.value > 0 {
            i64::MAX
        } else if self.value < 0 {
            i64::MIN
        } else {
            0
        };
        ProportionalUnit { value, unit: self.unit }
    }
}

impl<T: Proportional> PartialEq for ProportionalUnit<T> {
    /// Two quantities are equal when the right one, expressed in the left
    /// one's unit, has the same value.
    fn eq(&self, other: &Self) -> (r: bool) {
        self.value == other.convert(self.unit).value
    }
}

impl<T: Proportional> vstd::std_specs::cmp::PartialEqSpecImpl for ProportionalUnit<T> {
    open spec fn obeys_eq_spec() -> bool {
        true
    }

    open spec fn eq_spec(&self, other: &Self) -> bool {
        self.value == other.spec_value_in(self.unit)
    }
}

/// A dimensioned quantity: what every family of units offers. The value can
/// be read only together with a unit.
pub trait Unit<T: UnitsType>: Copy {
    /// The value in the quantity's own unit, in millionths.
    spec fn quantity_value(&self) -> i64;

    /// The quantity's own unit.
    spec fn quantity_unit(&self) -> T;

    /// The value that the quantity has in `unit`, in millionths.
    spec fn quantity_in(&self, unit: T) -> int;

    /// A quantity of `value` millionths of `unit`.
    fn new(value: i64, unit: T) -> (r: Self)
        ensures
            r.quantity_value() == value,
            r.quantity_unit() == unit,
    ;

    /// The unit that the quantity was given in.
    fn unit(&self) -> (r: T)
        ensures
            r == self.quantity_unit(),
    ;

    /// The same quantity in another unit of its family.
    fn convert(&self, unit: T) -> (r: Self)
        ensures
            r.quantity_unit() == unit,
            r.quantity_value() == self.quantity_in(unit),
    ;

    /// The value with one decimal and the unit's symbol.
    fn string_with_unit(&self) -> (r: String)
        ensures
            r@ == with_symbol(self.quantity_value() as int, self.quantity_unit().spec_symbol()),
    ;

    /// The quantity's value in `unit`, in millionths.
    fn value_in(&self, unit: T) -> (r: i64)
        ensures
            r == self.quantity_in(unit),
    ;
}

impl<T: Proportional> Unit<T> for ProportionalUnit<T> {
    open spec fn quantity_value(&self) -> i64 {
        self.value
    }

    open spec fn quantity_unit(&self) -> T {
        self.unit
    }

    open spec fn quantity_in(&self, unit: T) -> int {
        self.spec_value_in(unit)
    }

    fn new(value: i64, unit: T) -> (r: Self) {
        ProportionalUnit { value, unit }
    }

    fn unit(&self) -> (r: T) {
        self.unit
    }

    fn convert(&self, unit: T) -> (r: Self) {
        ProportionalUnit::convert(self, unit)
    }

    fn string_with_unit(&self) -> (r: String) {
        ProportionalUnit::string_with_unit(self)
    }

    fn value_in(&self, unit: T) -> (r: i64) {
        ProportionalUnit::value_in(self, unit)
    }
}

} // verus!
