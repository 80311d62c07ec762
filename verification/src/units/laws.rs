//! What holds of conversions: a value that is taken through other units and
//! back comes out where it started, up to the rounding of each step.
use vstd::prelude::*;
use crate::fixed::abs;
use crate::fixed::div_round;
use crate::fixed::lemma_div_round_bounds;
use crate::fixed::lemma_div_round_exact;
use crate::fixed::lemma_div_round_unique;
use crate::fixed::saturate;
use crate::units::proportional::Proportional;
use crate::units::proportional::ProportionalUnit;
use crate::units::temperature::from_kelvin;
use crate::units::temperature::to_kelvin;
use crate::units::temperature::Temperature;
use crate::units::temperature::TemperatureUnit;

verus! {

/// Whether a value lies in the range of `i64`, so that nothing is cut off.
pub open spec fn fits(v: int) -> bool {
    i64::MIN <= v <= i64::MAX
}

/// Converting a quantity to its own unit changes nothing.
pub proof fn lemma_convert_to_own_unit<T: Proportional>(x: ProportionalUnit<T>)
    ensures
        x.spec_convert(x.unit) == x,
{
    x.unit.coefficient_is_positive();
    lemma_div_round_exact(x.value as int, x.unit.spec_coefficient());
}

/// Round trip in a proportional family. A quantity taken from its unit to
/// `a`, from there to `b`, and back to its own unit differs from where it
/// started by no more than the rounding of the three steps: with `u`, `ca`
/// and `cb` the coefficients of the three units, by at most
/// `(u + ca + cb) / (2 u)` millionths. This holds where neither of the two
/// values on the way leaves the range of `i64`.
pub proof fn lemma_proportional_round_trip<T: Proportional>(x: ProportionalUnit<T>, a: T, b: T)
    requires
        fits(div_round(x.value * x.unit.spec_coefficient(), a.spec_coefficient())),
        fits(
            div_round(
                x.spec_convert(a).value * a.spec_coefficient(),
                b.spec_coefficient(),
            ),
        ),
    ensures
        x.spec_convert(a).spec_convert(b).spec_convert(x.unit).unit == x.unit,
        2 * x.unit.spec_coefficient() * abs(
            x.spec_convert(a).spec_convert(b).spec_convert(x.unit).value - x.value,
        ) <= x.unit.spec_coefficient() + a.spec_coefficient() + b.spec_coefficient(),
{
    let u = x.unit.spec_coefficient();
    let ca = a.spec_coefficient();
    let cb = b.spec_coefficient();
    x.unit.coefficient_is_positive();
    a.coefficient_is_positive();
    b.coefficient_is_positive();
    let v = x.value as int;
    let y1 = div_round(v * u, ca);
    let y2 = div_round(y1 * ca, cb);
    let z = div_round(y2 * cb, u);
    lemma_div_round_bounds(v * u, ca);
    lemma_div_round_bounds(y1 * ca, cb);
    lemma_div_round_bounds(y2 * cb, u);
    assert(x.spec_convert(a).value == y1);
    assert(x.spec_convert(a).spec_convert(b).value == y2);
    let back = saturate(z);
    assert(x.spec_convert(a).spec_convert(b).spec_convert(x.unit).value == back);
    let p = v * u;
    let q = y1 * ca;
    let r = y2 * cb;
    let s = u * z;
    assert(2 * ca * y1 == 2 * q) by (nonlinear_arith)
        requires
            q == y1 * ca,
    ;
    assert(2 * cb * y2 == 2 * r) by (nonlinear_arith)
        requires
            r == y2 * cb,
    ;
    assert(2 * u * z == 2 * s) by (nonlinear_arith)
        requires
            s == u * z,
    ;
    assert(2 * p - ca - cb - u < 2 * s <= 2 * p + ca + cb + u);
    assert(2 * u * abs(z - v) <= u + ca + cb) by (nonlinear_arith)
        requires
            2 * p - ca - cb - u < 2 * s <= 2 * p + ca + cb + u,
            p == v * u,
            s == u * z,
            u > 0,
    ;
    assert(abs(back - v) <= abs(z - v));
    assert(2 * u * abs(back - v) <= 2 * u * abs(z - v)) by (nonlinear_arith)
        requires
            abs(back - v) <= abs(z - v),
            u > 0,
    ;
}

/// Round trip in a proportional family, relative to the value. Where the
/// value is at least a hundred thousand times the rounding of the three
/// steps, the quantity that comes back differs from it by no more than a
/// hundred-thousandth of it. Values nearer to zero are held to the absolute
/// bound of [`lemma_proportional_round_trip`] alone: a fixed-point value of
/// a few millionths cannot be met to a share of itself.
pub proof fn lemma_proportional_round_trip_relative<T: Proportional>(
    x: ProportionalUnit<T>,
    a: T,
    b: T,
)
    requires
        fits(div_round(x.value * x.unit.spec_coefficient(), a.spec_coefficient())),
        fits(
            div_round(
                x.spec_convert(a).value * a.spec_coefficient(),
                b.spec_coefficient(),
            ),
        ),
        100_000 * (x.unit.spec_coefficient() + a.spec_coefficient() + b.spec_coefficient()) <= 2
            * x.unit.spec_coefficient() * abs(x.value as int),
    ensures
        100_000 * abs(x.spec_convert(a).spec_convert(b).spec_convert(x.unit).value - x.value)
            <= abs(x.value as int),
{
    lemma_proportional_round_trip(x, a, b);
    x.unit.coefficient_is_positive();
    let u = x.unit.spec_coefficient();
    let e = abs(x.spec_convert(a).spec_convert(b).spec_convert(x.unit).value - x.value);
    let m = abs(x.value as int);
    let total = u + a.spec_coefficient() + b.spec_coefficient();
    assert(100_000 * e <= m) by (nonlinear_arith)
        requires
            2 * u * e <= total,
            100_000 * total <= 2 * u * m,
            u > 0,
            e >= 0,
    ;
}

/// A value in Kelvin that is expressed in a unit and then in Kelvin again is
/// the value that it was.
pub proof fn lemma_kelvin_round_trip(kelvin: int, unit: TemperatureUnit)
    ensures
        to_kelvin(from_kelvin(kelvin, unit), unit) == kelvin,
{
    if unit == TemperatureUnit::Fahrenheit {
        let m = div_round(kelvin * 9, 5);
        lemma_div_round_bounds(kelvin * 9, 5);
        lemma_div_round_unique(m * 5, 9, kelvin);
    }
}

/// A value that is expressed in Kelvin and then in its unit again is within
/// one millionth of the value that it was, and is that value for Celsius and
/// Kelvin.
pub proof fn lemma_unit_round_trip(value: int, unit: TemperatureUnit)
    ensures
        abs(from_kelvin(to_kelvin(value, unit), unit) - value) <= 1,
        unit != TemperatureUnit::Fahrenheit ==> from_kelvin(to_kelvin(value, unit), unit) == value,
{
    if unit == TemperatureUnit::Fahrenheit {
        let w = value + 459_670_000;
        let k = div_round(w * 5, 9);
        lemma_div_round_bounds(w * 5, 9);
        lemma_div_round_bounds(k * 9, 5);
    }
}

/// Converting a temperature to its own unit changes nothing.
pub proof fn lemma_temperature_to_own_unit(x: Temperature)
    ensures
        x.spec_convert(x.unit) == x,
{
}

/// The value of a temperature in `unit` before anything is cut off.
pub open spec fn exact_in(x: Temperature, unit: TemperatureUnit) -> int {
    if x.unit == unit {
        x.value as int
    } else {
        from_kelvin(to_kelvin(x.value as int, x.unit), unit)
    }
}

/// Round trip of temperature. A temperature taken from its unit to `a`,
/// from there to `b`, and back to its own unit is within one millionth of a
/// degree of where it started. This holds where neither of the two values on
/// the way leaves the range of `i64`.
pub proof fn lemma_temperature_round_trip(x: Temperature, a: TemperatureUnit, b: TemperatureUnit)
    requires
        fits(exact_in(x, a)),
        fits(exact_in(x.spec_convert(a), b)),
    ensures
        x.spec_convert(a).spec_convert(b).spec_convert(x.unit).unit == x.unit,
        abs(x.spec_convert(a).spec_convert(b).spec_convert(x.unit).value - x.value) <= 1,
{
    let v = x.value as int;
    let k0 = to_kelvin(v, x.unit);
    let x1 = x.spec_convert(a);
    let x2 = x1.spec_convert(b);
    let x3 = x2.spec_convert(x.unit);
    lemma_unit_round_trip(v, x.unit);
    lemma_kelvin_round_trip(k0, a);
    lemma_kelvin_round_trip(k0, b);
    // The value in Kelvin stays what it was on every step.
    assert(to_kelvin(x1.value as int, a) == k0 || x1.value == v && a == x.unit);
    assert(to_kelvin(x1.value as int, a) == k0);
    assert(to_kelvin(x2.value as int, b) == k0);
    assert(x3.value == v || x3.value == saturate(from_kelvin(k0, x.unit)));
}

} // verus!
